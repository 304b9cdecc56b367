use vstd::prelude::*;
use crate::fixed::{is_reading, Ratio, UNIT};
use crate::grid::GridCell;

verus! {

/// Numerator of the breathing factor `(2 + sin t) * 0.7` over the
/// denominator `10 * UNIT`, for the sine reading `s` of the elapsed time.
pub open spec fn breath_spec(s: int) -> int {
    7 * (2 * UNIT + s)
}

/// Numerator of a cell's translation along an axis whose spacing factor is
/// `k` (3 across, 2 upwards), over the denominator `20 * UNIT`:
/// `(coord - n/2) * (breath * k) + scatter`.
pub open spec fn axis_spec(coord: int, n: int, k: int, s: int, c: int) -> int {
    k * (2 * coord - n) * breath_spec(s) + 20 * c
}

/// Numerator of a cell's uniform scale `(2.4 - breath) * blockScale` over
/// the denominator `30 * n * UNIT`.
pub open spec fn scale_spec(cell: GridCell, s: int) -> int {
    (24 * UNIT - breath_spec(s)) * cell.diagonal()
}

/// A point or vector in space, one exact fraction per axis.
#[derive(Clone, Copy, Debug, PartialEq, Eq, Structural)]
pub struct Point3 {
    pub x: Ratio,
    pub y: Ratio,
    pub z: Ratio,
}

/// The breathing factor `(2 + sin t) * 0.7` shared by every cube of a
/// frame, from the sine reading of the elapsed time. It lies in
/// `[0.7, 2.1]`.
pub fn breath(sine_t: i64) -> (r: Ratio)
    requires
        is_reading(sine_t as int),
    ensures
        r.num == breath_spec(sine_t as int),
        r.den == 10 * UNIT,
        7 * UNIT <= r.num <= 21 * UNIT,
{
    Ratio { num: 7 * (2 * UNIT as i128 + sine_t as i128), den: 10 * UNIT as u128 }
}

/// The block scale `(x + y + z) / (3n)` of a cell: its normalised position
/// along the grid's diagonal, in `[0, 1)`.
pub fn block_scale(cell: GridCell, n: u32) -> (r: Ratio)
    requires
        cell.in_grid(n as int),
    ensures
        r.num == cell.diagonal(),
        r.den == 3 * n,
        r.num < r.den,
{
    Ratio {
        num: cell.x as i128 + cell.y as i128 + cell.z as i128,
        den: 3 * n as u128,
    }
}

/// The part of a cell's scatter phase `20 * blockScale + 4t` that depends
/// on the cell: `20 * (x + y + z) / (3n)`.
pub fn scatter_phase(cell: GridCell, n: u32) -> (r: Ratio)
    requires
        cell.in_grid(n as int),
    ensures
        r.num == 20 * cell.diagonal(),
        r.den == 3 * n,
{
    let b = block_scale(cell, n);
    Ratio { num: 20 * b.num, den: b.den }
}

/// The translation of a cell in a grid of side `n`, from the sine reading
/// `sine_t` of the elapsed time and the cell's scatter reading
/// `sine_scatter`, the sine of its scatter phase. The grid is centred on
/// the origin, spread by the breathing factor (three times across, twice
/// upwards), and every axis is shifted by the same scatter.
pub fn cell_position(cell: GridCell, n: u32, sine_t: i64, sine_scatter: i64) -> (r: Point3)
    requires
        cell.in_grid(n as int),
        is_reading(sine_t as int),
        is_reading(sine_scatter as int),
    ensures
        r.x.num == axis_spec(cell.x as int, n as int, 3, sine_t as int, sine_scatter as int),
        r.y.num == axis_spec(cell.y as int, n as int, 2, sine_t as int, sine_scatter as int),
        r.z.num == axis_spec(cell.z as int, n as int, 3, sine_t as int, sine_scatter as int),
        r.x.den == 20 * UNIT,
        r.y.den == 20 * UNIT,
        r.z.den == 20 * UNIT,
{
    let b = breath(sine_t).num;
    let shift: i128 = 20 * sine_scatter as i128;
    let den: u128 = 20 * UNIT as u128;
    proof {
        lemma_axis_bounds(cell.x as int, n as int, 3, b as int);
        lemma_axis_bounds(cell.y as int, n as int, 2, b as int);
        lemma_axis_bounds(cell.z as int, n as int, 3, b as int);
    }
    let ox: i128 = 2 * cell.x as i128 - n as i128;
    let oy: i128 = 2 * cell.y as i128 - n as i128;
    let oz: i128 = 2 * cell.z as i128 - n as i128;
    Point3 {
        x: Ratio { num: 3 * ox * b + shift, den },
        y: Ratio { num: 2 * oy * b + shift, den },
        z: Ratio { num: 3 * oz * b + shift, den },
    }
}

/// Bounds that keep a cell's translation within machine integers.
proof fn lemma_axis_bounds(coord: int, n: int, k: int, b: int)
    requires
        0 <= coord < n <= u32::MAX,
        1 <= k <= 3,
        0 <= b <= 21 * UNIT,
    ensures
        -0x1_0000_0000 <= 2 * coord - n <= 0x1_0000_0000,
        -0x1_0000_0000_0000_0000 <= k * (2 * coord - n) <= 0x1_0000_0000_0000_0000,
        -0x1_0000_0000_0000_0000_0000_0000 <= k * (2 * coord - n) * b
            <= 0x1_0000_0000_0000_0000_0000_0000,
{
    let o = 2 * coord - n;
    assert(-0x1_0000_0000_0000_0000 <= k * o <= 0x1_0000_0000_0000_0000) by (nonlinear_arith)
        requires
            -0x1_0000_0000 <= o <= 0x1_0000_0000,
            1 <= k <= 3,
    ;
    assert(-0x1_0000_0000_0000_0000_0000_0000 <= k * o * b
        <= 0x1_0000_0000_0000_0000_0000_0000) by (nonlinear_arith)
        requires
            -0x1_0000_0000_0000_0000 <= k * o <= 0x1_0000_0000_0000_0000,
            0 <= b <= 21 * UNIT,
    ;
}

/// The uniform scale of a cell in a grid of side `n`, from the sine reading
/// of the elapsed time: `(2.4 - breath) * blockScale` on every axis. The
/// corner cell `(0, 0, 0)` always has scale zero.
pub fn cell_scale(cell: GridCell, n: u32, sine_t: i64) -> (r: Ratio)
    requires
        cell.in_grid(n as int),
        is_reading(sine_t as int),
    ensures
        r.num == scale_spec(cell, sine_t as int),
        r.den == 30 * n * UNIT,
        cell.diagonal() == 0 ==> r.num == 0,
        r.num >= 0,
{
    let b = breath(sine_t).num;
    let d = block_scale(cell, n);
    let k: i128 = 24 * UNIT as i128 - b;
    assert(0 <= k * d.num <= 17 * UNIT * (3 * u32::MAX) && (d.num == 0 ==> k * d.num == 0))
        by (nonlinear_arith)
        requires
            0 <= k <= 17 * UNIT,
            0 <= d.num <= 3 * u32::MAX,
    ;
    Ratio { num: k * d.num, den: 30 * n as u128 * UNIT as u128 }
}

/// Position and scale read one breathing factor: for the same sine reading
/// of the elapsed time, the breathing factor that spreads a cell along each
/// axis is the one that shrinks it. In numerators, with `d = x + y + z`,
/// `d * (position - scatter) == k * (2 * coord - n) * (2.4 * d - scale)`
/// on every axis, where `k` is the axis's spacing factor.
pub proof fn lemma_shared_breath(cell: GridCell, n: int, s: int, c: int)
    ensures
        cell.diagonal() * (axis_spec(cell.x as int, n, 3, s, c) - 20 * c) == 3 * (2 * cell.x - n) * (
        24 * UNIT * cell.diagonal() - scale_spec(cell, s)),
        cell.diagonal() * (axis_spec(cell.y as int, n, 2, s, c) - 20 * c) == 2 * (2 * cell.y - n) * (
        24 * UNIT * cell.diagonal() - scale_spec(cell, s)),
        cell.diagonal() * (axis_spec(cell.z as int, n, 3, s, c) - 20 * c) == 3 * (2 * cell.z - n) * (
        24 * UNIT * cell.diagonal() - scale_spec(cell, s)),
{
    let d = cell.diagonal();
    let b = breath_spec(s);
    assert(24 * UNIT * d - (24 * UNIT - b) * d == b * d) by (nonlinear_arith);
    let ox = 2 * cell.x - n;
    assert(d * (3 * ox * b) == 3 * ox * (b * d)) by (nonlinear_arith);
    let oy = 2 * cell.y - n;
    assert(d * (2 * oy * b) == 2 * oy * (b * d)) by (nonlinear_arith);
    let oz = 2 * cell.z - n;
    assert(d * (3 * oz * b) == 3 * oz * (b * d)) by (nonlinear_arith);
}

/// The corner cell `(0, 0, 0)` has scale zero at every moment, whatever the
/// breathing factor.
pub proof fn lemma_corner_scale_zero(s: int)
    ensures
        scale_spec(GridCell { x: 0, y: 0, z: 0 }, s) == 0,
{
    let k = 24 * UNIT - breath_spec(s);
    assert(k * 0 == 0) by (nonlinear_arith);
}

} // verus!
