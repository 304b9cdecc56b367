use vstd::prelude::*;

verus! {

/// One cube of the grid, identified by its integer coordinate.
#[derive(Clone, Copy, Debug, PartialEq, Eq, Structural)]
pub struct GridCell {
    pub x: u32,
    pub y: u32,
    pub z: u32,
}

impl GridCell {
    /// The cell lies in a grid of side `n`: every coordinate is in `[0, n)`.
    pub open spec fn in_grid(&self, n: int) -> bool {
        self.x < n && self.y < n && self.z < n
    }

    /// Position of the cell along the grid's main diagonal.
    pub open spec fn diagonal(&self) -> int {
        self.x + self.y + self.z
    }
}

/// Hue in whole degrees of a cell whose coordinates sum to `s`: 18 degrees
/// per step along the diagonal, wrapping at a full turn.
pub open spec fn hue_spec(s: int) -> int {
    (s * 18) % 360
}

/// Saturation of every cube, in ten-thousandths.
pub const SATURATION_PERMYRIAD: u32 = 7700;

/// Lightness of every cube, in ten-thousandths.
pub const LIGHTNESS_PERMYRIAD: u32 = 5625;

/// Hue, saturation and lightness of a cube.
#[derive(Clone, Copy, Debug, PartialEq, Eq, Structural)]
pub struct CellColor {
    /// Hue in degrees, in `[0, 360)`.
    pub hue_degrees: u32,
    /// Saturation in ten-thousandths.
    pub saturation_permyriad: u32,
    /// Lightness in ten-thousandths.
    pub lightness_permyriad: u32,
}

/// The hue of a cell: `((x + y + z) * 18) mod 360` degrees.
pub fn hue_of(cell: GridCell) -> (r: u32)
    ensures
        r == hue_spec(cell.diagonal()),
        r < 360,
{
    let s: u64 = cell.x as u64 + cell.y as u64 + cell.z as u64;
    ((s * 18) % 360) as u32
}

/// The colour `color_of` assigns to a cell.
pub open spec fn color_of_spec(cell: GridCell) -> CellColor {
    CellColor {
        hue_degrees: hue_spec(cell.diagonal()) as u32,
        saturation_permyriad: SATURATION_PERMYRIAD,
        lightness_permyriad: LIGHTNESS_PERMYRIAD,
    }
}

/// The colour a cell is given when the grid is built.
pub fn color_of(cell: GridCell) -> (r: CellColor)
    ensures
        r == color_of_spec(cell),
        r.hue_degrees == hue_spec(cell.diagonal()),
{
    CellColor {
        hue_degrees: hue_of(cell),
        saturation_permyriad: SATURATION_PERMYRIAD,
        lightness_permyriad: LIGHTNESS_PERMYRIAD,
    }
}

/// Hues repeat every 20 steps along the diagonal: two cells whose
/// coordinate sums differ by 20 have the same hue.
pub proof fn lemma_hue_period(a: GridCell, b: GridCell)
    requires
        b.diagonal() == a.diagonal() + 20,
    ensures
        hue_spec(a.diagonal()) == hue_spec(b.diagonal()),
{
    let s = a.diagonal();
    assert((s + 20) * 18 == s * 18 + 360);
    vstd::arithmetic::div_mod::lemma_mod_add_multiples_vanish(s * 18, 360);
}

/// Index of cell `(x, y, z)` in the enumeration of a grid of side `n`:
/// `x` varies slowest and `z` fastest.
pub open spec fn grid_index(n: int, x: int, y: int, z: int) -> int {
    (x * n + y) * n + z
}

/// The cells of a grid with `n` cubes per side come before the row that
/// follows them, and each row fits in its layer.
proof fn lemma_index_in_row(n: int, x: int, y: int, z: int)
    requires
        0 <= x,
        0 <= y < n,
        0 <= z < n,
    ensures
        grid_index(n, x, y, z) < (x * n + y + 1) * n,
        (x * n + y + 1) * n <= (x + 1) * n * n,
        0 <= grid_index(n, x, y, z),
{
    assert((x * n + y) * n + z < (x * n + y + 1) * n) by (nonlinear_arith)
        requires
            z < n,
    ;
    assert((x * n + y + 1) * n <= (x + 1) * n * n) by (nonlinear_arith)
        requires
            y < n,
            0 <= n,
    ;
    assert(0 <= (x * n + y) * n + z) by (nonlinear_arith)
        requires
            0 <= x,
            0 <= y,
            0 <= z,
            0 <= n,
    ;
}

/// All `n * n * n` cells of a grid of side `n`, each once: cell `(x, y, z)`
/// stands at `grid_index(n, x, y, z)`.
pub fn grid_cells(n: u32) -> (r: Vec<GridCell>)
    requires
        n * n * n <= usize::MAX,
    ensures
        r@.len() == n * n * n,
        forall|x: int, y: int, z: int|
            0 <= x < n && 0 <= y < n && 0 <= z < n ==> #[trigger] r@[grid_index(
                n as int,
                x,
                y,
                z,
            )] == (GridCell { x: x as u32, y: y as u32, z: z as u32 }),
{
    let ghost g = n as int;
    let mut cells: Vec<GridCell> = Vec::new();
    let mut x: u32 = 0;
    while x < n
        invariant
            x <= n,
            g == n,
            n * n * n <= usize::MAX,
            cells@.len() == x * g * g,
            forall|a: int, b: int, c: int|
                0 <= a < x && 0 <= b < g && 0 <= c < g ==> #[trigger] cells@[grid_index(
                    g,
                    a,
                    b,
                    c,
                )] == (GridCell { x: a as u32, y: b as u32, z: c as u32 }),
        decreases n - x,
    {
        let mut y: u32 = 0;
        assert(cells@.len() == (x * g + 0) * g) by (nonlinear_arith)
            requires
                cells@.len() == x * g * g,
        ;
        while y < n
            invariant
                x < n,
                y <= n,
                g == n,
                n * n * n <= usize::MAX,
                cells@.len() == (x * g + y) * g,
                forall|a: int, b: int, c: int|
                    ((0 <= a < x && 0 <= b < g) || (a == x && 0 <= b < y)) && 0 <= c < g
                        ==> #[trigger] cells@[grid_index(g, a, b, c)] == (GridCell {
                        x: a as u32,
                        y: b as u32,
                        z: c as u32,
                    }),
            decreases n - y,
        {
            let mut z: u32 = 0;
            while z < n
                invariant
                    x < n,
                    y < n,
                    z <= n,
                    g == n,
                    n * n * n <= usize::MAX,
                    cells@.len() == (x * g + y) * g + z,
                    forall|a: int, b: int, c: int|
                        (((0 <= a < x && 0 <= b < g) || (a == x && 0 <= b < y)) && 0 <= c < g)
                            || (a == x && b == y && 0 <= c < z) ==> #[trigger] cells@[grid_index(
                            g,
                            a,
                            b,
                            c,
                        )] == (GridCell { x: a as u32, y: b as u32, z: c as u32 }),
                decreases n - z,
            {
                proof {
                    lemma_index_in_row(g, x as int, y as int, z as int);
                    lemma_index_in_row(g, x as int, (g - 1), (g - 1));
                    assert((x + 1) * g * g <= g * g * g) by (nonlinear_arith)
                        requires
                            x < g,
                            0 <= g,
                    ;
                }
                let ghost before = cells@;
                cells.push(GridCell { x, y, z });
                proof {
                    assert forall|a: int, b: int, c: int|
                        (((0 <= a < x && 0 <= b < g) || (a == x && 0 <= b < y)) && 0 <= c < g)
                            || (a == x && b == y && 0 <= c < z + 1) implies #[trigger] cells@[
                        grid_index(g, a, b, c)] == (GridCell { x: a as u32, y: b as u32, z: c as u32 }) by {
                        if a == x && b == y && c == z {
                        } else {
                            lemma_index_order(g, a, b, c, x as int, y as int, z as int);
                        }
                    }
                }
                z = z + 1;
            }
            proof {
                assert((x * g + y) * g + g == (x * g + y + 1) * g) by (nonlinear_arith);
            }
            y = y + 1;
        }
        proof {
            assert((x * g + g) * g == (x + 1) * g * g) by (nonlinear_arith);
        }
        x = x + 1;
    }
    cells
}

/// A cell enumerated before `(x, y, z)` has a smaller index.
proof fn lemma_index_order(n: int, a: int, b: int, c: int, x: int, y: int, z: int)
    requires
        0 <= a,
        0 <= b < n,
        0 <= c < n,
        0 <= x,
        0 <= y < n,
        0 <= z < n,
        (a < x) || (a == x && b < y) || (a == x && b == y && c < z),
    ensures
        grid_index(n, a, b, c) < grid_index(n, x, y, z),
{
    lemma_index_in_row(n, a, b, c);
    if a < x {
        assert((a + 1) * n * n <= x * n * n) by (nonlinear_arith)
            requires
                a < x,
                0 <= n,
        ;
        assert(x * n * n <= grid_index(n, x, y, z)) by (nonlinear_arith)
            requires
                0 <= y,
                0 <= z,
                0 <= n,
        ;
    } else if b < y {
        assert((a * n + b + 1) * n <= (x * n + y) * n) by (nonlinear_arith)
            requires
                a == x,
                b < y,
                0 <= n,
        ;
    }
}

} // verus!
