use vstd::prelude::*;
use crate::camera::orbit;
use crate::fixed::{is_reading, Ratio, UNIT};
use crate::grid::{color_of, color_of_spec, CellColor, GridCell};
use crate::motion::{axis_spec, cell_position, cell_scale, scale_spec, Point3};

verus! {

/// Whether cube colours stay as assigned when the grid was built, or are
/// assigned again on every frame.
#[derive(Clone, Copy, Debug, PartialEq, Eq, Structural)]
pub enum ColorMode {
    Static,
    PerFrame,
}

/// The transform of one cube: its translation and its uniform scale.
#[derive(Clone, Copy, Debug, PartialEq, Eq, Structural)]
pub struct CellTransform {
    pub translation: Point3,
    pub scale: Ratio,
}

/// Everything a frame changes: the camera's position, each cube's
/// transform, and, when colours are assigned per frame, each cube's colour.
#[derive(Debug)]
pub struct Frame {
    pub camera: Point3,
    pub cubes: Vec<CellTransform>,
    pub colors: Option<Vec<CellColor>>,
}

/// The translation and scale `cell_position` and `cell_scale` give a cell.
pub open spec fn transform_matches(t: CellTransform, cell: GridCell, n: int, s: int, c: int) -> bool {
    &&& t.translation.x.num == axis_spec(cell.x as int, n, 3, s, c)
    &&& t.translation.y.num == axis_spec(cell.y as int, n, 2, s, c)
    &&& t.translation.z.num == axis_spec(cell.z as int, n, 3, s, c)
    &&& t.translation.x.den == 20 * UNIT
    &&& t.translation.y.den == 20 * UNIT
    &&& t.translation.z.den == 20 * UNIT
    &&& t.scale.num == scale_spec(cell, s)
    &&& t.scale.den == 30 * n * UNIT
}

/// The colour a cell gets on a frame under `mode`: none under
/// `ColorMode::Static`, and under `ColorMode::PerFrame` the colour it was
/// given when the grid was built.
pub fn frame_color(mode: ColorMode, cell: GridCell) -> (r: Option<CellColor>)
    ensures
        mode == ColorMode::Static ==> r.is_none(),
        mode == ColorMode::PerFrame ==> r == Some(color_of_spec(cell)),
{
    match mode {
        ColorMode::Static => None,
        ColorMode::PerFrame => Some(color_of(cell)),
    }
}

/// One frame of the animation for the cells of a grid of side `n`.
/// `sine_t` is the sine reading of the elapsed time, read once for the whole
/// frame so that every cube breathes alike; `scatter[i]` is the sine reading
/// of the scatter phase of `cells[i]`; `cos_angle` and `sin_angle` are the
/// readings of the camera's orbit angle.
pub fn tick(
    cells: &Vec<GridCell>,
    n: u32,
    sine_t: i64,
    scatter: &Vec<i64>,
    cos_angle: i64,
    sin_angle: i64,
    mode: ColorMode,
) -> (r: Frame)
    requires
        scatter@.len() == cells@.len(),
        forall|i: int| 0 <= i < cells@.len() ==> (#[trigger] cells@[i]).in_grid(n as int),
        forall|i: int| 0 <= i < scatter@.len() ==> is_reading(#[trigger] scatter@[i] as int),
        is_reading(sine_t as int),
        is_reading(cos_angle as int),
        is_reading(sin_angle as int),
    ensures
        r.camera == orbit_spec(cos_angle as int, sin_angle as int),
        r.cubes@.len() == cells@.len(),
        forall|i: int|
            0 <= i < cells@.len() ==> transform_matches(
                #[trigger] r.cubes@[i],
                cells@[i],
                n as int,
                sine_t as int,
                scatter@[i] as int,
            ),
        mode == ColorMode::Static ==> r.colors.is_none(),
        mode == ColorMode::PerFrame ==> r.colors.is_some() && r.colors.unwrap()@ == cells@.map_values(
            |c: GridCell| color_of_spec(c),
        ),
{
    let camera = orbit(cos_angle, sin_angle);
    let mut cubes: Vec<CellTransform> = Vec::new();
    let mut i: usize = 0;
    while i < cells.len()
        invariant
            i <= cells@.len(),
            scatter@.len() == cells@.len(),
            forall|j: int| 0 <= j < cells@.len() ==> (#[trigger] cells@[j]).in_grid(n as int),
            forall|j: int| 0 <= j < scatter@.len() ==> is_reading(#[trigger] scatter@[j] as int),
            is_reading(sine_t as int),
            cubes@.len() == i,
            forall|j: int|
                0 <= j < i ==> transform_matches(
                    #[trigger] cubes@[j],
                    cells@[j],
                    n as int,
                    sine_t as int,
                    scatter@[j] as int,
                ),
        decreases cells@.len() - i,
    {
        let cell = cells[i];
        let t = CellTransform {
            translation: cell_position(cell, n, sine_t, scatter[i]),
            scale: cell_scale(cell, n, sine_t),
        };
        cubes.push(t);
        i = i + 1;
    }
    let colors = match mode {
        ColorMode::Static => None,
        ColorMode::PerFrame => {
            let mut v: Vec<CellColor> = Vec::new();
            let mut k: usize = 0;
            while k < cells.len()
                invariant
                    k <= cells@.len(),
                    v@ == cells@.take(k as int).map_values(|c: GridCell| color_of_spec(c)),
                decreases cells@.len() - k,
            {
                let c = frame_color(ColorMode::PerFrame, cells[k]);
                v.push(c.unwrap());
                proof {
                    assert(cells@.take(k + 1) == cells@.take(k as int).push(cells@[k as int]));
                }
                k = k + 1;
            }
            proof {
                assert(cells@.take(cells@.len() as int) == cells@);
            }
            Some(v)
        },
    };
    Frame { camera, cubes, colors }
}

/// Where `orbit` places the camera.
pub open spec fn orbit_spec(cos_angle: int, sin_angle: int) -> Point3 {
    Point3 {
        x: Ratio { num: (crate::camera::ORBIT_RADIUS * cos_angle) as i128, den: UNIT as u128 },
        y: Ratio { num: (crate::camera::ORBIT_HEIGHT * UNIT) as i128, den: UNIT as u128 },
        z: Ratio { num: (crate::camera::ORBIT_RADIUS * sin_angle) as i128, den: UNIT as u128 },
    }
}

} // verus!
