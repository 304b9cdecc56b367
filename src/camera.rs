use vstd::prelude::*;
use crate::fixed::{is_reading, Ratio, UNIT};
use crate::motion::Point3;

verus! {

/// Radius of the camera's orbit around the origin.
pub const ORBIT_RADIUS: i64 = 40;

/// Height of the camera above the grid's centre.
pub const ORBIT_HEIGHT: i64 = 20;

/// Where the camera stands for the cosine and sine readings of its orbit
/// angle (`0.3` radians per second of elapsed time). It always looks at the
/// origin with `+y` up, so only its position changes.
pub fn orbit(cos_angle: i64, sin_angle: i64) -> (r: Point3)
    requires
        is_reading(cos_angle as int),
        is_reading(sin_angle as int),
    ensures
        r.x.num == ORBIT_RADIUS * cos_angle,
        r.y.num == ORBIT_HEIGHT * UNIT,
        r.z.num == ORBIT_RADIUS * sin_angle,
        r.x.den == UNIT,
        r.y.den == UNIT,
        r.z.den == UNIT,
{
    let den: u128 = UNIT as u128;
    Point3 {
        x: Ratio { num: ORBIT_RADIUS as i128 * cos_angle as i128, den },
        y: Ratio { num: ORBIT_HEIGHT as i128 * UNIT as i128, den },
        z: Ratio { num: ORBIT_RADIUS as i128 * sin_angle as i128, den },
    }
}

/// The camera's horizontal distance from the origin is the orbit radius
/// times the length of the reading pair: `x^2 + z^2 = 40^2 (cos^2 + sin^2)`.
/// So for readings that lie within `err` of the unit circle
/// (`|cos^2 + sin^2 - UNIT^2| <= err`), the camera lies within `1600 * err`
/// of the circle of radius 40 in the horizontal plane, and on it exactly
/// when the readings lie on the unit circle.
pub proof fn lemma_orbit_on_circle(cos_angle: int, sin_angle: int, err: int)
    requires
        is_reading(cos_angle),
        is_reading(sin_angle),
        -err <= cos_angle * cos_angle + sin_angle * sin_angle - UNIT * UNIT <= err,
    ensures
        ({
            let x = ORBIT_RADIUS * cos_angle;
            let z = ORBIT_RADIUS * sin_angle;
            &&& x * x + z * z == 1600 * (cos_angle * cos_angle + sin_angle * sin_angle)
            &&& -1600 * err <= x * x + z * z - 1600 * UNIT * UNIT <= 1600 * err
        }),
{
    let c = cos_angle;
    let s = sin_angle;
    assert((40 * c) * (40 * c) + (40 * s) * (40 * s) == 1600 * (c * c + s * s))
        by (nonlinear_arith);
}

} // verus!
