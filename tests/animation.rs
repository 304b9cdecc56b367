use cube_wave::{
    block_scale, breath, cell_position, cell_scale, color_of, frame_color, grid_cells, hue_of,
    orbit, scatter_phase, tick, CellColor, ColorMode, GridCell, Ratio, UNIT,
};

fn cell(x: u32, y: u32, z: u32) -> GridCell {
    GridCell { x, y, z }
}

fn value(r: Ratio) -> f64 {
    r.num as f64 / r.den as f64
}

#[test]
fn breath_at_time_zero_is_one_point_four() {
    let b = breath(0);
    assert_eq!(b, Ratio { num: 14_000_000, den: 10_000_000 });
}

#[test]
fn breath_stays_between_bounds() {
    assert_eq!(breath(-UNIT), Ratio { num: 7_000_000, den: 10_000_000 });
    assert_eq!(breath(UNIT), Ratio { num: 21_000_000, den: 10_000_000 });
    for s in [-UNIT, -500_000, 0, 123_456, UNIT] {
        let v = value(breath(s));
        assert!(v >= 0.7 - 1e-12 && v <= 2.1 + 1e-12);
    }
}

#[test]
fn end_to_end_middle_cell_at_time_zero() {
    let c = cell(5, 5, 5);
    assert_eq!(block_scale(c, 10), Ratio { num: 15, den: 30 });
    assert_eq!(scatter_phase(c, 10), Ratio { num: 300, den: 30 });
    // sin(10) in millionths
    let scatter = -544_021;
    let p = cell_position(c, 10, 0, scatter);
    assert_eq!(p.x, Ratio { num: -10_880_420, den: 20_000_000 });
    assert_eq!(p.y, p.x);
    assert_eq!(p.z, p.x);
    assert!((value(p.x) + 0.544021).abs() < 1e-12);
    let s = cell_scale(c, 10, 0);
    assert_eq!(s, Ratio { num: 150_000_000, den: 300_000_000 });
    assert!((value(s) - 0.5).abs() < 1e-12);
}

#[test]
fn position_spreads_axes_by_three_and_two() {
    // breath 1.4 at sin t = 0; cell (0, 9, 7) in a grid of 10, no scatter
    let p = cell_position(cell(0, 9, 7), 10, 0, 0);
    assert!((value(p.x) - (0.0 - 5.0) * 1.4 * 3.0).abs() < 1e-9);
    assert!((value(p.y) - (9.0 - 5.0) * 1.4 * 2.0).abs() < 1e-9);
    assert!((value(p.z) - (7.0 - 5.0) * 1.4 * 3.0).abs() < 1e-9);
    // breath 2.1 at sin t = 1, scatter 0.25 on every axis
    let q = cell_position(cell(1, 2, 3), 10, UNIT, 250_000);
    assert!((value(q.x) - ((1.0 - 5.0) * 2.1 * 3.0 + 0.25)).abs() < 1e-9);
    assert!((value(q.y) - ((2.0 - 5.0) * 2.1 * 2.0 + 0.25)).abs() < 1e-9);
    assert!((value(q.z) - ((3.0 - 5.0) * 2.1 * 3.0 + 0.25)).abs() < 1e-9);
}

#[test]
fn scale_of_far_corner() {
    // (2.4 - 0.7) * 27 / 30 at sin t = -1
    let s = cell_scale(cell(9, 9, 9), 10, -UNIT);
    assert!((value(s) - 1.7 * 0.9).abs() < 1e-12);
}

#[test]
fn corner_cell_never_scales() {
    for s in [-UNIT, -300_000, 0, 841_471, UNIT] {
        for n in [1u32, 2, 10, 100] {
            assert_eq!(cell_scale(cell(0, 0, 0), n, s).num, 0);
        }
    }
}

#[test]
fn calls_are_repeatable() {
    let c = cell(3, 4, 8);
    assert_eq!(cell_position(c, 10, 412_118, -99_999), cell_position(c, 10, 412_118, -99_999));
    assert_eq!(cell_scale(c, 10, 412_118), cell_scale(c, 10, 412_118));
    assert_eq!(color_of(c), color_of(c));
}

#[test]
fn hue_follows_the_diagonal() {
    assert_eq!(hue_of(cell(0, 0, 0)), 0);
    assert_eq!(hue_of(cell(1, 2, 3)), 108);
    assert_eq!(hue_of(cell(9, 9, 9)), 126);
    assert_eq!(hue_of(cell(10, 5, 5)), 0);
    assert_eq!(
        color_of(cell(1, 0, 0)),
        CellColor { hue_degrees: 18, saturation_permyriad: 7700, lightness_permyriad: 5625 }
    );
}

#[test]
fn hue_repeats_every_twenty_steps() {
    for s in 0u32..40 {
        assert_eq!(hue_of(cell(s, 0, 0)), hue_of(cell(s + 7, 6, 7)));
    }
}

#[test]
fn orbit_stays_on_radius_forty() {
    let p = orbit(UNIT, 0);
    assert_eq!(p.x, Ratio { num: 40_000_000, den: 1_000_000 });
    assert_eq!(p.y, Ratio { num: 20_000_000, den: 1_000_000 });
    assert_eq!(p.z, Ratio { num: 0, den: 1_000_000 });
    let q = orbit(600_000, -800_000);
    let r2 = value(q.x) * value(q.x) + value(q.z) * value(q.z);
    assert!((r2 - 1600.0).abs() < 1e-9);
    let t: f64 = 2.5 * 0.3;
    let (c, s) = ((t.cos() * 1e6).round() as i64, (t.sin() * 1e6).round() as i64);
    let w = orbit(c, s);
    let r2 = value(w.x) * value(w.x) + value(w.z) * value(w.z);
    assert!((r2 - 1600.0).abs() < 1e-3);
}

#[test]
fn grid_lists_every_cell_once() {
    let g = grid_cells(10);
    assert_eq!(g.len(), 1000);
    assert_eq!(g[0], cell(0, 0, 0));
    assert_eq!(g[1], cell(0, 0, 1));
    assert_eq!(g[10], cell(0, 1, 0));
    assert_eq!(g[100], cell(1, 0, 0));
    assert_eq!(g[(5 * 10 + 5) * 10 + 5], cell(5, 5, 5));
    assert_eq!(g[999], cell(9, 9, 9));
    assert!(grid_cells(0).is_empty());
    assert_eq!(grid_cells(1), vec![cell(0, 0, 0)]);
}

#[test]
fn tick_moves_every_cube_and_the_camera() {
    let cells = grid_cells(2);
    let scatter: Vec<i64> = (0..8).map(|i| i * 100_000 - 400_000).collect();
    let f = tick(&cells, 2, 0, &scatter, 0, UNIT, ColorMode::Static);
    assert_eq!(f.camera, orbit(0, UNIT));
    assert_eq!(f.cubes.len(), 8);
    for i in 0..8 {
        assert_eq!(f.cubes[i].translation, cell_position(cells[i], 2, 0, scatter[i]));
        assert_eq!(f.cubes[i].scale, cell_scale(cells[i], 2, 0));
    }
    assert!(f.colors.is_none());
    assert_eq!(f.cubes[0].scale.num, 0);
}

#[test]
fn per_frame_colours_match_the_initial_ones() {
    let cells = grid_cells(3);
    let scatter = vec![0i64; cells.len()];
    let f = tick(&cells, 3, 0, &scatter, UNIT, 0, ColorMode::PerFrame);
    let colors = f.colors.unwrap();
    assert_eq!(colors.len(), 27);
    for i in 0..27 {
        assert_eq!(colors[i], color_of(cells[i]));
    }
    assert_eq!(frame_color(ColorMode::Static, cells[5]), None);
    assert_eq!(frame_color(ColorMode::PerFrame, cells[5]), Some(color_of(cells[5])));
}

#[test]
fn largest_coordinates_do_not_overflow() {
    let n = u32::MAX;
    let c = cell(n - 1, n - 1, n - 1);
    let s = cell_scale(c, n, -UNIT);
    assert_eq!(s.num, 17_000_000i128 * 3 * (n as i128 - 1));
    let p = cell_position(cell(0, 0, 0), n, UNIT, -UNIT);
    assert_eq!(p.x.num, -3 * (n as i128) * 21_000_000 - 20_000_000);
}
