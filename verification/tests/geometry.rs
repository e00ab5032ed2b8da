use piechart::chart::chart_radius;
use piechart::fixed::floor_div;
use piechart::fixed::tap_count;
use piechart::fixed::turns;
use piechart::fixed::FULL_CIRCLE_TAPS;
use piechart::fixed::UNIT;
use piechart::mesh::arc_point;
use piechart::mesh::slice_outline;
use piechart::mesh::Mesh;
use piechart::mesh::PolarPoint;
use piechart::mesh::Vertex;
use piechart::render::MAX_TAPS;
use piechart::style::SliceStyle;
use piechart::Color;
use piechart::Piechart;
use piechart::RenderError;
use piechart::Slice;
use piechart::Stroke;

fn red() -> Color {
    Color { r: 200, g: 0, b: 0, a: 255 }
}

fn thin_white() -> Stroke {
    Stroke::new(UNIT, Color::white())
}

fn solid() -> SliceStyle {
    SliceStyle { fill: red(), stroke: thin_white() }
}

#[test]
fn floor_div_rounds_down() {
    assert_eq!(floor_div(7, 2), 3);
    assert_eq!(floor_div(-7, 2), -4);
    assert_eq!(floor_div(-8, 2), -4);
    assert_eq!(floor_div(-1, 3), -1);
    assert_eq!(floor_div(0, 5), 0);
    assert_eq!(floor_div(9, 1), 9);
}

#[test]
fn turns_without_factor_is_identity() {
    assert_eq!(turns(250_000, None), 250_000);
    assert_eq!(turns(-3, None), -3);
}

#[test]
fn turns_divides_by_factor() {
    assert_eq!(turns(250_000, Some(UNIT)), 250_000);
    assert_eq!(turns(1_000_000, Some(4_000_000)), 250_000);
    assert_eq!(turns(90_000_000, Some(360_000_000)), 250_000);
    assert_eq!(turns(-1, Some(3_000_000)), -1);
    assert_eq!(turns(1, Some(3_000_000)), 0);
}

#[test]
fn turns_with_negative_factor_reverses() {
    assert_eq!(turns(1_000_000, Some(-2_000_000)), -500_000);
    assert_eq!(turns(-1_000_000, Some(-2_000_000)), 500_000);
    assert_eq!(turns(1, Some(-3_000_000)), -1);
}

#[test]
fn full_circle_has_all_taps() {
    assert_eq!(FULL_CIRCLE_TAPS, 256);
    assert_eq!(tap_count(1_000_000), 256);
}

#[test]
fn half_circle_has_half_the_taps() {
    assert_eq!(tap_count(500_000), 128);
}

#[test]
fn tap_count_is_at_least_two() {
    assert_eq!(tap_count(0), 2);
    assert_eq!(tap_count(-750_000), 2);
    assert_eq!(tap_count(1), 2);
    assert_eq!(tap_count(5_859), 2);
}

#[test]
fn tap_count_rounds_to_nearest() {
    assert_eq!(tap_count(9_765), 2);
    assert_eq!(tap_count(9_766), 3);
    assert_eq!(tap_count(250_000), 64);
    assert_eq!(tap_count(2_000_000), 512);
    assert_eq!(tap_count(i128::MAX), (i128::MAX / 1_000_000) * 256 + 27);
}

#[test]
fn quarter_turn_under_factor_one() {
    let chart = Piechart::new(vec![Slice::new(0, 250_000)]).normalization_factor(UNIT);
    assert_eq!(chart.angle_start(0), 0);
    assert_eq!(chart.angle_end(0) - chart.angle_start(0), 250_000);
}

#[test]
fn angles_follow_the_factor() {
    let chart = Piechart::new(vec![Slice::new(90_000_000, 45_000_000)]).normalization_factor(360_000_000);
    assert_eq!(chart.angle_start(0), 250_000);
    assert_eq!(chart.angle_end(0), 375_000);
    assert_eq!(chart.taps_of(0), 32);
}

#[test]
fn angle_end_does_not_overflow() {
    let chart = Piechart::new(vec![Slice::new(i64::MAX, i64::MAX)]);
    assert_eq!(chart.angle_end(0), 2 * (i64::MAX as i128));
}

#[test]
fn radius_is_half_the_smaller_padded_side() {
    assert_eq!(chart_radius(200_000_000, 100_000_000, 8_000_000, 3_000_000), 47_000_000);
    assert_eq!(chart_radius(100_000_000, 200_000_000, 8_000_000, 3_000_000), 42_000_000);
    assert_eq!(chart_radius(5, 9, 0, 0), 2);
    assert_eq!(chart_radius(-5, 9, 0, 0), -3);
    assert_eq!(chart_radius(1_000_000, 1_000_000, 2_000_000, 2_000_000), -1_500_000);
    assert_eq!(chart_radius(i64::MAX, i64::MAX, i64::MIN, i64::MIN), (i64::MAX as i128 - 2 * (i64::MIN as i128)) / 2);
}

#[test]
fn arc_point_spreads_samples_evenly() {
    assert_eq!(arc_point(100, 250_000, 0, 64, 7), PolarPoint { angle: 100, radius: 7 });
    assert_eq!(arc_point(100, 250_000, 1, 64, 7), PolarPoint { angle: 100 + 3_968, radius: 7 });
    assert_eq!(arc_point(100, 250_000, 63, 64, 7), PolarPoint { angle: 250_100, radius: 7 });
    assert_eq!(arc_point(0, -10, 1, 2, 7), PolarPoint { angle: -10, radius: 7 });
}

#[test]
fn outline_walks_inner_arc_back_then_outer_arc_forward() {
    let points = slice_outline(0, 300, 4, 10, 20);
    let expected = vec![
        PolarPoint { angle: 300, radius: 10 },
        PolarPoint { angle: 200, radius: 10 },
        PolarPoint { angle: 100, radius: 10 },
        PolarPoint { angle: 0, radius: 10 },
        PolarPoint { angle: 0, radius: 20 },
        PolarPoint { angle: 100, radius: 20 },
        PolarPoint { angle: 200, radius: 20 },
        PolarPoint { angle: 300, radius: 20 },
    ];
    assert_eq!(points, expected);
}

#[test]
fn push_slice_appends_quads() {
    let mut mesh = Mesh::new();
    mesh.push_slice(0, 200, 3, 10, 20, red());
    let at = |angle: i128, radius: i128| Vertex { at: PolarPoint { angle, radius }, color: red() };
    assert_eq!(
        mesh.vertices,
        vec![at(0, 10), at(0, 20), at(100, 10), at(100, 20), at(200, 10), at(200, 20)]
    );
    assert_eq!(mesh.indices, vec![0, 1, 2, 1, 2, 3, 2, 3, 4, 3, 4, 5]);
    mesh.push_slice(500, 0, 2, 10, 20, red());
    assert_eq!(mesh.vertices.len(), 10);
    assert_eq!(&mesh.indices[12..], &[6, 7, 8, 7, 8, 9]);
    assert_eq!(mesh.vertices[9], at(500, 20));
}

#[test]
fn inner_radius_is_kept_off_the_centre() {
    let chart = Piechart::new(vec![Slice::new(0, 0), Slice::new(0, 0).base_offset(500_000).top_offset(750_000)]);
    assert_eq!(chart.inner_radius(0, 100_000_000), 1_500_000);
    assert_eq!(chart.outer_radius(0, 100_000_000), 100_000_000);
    assert_eq!(chart.inner_radius(1, 100_000_000), 50_000_000);
    assert_eq!(chart.outer_radius(1, 100_000_000), 75_000_000);
    assert_eq!(chart.inner_radius(1, 2_000_000), 1_500_000);
}

#[test]
fn tessellate_one_degenerate_slice() {
    let chart = Piechart::new(vec![Slice::new(125_000, 0)]);
    let frame = chart.tessellate(100_000_000, &vec![solid()]).unwrap();
    let at = |radius: i128| Vertex { at: PolarPoint { angle: 125_000, radius }, color: red() };
    assert_eq!(frame.mesh.vertices, vec![at(1_500_000), at(100_000_000), at(1_500_000), at(100_000_000)]);
    assert_eq!(frame.mesh.indices, vec![0, 1, 2, 1, 2, 3]);
    assert_eq!(frame.outlines.len(), 1);
    assert_eq!(frame.outlines[0].stroke, thin_white());
    assert_eq!(
        frame.outlines[0].points,
        vec![
            PolarPoint { angle: 125_000, radius: 1_500_000 },
            PolarPoint { angle: 125_000, radius: 1_500_000 },
            PolarPoint { angle: 125_000, radius: 100_000_000 },
            PolarPoint { angle: 125_000, radius: 100_000_000 },
        ]
    );
}

#[test]
fn tessellate_counts_indices_from_each_slice_base() {
    let chart = Piechart::new(vec![Slice::new(0, 250_000), Slice::new(250_000, 500_000)]);
    let frame = chart.tessellate(100_000_000, &vec![solid(), solid()]).unwrap();
    assert_eq!(frame.mesh.vertices.len(), 2 * 64 + 2 * 128);
    assert_eq!(frame.mesh.indices.len(), 6 * 63 + 6 * 127);
    assert_eq!(&frame.mesh.indices[..6], &[0, 1, 2, 1, 2, 3]);
    assert_eq!(&frame.mesh.indices[6 * 62..6 * 63], &[124, 125, 126, 125, 126, 127]);
    assert_eq!(&frame.mesh.indices[6 * 63..6 * 64], &[128, 129, 130, 129, 130, 131]);
    assert_eq!(*frame.mesh.indices.iter().max().unwrap(), 383);
    assert_eq!(frame.mesh.vertices[127].at, PolarPoint { angle: 250_000, radius: 100_000_000 });
    assert_eq!(frame.mesh.vertices[128].at, PolarPoint { angle: 250_000, radius: 1_500_000 });
    assert_eq!(frame.mesh.vertices[383].at, PolarPoint { angle: 750_000, radius: 100_000_000 });
    assert_eq!(frame.outlines.len(), 2);
    assert_eq!(frame.outlines[1].points.len(), 256);
    assert_eq!(frame.outlines[1].points[0], PolarPoint { angle: 750_000, radius: 1_500_000 });
    assert_eq!(frame.outlines[1].points[255], PolarPoint { angle: 750_000, radius: 100_000_000 });
}

#[test]
fn small_radius_draws_nothing() {
    let chart = Piechart::new(vec![Slice::new(0, 500_000).base_offset(9).top_offset(1)]);
    let frame = chart.tessellate(999_999, &vec![]).unwrap();
    assert!(frame.mesh.vertices.is_empty());
    assert!(frame.mesh.indices.is_empty());
    assert!(frame.outlines.is_empty());
    let zero = chart.tessellate(0, &vec![solid()]).unwrap();
    assert!(zero.mesh.vertices.is_empty());
    assert!(zero.outlines.is_empty());
    let negative = chart.tessellate(-5_000_000, &vec![solid()]).unwrap();
    assert!(negative.mesh.vertices.is_empty());
}

#[test]
fn radius_of_one_unit_is_drawn() {
    let chart = Piechart::new(vec![Slice::new(0, 0)]);
    let frame = chart.tessellate(UNIT, &vec![solid()]).unwrap();
    assert_eq!(frame.mesh.vertices.len(), 4);
    assert_eq!(frame.mesh.vertices[1].at.radius, 1_000_000);
}

#[test]
fn transparent_fill_leaves_only_the_outline() {
    let chart = Piechart::new(vec![Slice::new(0, 250_000), Slice::new(250_000, 250_000)]);
    let hollow = SliceStyle { fill: Color::transparent(), stroke: thin_white() };
    let frame = chart.tessellate(50_000_000, &vec![hollow, hollow]).unwrap();
    assert_eq!(frame.mesh.vertices.len(), 0);
    assert_eq!(frame.mesh.indices.len(), 0);
    assert_eq!(frame.outlines.len(), 2);
    let mixed = chart.tessellate(50_000_000, &vec![hollow, solid()]).unwrap();
    assert_eq!(mixed.mesh.vertices.len(), 128);
    assert_eq!(&mixed.mesh.indices[..6], &[0, 1, 2, 1, 2, 3]);
    assert_eq!(mixed.outlines.len(), 2);
}

#[test]
fn empty_stroke_leaves_only_the_mesh() {
    let chart = Piechart::new(vec![Slice::new(0, 250_000)]);
    let no_width = SliceStyle { fill: red(), stroke: Stroke::new(0, Color::white()) };
    let no_color = SliceStyle { fill: red(), stroke: Stroke::new(UNIT, Color::transparent()) };
    let a = chart.tessellate(50_000_000, &vec![no_width]).unwrap();
    assert_eq!(a.mesh.vertices.len(), 128);
    assert_eq!(a.outlines.len(), 0);
    let b = chart.tessellate(50_000_000, &vec![no_color]).unwrap();
    assert_eq!(b.outlines.len(), 0);
}

#[test]
fn style_count_must_match() {
    let chart = Piechart::new(vec![Slice::new(0, 250_000)]);
    assert_eq!(chart.tessellate(50_000_000, &vec![]).unwrap_err(), RenderError::StyleCount);
    assert_eq!(chart.tessellate(50_000_000, &vec![solid(), solid()]).unwrap_err(), RenderError::StyleCount);
}

#[test]
fn too_many_taps_are_refused() {
    assert_eq!(MAX_TAPS, 2_147_483_647);
    let chart = Piechart::new(vec![Slice::new(0, 250_000), Slice::new(0, i64::MAX)]);
    assert_eq!(chart.tessellate(50_000_000, &vec![solid(), solid()]).unwrap_err(), RenderError::TooManyTaps);
}

#[test]
fn same_inputs_same_frame() {
    let chart = Piechart::new(vec![Slice::new(0, 300_000), Slice::new(300_000, 700_000).base_offset(200_000)])
        .normalization_factor(UNIT);
    let styles = vec![solid(), SliceStyle { fill: Color::white(), stroke: thin_white() }];
    let a = chart.tessellate(80_000_000, &styles).unwrap();
    let b = chart.tessellate(80_000_000, &styles).unwrap();
    assert_eq!(a.mesh.vertices, b.mesh.vertices);
    assert_eq!(a.mesh.indices, b.mesh.indices);
    assert_eq!(a.outlines.len(), b.outlines.len());
    for k in 0..a.outlines.len() {
        assert_eq!(a.outlines[k].points, b.outlines[k].points);
        assert_eq!(a.outlines[k].stroke, b.outlines[k].stroke);
    }
}

#[test]
fn reversed_span_has_two_taps() {
    let chart = Piechart::new(vec![Slice::new(500_000, -250_000)]);
    assert_eq!(chart.taps_of(0), 2);
    let frame = chart.tessellate(10_000_000, &vec![solid()]).unwrap();
    assert_eq!(frame.mesh.vertices.len(), 4);
    assert_eq!(frame.mesh.vertices[0].at.angle, 500_000);
    assert_eq!(frame.mesh.vertices[2].at.angle, 250_000);
}
