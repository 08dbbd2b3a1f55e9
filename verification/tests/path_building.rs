use render_math::path::{build_path, convert_point, DrawCommand, PathSegment};
use render_math::rational::Rational;
use render_math::units::Twips;

fn value(r: Rational) -> f64 {
    r.num as f64 / r.den as f64
}

#[test]
fn convert_point_divides_by_twenty_exactly() {
    let p = convert_point(Twips::new(1), Twips::new(-30));
    assert_eq!(p.x.num, 1);
    assert_eq!(p.x.den, 20);
    assert_eq!(p.y.num, -30);
    assert_eq!(p.y.den, 20);
    assert_eq!(value(p.x) as f32, 1.0f32 / 20.0f32);
    assert_eq!(value(p.y) as f32, -30.0f32 / 20.0f32);
}

#[test]
fn convert_point_extremes_stay_exact() {
    let p = convert_point(Twips::new(i32::MAX), Twips::new(i32::MIN));
    assert_eq!(p.x.num, i32::MAX as i128);
    assert_eq!(p.x.den, 20);
    assert_eq!(p.y.num, i32::MIN as i128);
    assert_eq!(p.y.den, 20);
}

#[test]
fn empty_commands_give_empty_path_open() {
    let p = build_path(&Vec::new(), false);
    assert_eq!(p.segments.len(), 0);
}

#[test]
fn empty_commands_give_empty_path_closed() {
    let p = build_path(&Vec::new(), true);
    assert_eq!(p.segments.len(), 0);
}

#[test]
fn closed_triangle_has_three_segments_and_a_closing_edge() {
    let commands = vec![
        DrawCommand::MoveTo { x: Twips::new(0), y: Twips::new(0) },
        DrawCommand::LineTo { x: Twips::new(20), y: Twips::new(0) },
        DrawCommand::LineTo { x: Twips::new(20), y: Twips::new(20) },
    ];
    let p = build_path(&commands, true);
    assert_eq!(p.segments.len(), 4);
    match p.segments[0] {
        PathSegment::MoveTo { to } => {
            assert_eq!(value(to.x), 0.0);
            assert_eq!(value(to.y), 0.0);
        }
        _ => panic!("expected a move"),
    }
    match p.segments[1] {
        PathSegment::LineTo { to } => {
            assert_eq!(value(to.x), 1.0);
            assert_eq!(value(to.y), 0.0);
        }
        _ => panic!("expected a line"),
    }
    match p.segments[2] {
        PathSegment::LineTo { to } => {
            assert_eq!(value(to.x), 1.0);
            assert_eq!(value(to.y), 1.0);
        }
        _ => panic!("expected a line"),
    }
    assert_eq!(p.segments[3], PathSegment::Close);
}

#[test]
fn open_path_gets_no_closing_edge() {
    let commands = vec![
        DrawCommand::MoveTo { x: Twips::new(0), y: Twips::new(0) },
        DrawCommand::LineTo { x: Twips::new(40), y: Twips::new(0) },
    ];
    let p = build_path(&commands, false);
    assert_eq!(p.segments.len(), 2);
    assert!(!p.segments.contains(&PathSegment::Close));
}

#[test]
fn curve_command_becomes_quadratic_segment() {
    let commands = vec![
        DrawCommand::MoveTo { x: Twips::new(0), y: Twips::new(0) },
        DrawCommand::CurveTo {
            x1: Twips::new(10),
            y1: Twips::new(10),
            x2: Twips::new(20),
            y2: Twips::new(0),
        },
    ];
    let p = build_path(&commands, false);
    assert_eq!(p.segments.len(), 2);
    match p.segments[1] {
        PathSegment::QuadraticTo { ctrl, to } => {
            assert_eq!(value(ctrl.x), 0.5);
            assert_eq!(value(ctrl.y), 0.5);
            assert_eq!(value(to.x), 1.0);
            assert_eq!(value(to.y), 0.0);
        }
        _ => panic!("expected a quadratic curve"),
    }
}

#[test]
fn mid_sequence_move_is_passed_through() {
    let commands = vec![
        DrawCommand::MoveTo { x: Twips::new(0), y: Twips::new(0) },
        DrawCommand::LineTo { x: Twips::new(20), y: Twips::new(0) },
        DrawCommand::MoveTo { x: Twips::new(100), y: Twips::new(100) },
        DrawCommand::LineTo { x: Twips::new(120), y: Twips::new(100) },
    ];
    let p = build_path(&commands, false);
    assert_eq!(p.segments.len(), 4);
    match p.segments[2] {
        PathSegment::MoveTo { to } => {
            assert_eq!(value(to.x), 5.0);
            assert_eq!(value(to.y), 5.0);
        }
        _ => panic!("expected the mid-sequence move to stay a move"),
    }
}
