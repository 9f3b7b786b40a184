use terra_graphics_engine::geometry::{
    arc_fan, arc_fan_for, arc_turns, circle_fan, circle_turns, parse_corner, quad_corners, Corner,
    Turn, UnitCorner,
};

fn place(c: &UnitCorner, x: f32, y: f32, w: f32, h: f32) -> (f32, f32) {
    (
        if c.ux == 1 { x + w } else { x },
        if c.uy == 1 { y + h } else { y },
    )
}

#[test]
fn quad_has_six_corners_in_two_triangles() {
    let c = quad_corners();
    let pairs: Vec<(u8, u8)> = c.iter().map(|c| (c.ux, c.uy)).collect();
    assert_eq!(pairs, vec![(0, 0), (1, 0), (0, 1), (1, 0), (1, 1), (0, 1)]);
}

#[test]
fn quad_corners_place_on_rectangle() {
    let c = quad_corners();
    let pts: Vec<(f32, f32)> = c.iter().map(|c| place(c, 10.0, 20.0, 30.0, 40.0)).collect();
    assert_eq!(
        pts,
        vec![(10.0, 20.0), (40.0, 20.0), (10.0, 60.0), (40.0, 20.0), (40.0, 60.0), (10.0, 60.0)]
    );
}

#[test]
fn circle_samples_step_one_segment_each() {
    let t = circle_turns(6);
    assert_eq!(t.len(), 7);
    for (i, s) in t.iter().enumerate() {
        assert_eq!(*s, Turn { num: i as u64, den: 6 });
    }
    for w in t.windows(2) {
        assert_eq!(w[1].num - w[0].num, 1);
    }
}

#[test]
fn circle_of_zero_segments_has_one_sample() {
    let t = circle_turns(0);
    assert_eq!(t, vec![Turn { num: 0, den: 1 }]);
}

#[test]
fn circle_fan_counts_centre_and_samples() {
    let f = circle_fan(800);
    assert_eq!(f.samples.len() + 1, 802);
    assert_eq!((f.offset_x, f.offset_y), (0, 0));
}

#[test]
fn arc_top_left_spans_half_to_three_quarters() {
    let t = arc_turns(Corner::TopLeft, 4);
    assert_eq!(t.len(), 5);
    assert_eq!(t[0], Turn { num: 8, den: 16 });
    assert_eq!(t[4], Turn { num: 12, den: 16 });
}

#[test]
fn arc_quarters_per_corner() {
    assert_eq!(arc_turns(Corner::BottomRight, 2), vec![
        Turn { num: 0, den: 8 },
        Turn { num: 1, den: 8 },
        Turn { num: 2, den: 8 }
    ]);
    assert_eq!(arc_turns(Corner::BottomLeft, 1)[0], Turn { num: 1, den: 4 });
    assert_eq!(arc_turns(Corner::TopRight, 1)[1], Turn { num: 4, den: 4 });
}

#[test]
fn arc_of_zero_segments_has_its_start_angle() {
    assert_eq!(arc_turns(Corner::TopLeft, 0), vec![Turn { num: 2, den: 4 }]);
    assert_eq!(arc_turns(Corner::BottomRight, 0), vec![Turn { num: 0, den: 4 }]);
}

#[test]
fn arc_with_negative_segments_has_no_sample() {
    assert!(arc_turns(Corner::TopLeft, -3).is_empty());
}

#[test]
fn arc_fan_offsets_towards_the_centre() {
    let f = arc_fan(Corner::TopRight, 10);
    assert_eq!((f.offset_x, f.offset_y), (-1, 1));
    assert_eq!(f.samples.len(), 11);
    let f = arc_fan(Corner::BottomLeft, 10);
    assert_eq!((f.offset_x, f.offset_y), (1, -1));
}

#[test]
fn arc_samples_lie_at_radius_from_the_pivot() {
    let (x, y, r) = (50.0f64, 40.0f64, 8.0f64);
    let f = arc_fan(Corner::TopLeft, 12);
    for s in &f.samples {
        let a = 2.0 * std::f64::consts::PI * s.num as f64 / s.den as f64;
        let cx = x + f.offset_x as f64 * r;
        let cy = y + f.offset_y as f64 * r;
        let px = cx - f.offset_x as f64 * r + r * a.cos();
        let py = cy - f.offset_y as f64 * r + r * a.sin();
        let d = ((px - x).powi(2) + (py - y).powi(2)).sqrt();
        assert!((d - r).abs() < 1e-9);
    }
}

#[test]
fn corner_selectors_are_read() {
    assert_eq!(parse_corner("top-left"), Some(Corner::TopLeft));
    assert_eq!(parse_corner("top-right"), Some(Corner::TopRight));
    assert_eq!(parse_corner("bottom-left"), Some(Corner::BottomLeft));
    assert_eq!(parse_corner("bottom-right"), Some(Corner::BottomRight));
    assert_eq!(parse_corner("middle"), None);
    assert_eq!(parse_corner("Top-Left"), None);
    assert_eq!(parse_corner(""), None);
}

#[test]
fn unknown_selector_gives_no_fan() {
    assert!(arc_fan_for("center", 10).is_none());
    assert!(arc_fan_for("center", 10).is_none());
    assert_eq!(arc_fan_for("bottom-right", 3).map(|f| f.samples.len()), Some(4));
}
