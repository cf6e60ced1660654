use marbling::ellipse::{Ellipse, Point};
use marbling::num::isqrt;
use marbling::scene::Scene;
use marbling::style::{Rgb, Style, StylePatch};
use marbling::trig::{angle_fp, cos_fp, sin_fp};

fn style(edges: u32, radius: i64) -> Style {
    Style {
        edges,
        radius,
        color: Rgb { red: 10, green: 20, blue: 30 },
        stroke: Rgb { red: 1, green: 2, blue: 3 },
        stroke_width: 4,
    }
}

fn no_patch() -> StylePatch {
    StylePatch { edges: None, radius: None, color: None, stroke: None, stroke_width: None }
}

#[test]
fn construction_square_exact() {
    let e = Ellipse::new(0, 0, style(4, 10));
    assert_eq!(e.points.len(), 4);
    assert_eq!(e.points[0], Point { x: 10, y: 0 });
    assert_eq!(e.points[1], Point { x: 0, y: 10 });
    assert_eq!(e.points[2], Point { x: -10, y: 0 });
    assert_eq!(e.points[3], Point { x: 0, y: -10 });
}

#[test]
fn construction_offset_center() {
    let e = Ellipse::new(50, 0, style(4, 5));
    assert_eq!(e.points[0], Point { x: 55, y: 0 });
    assert_eq!(e.points[1], Point { x: 50, y: 5 });
    assert_eq!(e.points[2], Point { x: 45, y: 0 });
    assert_eq!(e.points[3], Point { x: 50, y: -5 });
}

#[test]
fn construction_empty_edge_count() {
    let e = Ellipse::new(12, -7, style(0, 64));
    assert_eq!(e.points.len(), 0);
}

#[test]
fn construction_distance_within_tolerance() {
    let r: i64 = 64_000;
    let e = Ellipse::new(1_000, -2_000, style(12, r));
    assert_eq!(e.points.len(), 12);
    for p in &e.points {
        let dx = (p.x - 1_000) as f64;
        let dy = (p.y + 2_000) as f64;
        let dist = (dx * dx + dy * dy).sqrt();
        let rel = (dist - r as f64).abs() / r as f64;
        assert!(rel < 0.005, "distance {} too far from radius {}", dist, r);
    }
}

#[test]
fn construction_angles_strictly_increasing() {
    let e = Ellipse::new(0, 0, style(12, 64_000));
    let mut last = -1.0_f64;
    for p in &e.points {
        let mut a = (p.y as f64).atan2(p.x as f64);
        if a < 0.0 {
            a += 2.0 * std::f64::consts::PI;
        }
        assert!(a > last, "angle {} not above {}", a, last);
        last = a;
    }
}

#[test]
fn trig_quadrant_values() {
    assert_eq!(cos_fp(0), 65536);
    assert_eq!(sin_fp(0), 0);
    assert_eq!(cos_fp(65536), 0);
    assert_eq!(sin_fp(65536), 65536);
    assert_eq!(cos_fp(131072), -65536);
    assert_eq!(sin_fp(131072), 0);
    assert_eq!(cos_fp(196608), 0);
    assert_eq!(sin_fp(196608), -65536);
}

#[test]
fn angle_quarters() {
    assert_eq!(angle_fp(0, 4), 0);
    assert_eq!(angle_fp(1, 4), 65536);
    assert_eq!(angle_fp(2, 4), 131072);
    assert_eq!(angle_fp(3, 4), 196608);
}

#[test]
fn isqrt_exact_values() {
    assert_eq!(isqrt(0), 0);
    assert_eq!(isqrt(1), 1);
    assert_eq!(isqrt(2), 1);
    assert_eq!(isqrt(3), 1);
    assert_eq!(isqrt(4), 2);
    assert_eq!(isqrt(101), 10);
    assert_eq!(isqrt(10_000_000_000_000_000), 100_000_000);
}

#[test]
fn marble_exact_displacement() {
    // center offset (3, -2): m = 3 * -2 + -2 * -2 = -2; with radius 4 the
    // factor is sqrt(4 + 16) / 2 rounded down on the magnitude.
    let mut a = Ellipse::new(3, -2, style(3, 1));
    let influencer = Ellipse::new(0, 0, style(4, 4));
    a.marble(&influencer);
    for p in &a.points {
        assert_eq!(*p, Point { x: 6, y: -4 });
    }
    assert_eq!(a.center, Point { x: 3, y: -2 });
    assert_eq!(a.points.len(), 3);
}

#[test]
fn marble_unit_measure() {
    // center offset (0, 1): m = 1, radius 10, so the scale is sqrt(101)
    // rounded down, which sends the center offset to (0, 10).
    let mut a = Ellipse::new(0, 1, style(4, 7));
    let influencer = Ellipse::new(0, 0, style(4, 10));
    a.marble(&influencer);
    for p in &a.points {
        assert_eq!(*p, Point { x: 0, y: 10 });
    }
}

#[test]
fn marble_singular_same_center() {
    let mut a = Ellipse::new(5, 5, style(4, 10));
    let influencer = Ellipse::new(5, 5, style(4, 10));
    a.marble(&influencer);
    assert_eq!(a.points.len(), 4);
    for p in &a.points {
        assert_eq!(*p, Point { x: 5, y: 5 });
    }
}

#[test]
fn marble_singular_same_row() {
    // equal y coordinates make the direction measure zero even though the
    // centers differ, so the fallback applies here too
    let mut a = Ellipse::new(0, 0, style(4, 10));
    let influencer = Ellipse::new(50, 0, style(4, 5));
    a.marble(&influencer);
    for p in &a.points {
        assert_eq!(*p, Point { x: 0, y: 0 });
    }
}

#[test]
fn marble_deterministic_on_copies() {
    let a1 = Ellipse::new(2, 7, style(5, 1_000));
    let mut a2 = a1.clone();
    let mut a1 = a1;
    let influencer = Ellipse::new(9, -3, style(3, 500));
    a1.marble(&influencer);
    a2.marble(&influencer);
    assert_eq!(a1.points, a2.points);
    assert_eq!(a1.center, a2.center);
}

#[test]
fn marble_order_independent() {
    let influencer = Ellipse::new(1, 2, style(6, 300));
    let mut a_first = Ellipse::new(40, -10, style(4, 100));
    let mut b_second = Ellipse::new(-25, 60, style(5, 200));
    a_first.marble(&influencer);
    b_second.marble(&influencer);

    let mut b_first = Ellipse::new(-25, 60, style(5, 200));
    let mut a_second = Ellipse::new(40, -10, style(4, 100));
    b_first.marble(&influencer);
    a_second.marble(&influencer);

    assert_eq!(a_first.points, a_second.points);
    assert_eq!(b_first.points, b_second.points);
}

#[test]
fn drop_appends_untransformed() {
    let mut scene = Scene::new(style(4, 10));
    scene.drop_at(3, 17);
    let id = scene.drop_at(30, 40);
    assert_eq!(id, 1);
    let shapes = scene.all_shapes();
    assert_eq!(shapes.len(), 2);
    let fresh = Ellipse::new(30, 40, style(4, 10));
    assert_eq!(shapes[1].points, fresh.points);
    assert_eq!(shapes[1].center, Point { x: 30, y: 40 });
}

#[test]
fn drop_transforms_existing() {
    let mut scene = Scene::new(style(4, 10));
    scene.drop_at(0, 1);
    scene.drop_at(0, 0);
    let shapes = scene.all_shapes();
    assert_eq!(shapes.len(), 2);
    for p in &shapes[0].points {
        assert_eq!(*p, Point { x: 0, y: 10 });
    }
}

#[test]
fn end_to_end_marbling_scenario() {
    let mut scene = Scene::new(style(4, 10));
    let first = scene.drop_at(0, 0);
    assert_eq!(first, 0);
    {
        let shapes = scene.all_shapes();
        assert_eq!(shapes.len(), 1);
        assert_eq!(
            shapes[0].points,
            vec![
                Point { x: 10, y: 0 },
                Point { x: 0, y: 10 },
                Point { x: -10, y: 0 },
                Point { x: 0, y: -10 },
            ]
        );
    }
    let mut patch = no_patch();
    patch.radius = Some(5);
    scene.update_settings(patch);
    let second = scene.drop_at(50, 0);
    assert_eq!(second, 1);
    let shapes = scene.all_shapes();
    assert_eq!(shapes.len(), 2);
    // the new shape is constructed around (50, 0) and is untransformed
    assert_eq!(
        shapes[1].points,
        vec![
            Point { x: 55, y: 0 },
            Point { x: 50, y: 5 },
            Point { x: 45, y: 0 },
            Point { x: 50, y: -5 },
        ]
    );
    // the first shape was remapped: with equal row coordinates the
    // direction measure is zero, so each point moved to its own center
    for p in &shapes[0].points {
        assert_eq!(*p, Point { x: 0, y: 0 });
    }
    assert_ne!(shapes[0].points[0], Point { x: 10, y: 0 });
}

#[test]
fn settings_clamped() {
    let mut scene = Scene::new(style(4, 10));
    let mut patch = no_patch();
    patch.edges = Some(-5);
    patch.radius = Some(200_000_000);
    patch.stroke_width = Some(-1);
    scene.update_settings(patch);
    assert_eq!(scene.settings.edges, 0);
    assert_eq!(scene.settings.radius, 100_000_000);
    assert_eq!(scene.settings.stroke_width, 0);
    assert_eq!(scene.settings.color, Rgb { red: 10, green: 20, blue: 30 });
}

#[test]
fn settings_do_not_touch_placed_shapes() {
    let mut scene = Scene::new(style(4, 10));
    scene.drop_at(3, 4);
    let mut patch = no_patch();
    patch.radius = Some(99);
    patch.edges = Some(7);
    scene.update_settings(patch);
    let shapes = scene.all_shapes();
    assert_eq!(shapes[0].properties.radius, 10);
    assert_eq!(shapes[0].properties.edges, 4);
    assert_eq!(shapes[0].points.len(), 4);
    let id = scene.drop_at(600, 800);
    let shapes = scene.all_shapes();
    assert_eq!(shapes[id].properties.radius, 99);
    assert_eq!(shapes[id].points.len(), 7);
}

#[test]
fn local_points_are_center_relative() {
    let e = Ellipse::new(7, 9, style(4, 10));
    let local = e.local_points();
    assert_eq!(local.len(), 4);
    for (l, p) in local.iter().zip(e.points.iter()) {
        assert_eq!(l.x, p.x - 7);
        assert_eq!(l.y, p.y - 9);
    }
    assert_eq!(local[0], Point { x: 10, y: 0 });
}

#[test]
fn all_shapes_in_drop_order() {
    let mut scene = Scene::new(style(3, 10));
    scene.drop_at(1, 10);
    scene.drop_at(2, 20);
    scene.drop_at(3, 30);
    let shapes = scene.all_shapes();
    assert_eq!(shapes.len(), 3);
    assert_eq!(shapes[0].center, Point { x: 1, y: 10 });
    assert_eq!(shapes[1].center, Point { x: 2, y: 20 });
    assert_eq!(shapes[2].center, Point { x: 3, y: 30 });
}

#[test]
fn empty_shape_participates_harmlessly() {
    let mut scene = Scene::new(style(0, 64));
    scene.drop_at(5, 6);
    let mut patch = no_patch();
    patch.edges = Some(4);
    scene.update_settings(patch);
    scene.drop_at(7, 8);
    let shapes = scene.all_shapes();
    assert_eq!(shapes.len(), 2);
    assert_eq!(shapes[0].points.len(), 0);
    assert_eq!(shapes[1].points.len(), 4);
}
