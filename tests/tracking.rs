use tracking::geometry::{
    map_point, NormPoint, Pixel, REFERENCE_HEIGHT, REFERENCE_WIDTH, WINDOW_HALF_HEIGHT,
    WINDOW_HALF_WIDTH,
};
use tracking::marker::{apply_all, apply_position, tick_all, Marker, Placement};
use tracking::scene::{startup_squares, Shade, CELL_SIZE};

fn px(x: i32, y: i32) -> Pixel {
    Pixel { x, y }
}

fn placement() -> Placement {
    Placement { x: 7, y: -7, z: 2, scale_x: 60, scale_y: 60, scale_z: 10 }
}

#[test]
fn mapping_example_at_window_corner() {
    let p = map_point(px(270, 270), px(0, 0), px(0, 0));
    assert_eq!(p, NormPoint { x: 20, y: -20 });
    let x = p.x as f64 / REFERENCE_WIDTH as f64;
    let y = p.y as f64 / REFERENCE_HEIGHT as f64;
    assert!((x - 0.01042).abs() < 1e-5);
    assert!((y + 0.01852).abs() < 1e-5);
}

#[test]
fn mapping_follows_formula_for_other_inputs() {
    let cases = [
        (px(100, 900), px(30, 40), px(-15, 0)),
        (px(0, 0), px(0, 0), px(0, 0)),
        (px(-500, 2000), px(1200, -300), px(15, -3)),
        (px(250, 250), px(0, 0), px(0, 0)),
    ];
    for (mouse, window, origin) in cases {
        let p = map_point(mouse, window, origin);
        let ex = (mouse.x as i64 - window.x as i64 - 250) + origin.x as i64;
        let ey = -((mouse.y as i64 - window.y as i64 - 250) + origin.y as i64);
        assert_eq!(p, NormPoint { x: ex, y: ey });
    }
    assert_eq!(map_point(px(250, 250), px(0, 0), px(0, 0)), NormPoint { x: 0, y: 0 });
    assert_eq!(WINDOW_HALF_WIDTH, 250);
    assert_eq!(WINDOW_HALF_HEIGHT, 250);
}

#[test]
fn mapping_does_not_overflow_at_extremes() {
    let p = map_point(px(i32::MAX, i32::MIN), px(i32::MIN, i32::MAX), px(i32::MAX, i32::MIN));
    assert_eq!(p.x, i32::MAX as i64 - i32::MIN as i64 - 250 + i32::MAX as i64);
    assert_eq!(p.y, -((i32::MIN as i64 - i32::MAX as i64 - 250) + i32::MIN as i64));
}

#[test]
fn world_position_is_point_times_range_plus_origin() {
    let mut m = Marker::new(px(-15, 4), 10);
    m.refresh(px(270, 270), Some(px(0, 0)));
    assert_eq!(m.point, NormPoint { x: 5, y: -24 });
    let (x, y) = m.world_position();
    assert_eq!(x, 5 * 10 + -15 * 1920);
    assert_eq!(y, -24 * 10 + 4 * 1080);
    let wx = x as f64 / 1920.0;
    let wy = y as f64 / 1080.0;
    assert!((wx - (5.0 / 1920.0 * 10.0 - 15.0)).abs() < 1e-9);
    assert!((wy - (-24.0 / 1080.0 * 10.0 + 4.0)).abs() < 1e-9);
}

#[test]
fn world_position_at_extremes() {
    let m = Marker {
        point: NormPoint { x: i64::MIN, y: i64::MAX },
        origin: px(i32::MIN, i32::MAX),
        range: i32::MIN,
    };
    let (x, y) = m.world_position();
    assert_eq!(x, i64::MIN as i128 * i32::MIN as i128 + i32::MIN as i128 * 1920);
    assert_eq!(y, i64::MAX as i128 * i32::MIN as i128 + i32::MAX as i128 * 1080);
}

#[test]
fn position_step_keeps_depth_and_scale() {
    let mut m = Marker::new(px(15, 0), 5);
    m.refresh(px(300, 100), Some(px(10, 20)));
    let mut p = placement();
    apply_position(&mut p, &m);
    let (x, y) = m.world_position();
    assert_eq!(p, Placement { x, y, z: 2, scale_x: 60, scale_y: 60, scale_z: 10 });
    assert_ne!(p.x, 7);
}

#[test]
fn position_step_twice_is_same_as_once() {
    let mut m = Marker::new(px(-15, 0), 10);
    m.refresh(px(640, 480), Some(px(100, 50)));
    let mut once = placement();
    apply_position(&mut once, &m);
    let mut twice = once;
    apply_position(&mut twice, &m);
    assert_eq!(once, twice);
}

#[test]
fn ticks_keep_origin_and_range() {
    let mut ms: Vec<Marker> = startup_squares().into_iter().map(|s| s.marker).collect();
    let before: Vec<(Pixel, i32)> = ms.iter().map(|m| (m.origin, m.range)).collect();
    for k in 0..50 {
        let window = if k % 7 == 3 { None } else { Some(px(k, 2 * k)) };
        tick_all(&mut ms, px(13 * k - 100, 400 - 9 * k), window);
    }
    let after: Vec<(Pixel, i32)> = ms.iter().map(|m| (m.origin, m.range)).collect();
    assert_eq!(before, after);
}

#[test]
fn tick_sets_every_point_from_its_origin() {
    let mut ms: Vec<Marker> = startup_squares().into_iter().map(|s| s.marker).collect();
    tick_all(&mut ms, px(700, 300), Some(px(200, 100)));
    for m in &ms {
        assert_eq!(m.point, map_point(px(700, 300), px(200, 100), m.origin));
    }
    assert_eq!(ms[1].point, NormPoint { x: 250 - 15, y: 50 });
    assert_eq!(ms[2].point, NormPoint { x: 250 + 15, y: 50 });
}

#[test]
fn failed_window_query_keeps_points() {
    let mut ms: Vec<Marker> = startup_squares().into_iter().map(|s| s.marker).collect();
    tick_all(&mut ms, px(400, 260), Some(px(0, 0)));
    let kept = ms.clone();
    tick_all(&mut ms, px(999, -999), None);
    assert_eq!(ms, kept);
    let mut m = Marker::new(px(3, 4), 2);
    m.refresh(px(300, 300), Some(px(0, 0)));
    let p = m.point;
    m.refresh(px(0, 0), None);
    assert_eq!(m.point, p);
}

#[test]
fn frame_shows_latest_point_after_several_ticks() {
    let mut ms: Vec<Marker> = startup_squares().into_iter().map(|s| s.marker).collect();
    let mut placements: Vec<Placement> = startup_squares().into_iter().map(|s| s.placement).collect();
    // three ticks fall in this frame; the last one could not read the window
    tick_all(&mut ms, px(260, 250), Some(px(0, 0)));
    tick_all(&mut ms, px(300, 200), Some(px(5, 5)));
    tick_all(&mut ms, px(900, 900), None);
    apply_all(&mut placements, &ms);
    for (m, p) in ms.iter().zip(placements.iter()) {
        let latest = map_point(px(300, 200), px(5, 5), m.origin);
        assert_eq!(m.point, latest);
        let shown = Marker { point: latest, origin: m.origin, range: m.range };
        assert_eq!((p.x, p.y), shown.world_position());
    }
    // no tick falls in the next frame: the same point is shown again
    let again = placements.clone();
    apply_all(&mut placements, &ms);
    assert_eq!(placements, again);
}

#[test]
fn startup_scene_has_five_squares() {
    let s = startup_squares();
    assert_eq!(s.len(), 5);
    assert_eq!(CELL_SIZE, 10);
    let shades: Vec<Shade> = s.iter().map(|q| q.shade).collect();
    assert_eq!(shades, vec![Shade::Gray, Shade::White, Shade::White, Shade::Blue, Shade::Blue]);
    let origins: Vec<i32> = s.iter().map(|q| q.marker.origin.x).collect();
    assert_eq!(origins, vec![0, -15, 15, -15, 15]);
    let ranges: Vec<i32> = s.iter().map(|q| q.marker.range).collect();
    assert_eq!(ranges, vec![1, 5, 5, 10, 10]);
    let sizes: Vec<i32> = s.iter().map(|q| q.placement.scale_x).collect();
    assert_eq!(sizes, vec![60, 20, 20, 10, 10]);
    let xs: Vec<i128> = s.iter().map(|q| q.placement.x).collect();
    assert_eq!(xs, vec![0, -28800, 28800, 0, 0]);
    for q in &s {
        assert_eq!(q.marker.point, NormPoint { x: 0, y: 0 });
        assert_eq!(q.marker.origin.y, 0);
        assert_eq!((q.placement.y, q.placement.z), (0, 0));
        assert_eq!(q.placement.scale_y, q.placement.scale_x);
        assert_eq!(q.placement.scale_z, 10);
    }
}
