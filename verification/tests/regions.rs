use steward::error::WindowError;
use steward::region::{ClickThroughRegion, Point, RegionEngine, RegionSet};

fn set_of(rects: &[(i32, i32, u32, u32)]) -> RegionSet {
    let mut set = RegionSet::new();
    for &(x, y, w, h) in rects {
        set.push(ClickThroughRegion::new(x, y, w, h));
    }
    set
}

#[test]
fn point_inside_single_region_is_interactive() {
    let set = set_of(&[(0, 0, 100, 50)]);
    assert!(set.hit_test(Point { x: 50, y: 25 }));
}

#[test]
fn point_outside_single_region_passes_through() {
    let set = set_of(&[(0, 0, 100, 50)]);
    assert!(!set.hit_test(Point { x: 150, y: 25 }));
}

#[test]
fn top_left_corner_is_inside() {
    let r = ClickThroughRegion::new(10, 20, 30, 40);
    assert!(r.contains(Point { x: 10, y: 20 }));
}

#[test]
fn far_corner_is_outside() {
    let r = ClickThroughRegion::new(10, 20, 30, 40);
    assert!(!r.contains(Point { x: 40, y: 60 }));
    assert!(!r.contains(Point { x: 40, y: 20 }));
    assert!(!r.contains(Point { x: 10, y: 60 }));
}

#[test]
fn last_pixel_is_inside() {
    let r = ClickThroughRegion::new(10, 20, 30, 40);
    assert!(r.contains(Point { x: 39, y: 59 }));
    assert!(!r.contains(Point { x: 9, y: 20 }));
    assert!(!r.contains(Point { x: 10, y: 19 }));
}

#[test]
fn negative_offsets_are_window_local() {
    let r = ClickThroughRegion::new(-5, -5, 10, 10);
    assert!(r.contains(Point { x: -5, y: -5 }));
    assert!(r.contains(Point { x: 4, y: 4 }));
    assert!(!r.contains(Point { x: 5, y: 5 }));
    assert!(!r.contains(Point { x: -6, y: 0 }));
}

#[test]
fn extreme_coordinates_do_not_wrap() {
    let r = ClickThroughRegion::new(i32::MAX, i32::MAX, u32::MAX, u32::MAX);
    assert!(r.contains(Point { x: i32::MAX, y: i32::MAX }));
    assert!(!r.contains(Point { x: i32::MIN, y: i32::MIN }));
    let wide = ClickThroughRegion::new(i32::MIN, i32::MIN, u32::MAX, u32::MAX);
    assert!(wide.contains(Point { x: i32::MIN, y: i32::MIN }));
    assert!(wide.contains(Point { x: i32::MAX - 1, y: i32::MAX - 1 }));
    assert!(!wide.contains(Point { x: i32::MAX, y: 0 }));
}

#[test]
fn zero_sized_region_is_invalid_and_covers_nothing() {
    let flat = ClickThroughRegion::new(0, 0, 0, 10);
    assert!(!flat.is_valid());
    assert!(!flat.contains(Point { x: 0, y: 0 }));
    let thin = ClickThroughRegion::new(0, 0, 10, 0);
    assert!(!thin.is_valid());
    assert!(ClickThroughRegion::new(0, 0, 1, 1).is_valid());
}

#[test]
fn overlapping_regions_hit_if_any_covers() {
    let set = set_of(&[(0, 0, 10, 10), (5, 5, 10, 10)]);
    assert!(set.hit_test(Point { x: 2, y: 2 }));
    assert!(set.hit_test(Point { x: 7, y: 7 }));
    assert!(set.hit_test(Point { x: 14, y: 14 }));
    assert!(!set.hit_test(Point { x: 12, y: 2 }));
}

#[test]
fn empty_set_hits_nothing() {
    let set = RegionSet::new();
    assert!(set.is_empty());
    for x in -3..4 {
        for y in -3..4 {
            assert!(!set.hit_test(Point { x, y }));
        }
    }
}

#[test]
fn hit_test_repeats_its_answer() {
    let set = set_of(&[(0, 0, 100, 50), (200, 0, 5, 5)]);
    for p in [Point { x: 50, y: 25 }, Point { x: 150, y: 25 }, Point { x: 204, y: 4 }] {
        let first = set.hit_test(p);
        for _ in 0..5 {
            assert_eq!(set.hit_test(p), first);
        }
    }
    let copy = RegionSet::from_vec(set.to_vec());
    assert_eq!(copy, set);
    assert_eq!(copy.hit_test(Point { x: 204, y: 4 }), set.hit_test(Point { x: 204, y: 4 }));
}

#[test]
fn region_set_keeps_order_and_length() {
    let set = set_of(&[(1, 2, 3, 4), (5, 6, 7, 8)]);
    assert_eq!(set.len(), 2);
    assert_eq!(set.get(0), Some(ClickThroughRegion::new(1, 2, 3, 4)));
    assert_eq!(set.get(1), Some(ClickThroughRegion::new(5, 6, 7, 8)));
    assert_eq!(set.get(2), None);
    assert_eq!(
        set.to_vec(),
        vec![ClickThroughRegion::new(1, 2, 3, 4), ClickThroughRegion::new(5, 6, 7, 8)]
    );
}

#[test]
fn validate_finds_an_invalid_rectangle_anywhere() {
    assert_eq!(set_of(&[]).validate(), Ok(()));
    assert_eq!(set_of(&[(0, 0, 1, 1), (0, 0, 2, 2)]).validate(), Ok(()));
    assert_eq!(set_of(&[(0, 0, 0, 1)]).validate(), Err(WindowError::InvalidRegion));
    assert_eq!(
        set_of(&[(0, 0, 1, 1), (0, 0, 2, 2), (0, 0, 3, 0)]).validate(),
        Err(WindowError::InvalidRegion)
    );
}

#[test]
fn engine_starts_fully_click_through() {
    let engine = RegionEngine::new("toolbar");
    assert_eq!(engine.target_label(), "toolbar");
    assert!(engine.regions().is_empty());
    assert!(!engine.hit_test(Point { x: 0, y: 0 }));
}

#[test]
fn engine_replaces_regions_as_a_whole() {
    let mut engine = RegionEngine::new("toolbar");
    assert_eq!(engine.set_regions("toolbar", set_of(&[(0, 0, 100, 50)])), Ok(()));
    assert!(engine.hit_test(Point { x: 50, y: 25 }));
    assert_eq!(engine.set_regions("toolbar", set_of(&[(200, 200, 10, 10)])), Ok(()));
    assert!(!engine.hit_test(Point { x: 50, y: 25 }));
    assert!(engine.hit_test(Point { x: 205, y: 205 }));
    assert_eq!(engine.regions().len(), 1);
}

#[test]
fn engine_refuses_other_windows_and_keeps_regions() {
    let mut engine = RegionEngine::new("toolbar");
    assert_eq!(engine.set_regions("toolbar", set_of(&[(0, 0, 100, 50)])), Ok(()));
    assert_eq!(
        engine.set_regions("settings", set_of(&[(500, 500, 1, 1)])),
        Err(WindowError::InvalidTarget)
    );
    assert_eq!(engine.set_regions("", RegionSet::new()), Err(WindowError::InvalidTarget));
    assert_eq!(engine.regions(), &set_of(&[(0, 0, 100, 50)]));
    assert!(engine.hit_test(Point { x: 50, y: 25 }));
    assert!(!engine.hit_test(Point { x: 500, y: 500 }));
}

#[test]
fn engine_reports_target_before_region() {
    let mut engine = RegionEngine::new("toolbar");
    assert_eq!(
        engine.set_regions("main", set_of(&[(0, 0, 0, 0)])),
        Err(WindowError::InvalidTarget)
    );
}

#[test]
fn engine_refuses_invalid_list_and_keeps_regions() {
    let mut engine = RegionEngine::new("toolbar");
    assert_eq!(engine.set_regions("toolbar", set_of(&[(0, 0, 100, 50)])), Ok(()));
    assert_eq!(
        engine.set_regions("toolbar", set_of(&[(300, 300, 10, 10), (0, 0, 5, 0)])),
        Err(WindowError::InvalidRegion)
    );
    assert_eq!(engine.regions(), &set_of(&[(0, 0, 100, 50)]));
    assert!(!engine.hit_test(Point { x: 305, y: 305 }));
}

#[test]
fn engine_with_empty_list_hits_nothing() {
    let mut engine = RegionEngine::new("toolbar");
    assert_eq!(engine.set_regions("toolbar", set_of(&[(0, 0, 100, 50)])), Ok(()));
    assert_eq!(engine.set_regions("toolbar", RegionSet::new()), Ok(()));
    for p in [Point { x: 0, y: 0 }, Point { x: 50, y: 25 }, Point { x: -1, y: 7 }] {
        assert!(!engine.hit_test(p));
    }
}
