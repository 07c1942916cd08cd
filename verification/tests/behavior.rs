use routeguide::catalog::Feature;
use routeguide::geo::{in_range, Point, Rectangle};
use routeguide::hub::{NoteHub, RouteNote};
use routeguide::route::RouteRecorder;
use routeguide::service::{NoteError, RouteGuide};

fn pt(latitude: i32, longitude: i32) -> Point {
    Point { latitude, longitude }
}

fn feature(name: &str, location: Option<Point>) -> Feature {
    Feature { name: name.to_string(), location }
}

fn note(location: Option<Point>, message: &str) -> RouteNote {
    RouteNote { location, message: message.to_string() }
}

#[test]
fn point_equality_is_structural() {
    assert_eq!(pt(40, -74), pt(40, -74));
    assert_ne!(pt(40, -74), pt(-74, 40));
    assert_ne!(pt(40, -74), pt(40, 74));
}

#[test]
fn in_range_is_boundary_inclusive() {
    let rect = Rectangle { lo: pt(5, 5), hi: pt(25, 25) };
    assert!(in_range(&pt(5, 5), &rect));
    assert!(in_range(&pt(25, 25), &rect));
    assert!(in_range(&pt(5, 25), &rect));
    assert!(in_range(&pt(25, 5), &rect));
    assert!(in_range(&pt(10, 10), &rect));
    assert!(!in_range(&pt(4, 10), &rect));
    assert!(!in_range(&pt(26, 10), &rect));
    assert!(!in_range(&pt(10, 4), &rect));
    assert!(!in_range(&pt(10, 26), &rect));
}

#[test]
fn in_range_ignores_corner_order() {
    let points = [pt(5, 5), pt(25, 25), pt(10, 20), pt(0, 0), pt(30, 10), pt(-5, 13)];
    let rect = Rectangle { lo: pt(5, 5), hi: pt(25, 25) };
    let swapped = Rectangle { lo: pt(25, 25), hi: pt(5, 5) };
    let mixed_a = Rectangle { lo: pt(25, 5), hi: pt(5, 25) };
    let mixed_b = Rectangle { lo: pt(5, 25), hi: pt(25, 5) };
    for p in points.iter() {
        let expected = in_range(p, &rect);
        assert_eq!(in_range(p, &swapped), expected);
        assert_eq!(in_range(p, &mixed_a), expected);
        assert_eq!(in_range(p, &mixed_b), expected);
    }
}

#[test]
fn exact_lookup_returns_named_feature() {
    let guide = RouteGuide::new(vec![feature("A", Some(pt(40, -74)))]);
    let hit = guide.get_feature(&pt(40, -74));
    assert_eq!(hit.name, "A");
    assert_eq!(hit.location, Some(pt(40, -74)));
}

#[test]
fn exact_lookup_misses_with_empty_sentinel() {
    let guide = RouteGuide::new(vec![feature("A", Some(pt(40, -74)))]);
    let miss = guide.get_feature(&pt(0, 0));
    assert_eq!(miss.name, "");
    assert_eq!(miss.location, None);
}

#[test]
fn exact_lookup_returns_first_of_equal_locations() {
    let guide = RouteGuide::new(vec![
        feature("first", Some(pt(7, 7))),
        feature("second", Some(pt(7, 7))),
    ]);
    let hit = guide.get_feature(&pt(7, 7));
    assert_eq!(hit.name, "first");
}

#[test]
fn exact_lookup_skips_features_without_location() {
    let guide = RouteGuide::new(vec![feature("nowhere", None), feature("B", Some(pt(1, 2)))]);
    let hit = guide.get_feature(&pt(1, 2));
    assert_eq!(hit.name, "B");
    let miss = guide.get_feature(&pt(9, 9));
    assert_eq!(miss.name, "");
    assert_eq!(miss.location, None);
}

#[test]
fn range_scan_keeps_catalog_order() {
    let guide = RouteGuide::new(vec![
        feature("one", Some(pt(10, 10))),
        feature("two", Some(pt(20, 20))),
        feature("three", Some(pt(30, 30))),
    ]);
    let rect = Rectangle { lo: pt(5, 5), hi: pt(25, 25) };
    let found = guide.list_features(&rect);
    assert_eq!(found.len(), 2);
    assert_eq!(found[0].name, "one");
    assert_eq!(found[1].name, "two");

    let reversed = Rectangle { lo: pt(25, 25), hi: pt(5, 5) };
    let found_reversed = guide.list_features(&reversed);
    assert_eq!(found_reversed.len(), 2);
    assert_eq!(found_reversed[0].name, "one");
    assert_eq!(found_reversed[1].name, "two");
}

#[test]
fn range_scan_skips_features_without_location() {
    let guide = RouteGuide::new(vec![
        feature("nowhere", None),
        feature("inside", Some(pt(10, 10))),
    ]);
    let rect = Rectangle { lo: pt(0, 0), hi: pt(25, 25) };
    let found = guide.list_features(&rect);
    assert_eq!(found.len(), 1);
    assert_eq!(found[0].name, "inside");
}

#[test]
fn range_scan_of_empty_catalog_is_empty() {
    let guide = RouteGuide::new(vec![]);
    let rect = Rectangle { lo: pt(-90, -180), hi: pt(90, 180) };
    assert!(guide.list_features(&rect).is_empty());
}

#[test]
fn route_recording_counts_points_and_distance() {
    // Inbound points (0,0), (0,0), (1,1) with no matching features. At this
    // scale one coordinate unit is 1e-7 degrees, so the great-circle
    // distances between consecutive points truncate to 0 meters.
    let guide = RouteGuide::new(vec![]);
    let points = vec![pt(0, 0), pt(0, 0), pt(1, 1)];
    let dists = vec![0, 0, 0];
    let summary = guide.record_route(&points, &dists, 12);
    assert_eq!(summary.point_count, 3);
    assert_eq!(summary.feature_count, 0);
    assert_eq!(summary.distance, 0);
    assert_eq!(summary.elapsed_time, 12);
}

#[test]
fn route_recording_skips_distance_before_second_point() {
    // The distance handed in with the first point is never accumulated;
    // every later one is.
    let guide = RouteGuide::new(vec![]);
    let points = vec![pt(10, 10), pt(20, 20), pt(30, 30)];
    let dists = vec![999, 5, 7];
    let summary = guide.record_route(&points, &dists, 0);
    assert_eq!(summary.point_count, 3);
    assert_eq!(summary.distance, 12);
}

#[test]
fn route_recording_counts_feature_matches() {
    let guide = RouteGuide::new(vec![
        feature("A", Some(pt(1, 1))),
        feature("B", Some(pt(2, 2))),
    ]);
    let points = vec![pt(0, 0), pt(1, 1), pt(1, 1), pt(2, 2)];
    let dists = vec![0, 0, 0, 0];
    let summary = guide.record_route(&points, &dists, 0);
    assert_eq!(summary.point_count, 4);
    assert_eq!(summary.feature_count, 3);
}

#[test]
fn route_recording_of_empty_session() {
    let guide = RouteGuide::new(vec![feature("A", Some(pt(1, 1)))]);
    let summary = guide.record_route(&vec![], &vec![], 3);
    assert_eq!(summary.point_count, 0);
    assert_eq!(summary.feature_count, 0);
    assert_eq!(summary.distance, 0);
    assert_eq!(summary.elapsed_time, 3);
}

#[test]
fn recorder_steps_match_whole_run() {
    let guide = RouteGuide::new(vec![feature("A", Some(pt(1, 1)))]);
    let mut rec = RouteRecorder::new();
    rec.on_point(&guide.catalog, pt(0, 0), 0);
    rec.on_point(&guide.catalog, pt(1, 1), 4);
    rec.on_point(&guide.catalog, pt(3, 3), 6);
    let stepped = rec.finish(9);
    let whole = guide.record_route(&vec![pt(0, 0), pt(1, 1), pt(3, 3)], &vec![0, 4, 6], 9);
    assert_eq!(stepped, whole);
    assert_eq!(stepped.point_count, 3);
    assert_eq!(stepped.feature_count, 1);
    assert_eq!(stepped.distance, 10);
}

#[test]
fn chat_replays_notes_in_insertion_order() {
    // Two sessions share the hub and send notes at (5,5), N1 then N2: each
    // replay holds every note recorded at that location so far, in order.
    let mut guide = RouteGuide::new(vec![]);
    let replay1 = guide.route_chat(note(Some(pt(5, 5)), "N1")).unwrap();
    assert_eq!(replay1.len(), 1);
    assert_eq!(replay1[0].message, "N1");

    let replay2 = guide.route_chat(note(Some(pt(5, 5)), "N2")).unwrap();
    assert_eq!(replay2.len(), 2);
    assert_eq!(replay2[0].message, "N1");
    assert_eq!(replay2[1].message, "N2");
    assert_eq!(replay2[0].location, Some(pt(5, 5)));
    assert_eq!(replay2[1].location, Some(pt(5, 5)));
}

#[test]
fn chat_keeps_locations_apart() {
    let mut guide = RouteGuide::new(vec![]);
    guide.route_chat(note(Some(pt(5, 5)), "here")).unwrap();
    let elsewhere = guide.route_chat(note(Some(pt(6, 6)), "there")).unwrap();
    assert_eq!(elsewhere.len(), 1);
    assert_eq!(elsewhere[0].message, "there");
    let back = guide.route_chat(note(Some(pt(5, 5)), "again")).unwrap();
    assert_eq!(back.len(), 2);
    assert_eq!(back[0].message, "here");
    assert_eq!(back[1].message, "again");
}

#[test]
fn chat_note_without_location_is_an_error() {
    let mut guide = RouteGuide::new(vec![]);
    guide.route_chat(note(Some(pt(5, 5)), "kept")).unwrap();
    let err = guide.route_chat(note(None, "lost")).unwrap_err();
    assert_eq!(err, NoteError::MissingLocation);
    // The failed note left the hub untouched.
    let replay = guide.route_chat(note(Some(pt(5, 5)), "after")).unwrap();
    assert_eq!(replay.len(), 2);
    assert_eq!(replay[0].message, "kept");
    assert_eq!(replay[1].message, "after");
}

#[test]
fn hub_accumulates_appends_without_loss() {
    // A run of appends at one location: the final replay holds each of the
    // notes exactly once, in append order, and the appender's own note is in
    // the replay it gets back.
    let mut hub = NoteHub::new();
    let loc = pt(5, 5);
    for k in 0..5u32 {
        let replay = hub.record_and_replay(loc, note(Some(loc), &format!("n{}", k)));
        assert_eq!(replay.len(), (k + 1) as usize);
        assert_eq!(replay[k as usize].message, format!("n{}", k));
    }
    let last = hub.record_and_replay(loc, note(Some(loc), "n5"));
    assert_eq!(last.len(), 6);
    for k in 0..6usize {
        assert_eq!(last[k].message, format!("n{}", k));
    }
}

#[test]
fn hub_new_location_starts_its_own_list() {
    let mut hub = NoteHub::new();
    let first = hub.record_and_replay(pt(1, 1), note(Some(pt(1, 1)), "a"));
    assert_eq!(first.len(), 1);
    let other = hub.record_and_replay(pt(2, 2), note(Some(pt(2, 2)), "b"));
    assert_eq!(other.len(), 1);
    assert_eq!(other[0].message, "b");
}
