use rpbot::stats::{stat_input_to_hash, parse_stats, merge_stat_input, stats_prefill, StatView};
use rpbot::table::NamedTable;
use rpbot::world::{
    Road, new_road, new_place, get_road_from_places, menu_destinations, road_places_valid,
    road_limit_reached, road_name, parse_place_option, roles_after_arrival, destination_ids,
    road_request, RoadRequest,
};

fn sheet(t: &NamedTable<String>, name: &str) -> Option<String> {
    t.get(&name.to_string()).cloned()
}

#[test]
fn sheet_lines_are_read() {
    let t = stat_input_to_hash("Force : 10\nSpeed:2\n  Wis dom : 3.5").unwrap();
    assert_eq!(t.len(), 3);
    assert_eq!(sheet(&t, "Force"), Some("10".to_string()));
    assert_eq!(sheet(&t, "Speed"), Some("2".to_string()));
    assert_eq!(sheet(&t, "Wisdom"), Some("3.5".to_string()));
}

#[test]
fn later_line_wins_and_extra_fields_dropped() {
    let t = stat_input_to_hash("a:1\na:2:9").unwrap();
    assert_eq!(t.len(), 1);
    assert_eq!(sheet(&t, "a"), Some("2".to_string()));
}

#[test]
fn line_without_colon_is_refused() {
    assert!(stat_input_to_hash("a:1\nb").is_none());
    assert!(stat_input_to_hash("").is_none());
    assert!(stat_input_to_hash("a:1\n").is_none());
}

#[test]
fn stats_indexed_by_name() {
    let t = parse_stats(vec![("speed".to_string(), 1u8), ("mount".to_string(), 0), ("speed".to_string(), 3)]);
    assert_eq!(t.len(), 2);
    assert_eq!(t.get(&"speed".to_string()), Some(&3));
    assert_eq!(t.into_values(), vec![3, 0]);
}

#[test]
fn sheet_overrides_universe_stats() {
    let t = merge_stat_input(
        vec![("speed".to_string(), 1u8), ("mount".to_string(), 0)],
        vec![("speed".to_string(), 4), ("force".to_string(), 7)],
    );
    assert_eq!(t.into_values(), vec![4, 0, 7]);
}

fn stat(name: &str, value: &str, hide: bool) -> StatView {
    StatView { name: name.to_string(), value_text: value.to_string(), hide }
}

#[test]
fn prefill_skips_hidden() {
    let text = stats_prefill(&vec![stat("speed", "1", false), stat("mount", "0", true), stat("force", "2.5", false)]);
    assert_eq!(text, "speed : 1\nforce : 2.5\n");
    assert_eq!(stats_prefill(&vec![]), "");
}

#[test]
fn prefill_reads_back_without_final_newline() {
    let text = stats_prefill(&vec![stat("speed", "1", false), stat("mount", "0", true), stat("force", "2.5", false)]);
    assert!(stat_input_to_hash(&text).is_none());
    let t = stat_input_to_hash(&text[..text.len() - 1]).unwrap();
    assert_eq!(t.len(), 2);
    assert_eq!(sheet(&t, "speed"), Some("1".to_string()));
    assert_eq!(sheet(&t, "force"), Some("2.5".to_string()));
    assert_eq!(sheet(&t, "mount"), None);
}

fn road(p1: u64, p2: u64, secret: bool) -> Road {
    new_road(1, 2, 3, 100 + p1 + p2, p1, p2, 10, secret, 77)
}

#[test]
fn road_ends() {
    let r = road(10, 20, false);
    assert_eq!(r.other_end(10), 20);
    assert_eq!(r.other_end(20), 10);
    assert_eq!(r.other_end(r.other_end(20)), 20);
    assert_eq!(r.other_end(99), 10);
}

#[test]
fn new_records() {
    let r = new_road(1, 2, 3, 4, 5, 6, 7, true, 8);
    assert_eq!((r.file_id, r.universe_id, r.server_id, r.road_id, r.place_1, r.place_2, r.distance, r.is_secret, r.role_id), (1, 2, 3, 4, 5, 6, 7, true, 8));
    assert!(r.collectables.is_empty() && r.privileges.is_empty());
    assert_eq!((r.collectables_delay, r.delay_before_recollect, r.timestamp_before_recollect), (0, 0, 0));
    let p = new_place(1, 2, 3, 4, 5, 6);
    assert_eq!((p.file_id, p.server_id, p.universe_id, p.role_id, p.place_id, p.default_channel_id), (1, 2, 3, 4, 5, 6));
    assert!(p.collectables.is_empty());
}

#[test]
fn unique_road_only() {
    assert!(get_road_from_places(vec![], 1, 2).is_none());
    assert_eq!(get_road_from_places(vec![road(1, 2, false)], 1, 2).unwrap().place_2, 2);
    assert_eq!(get_road_from_places(vec![road(1, 2, false)], 2, 1).unwrap().place_2, 2);
    assert!(get_road_from_places(vec![road(1, 2, false), road(2, 1, false)], 1, 2).is_none());
    let mixed = || vec![road(1, 3, false), road(3, 1, true), road(2, 1, false), road(2, 4, false)];
    assert_eq!(get_road_from_places(mixed(), 1, 2).unwrap().place_1, 2);
    assert_eq!(get_road_from_places(mixed(), 2, 1).unwrap().place_1, 2);
    assert!(get_road_from_places(mixed(), 1, 3).is_none());
    assert!(get_road_from_places(mixed(), 1, 4).is_none());
}

#[test]
fn road_requests_in_order() {
    let u = |ids: &[u128]| ids.to_vec();
    assert_eq!(road_request(1, 2, &u(&[7]), &vec![]), RoadRequest::BadPlaceInput);
    assert_eq!(road_request(1, 1, &u(&[7]), &vec![]), RoadRequest::Create);
    assert_eq!(road_request(1, 2, &u(&[7, 7]), &vec![(2, 1)]), RoadRequest::AlreadyExists);
    let full: Vec<(u64, u64)> = (0..25).map(|i| if i % 2 == 0 { (1, 100 + i) } else { (200 + i, 2) }).collect();
    assert_eq!(road_request(1, 2, &u(&[7, 7]), &full), RoadRequest::MaximumHit);
    let almost: Vec<(u64, u64)> = (0..24).map(|i| (1, 100 + i)).chain(std::iter::once((5, 6))).collect();
    assert_eq!(road_request(1, 2, &u(&[7, 7]), &almost), RoadRequest::Create);
    assert_eq!(road_request(1, 2, &u(&[7, 8]), &almost), RoadRequest::DifferentUniverse);
    assert_eq!(road_request(1, 2, &u(&[7, 8]), &full), RoadRequest::MaximumHit);
}

#[test]
fn menu_lists_open_roads_last_first() {
    let roads = vec![road(10, 20, false), road(30, 10, false), road(10, 40, true), road(10, 50, false)];
    assert_eq!(menu_destinations(&roads, 10), vec![50, 30, 20]);
    assert!(menu_destinations(&vec![], 10).is_empty());
}

#[test]
fn road_request_checks() {
    assert!(road_places_valid(1, 2, 2));
    assert!(road_places_valid(1, 1, 1));
    assert!(!road_places_valid(1, 2, 1));
    assert!(!road_places_valid(1, 1, 0));
    assert!(!road_limit_reached(24));
    assert!(road_limit_reached(25));
    assert_eq!(road_name("town", "forest"), "town-forest");
}

#[test]
fn place_options_drop_quotes() {
    assert_eq!(parse_place_option("\"123\""), Some(123));
    assert_eq!(parse_place_option("456"), Some(456));
    assert_eq!(parse_place_option("\"abc\""), None);
}

#[test]
fn arrival_swaps_roles() {
    assert_eq!(roles_after_arrival(&vec![1, 5, 2, 5], 5, 9), vec![1, 2, 9]);
    assert_eq!(roles_after_arrival(&vec![], 5, 9), vec![9]);
}

#[test]
fn stored_ids_read_unsigned() {
    assert_eq!(destination_ids(&vec![3, -1]), vec![3, u64::MAX]);
}
