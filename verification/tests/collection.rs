use strata::collection::{
    apply_filter_query, filter_change_for, filter_placeholder, notify_filter_query, plan_selection,
    rebuild_position_map, recursive_search_activation_key, search_result_navigation_position,
    FilterChange, FilterDebounce, FilterUpdate, RowCounts, ScrollStep, ScrollWait, SelectionPlan,
    ViewMap, NO_FILTERED_POSITION,
};
use strata::input::Key;

fn mapped_source(values: &[&str]) -> Vec<Option<String>> {
    values.iter().map(|value| Some((*value).to_owned())).collect()
}

#[test]
fn recursive_search_arrows_select_and_clamp_results() {
    assert_eq!(search_result_navigation_position(None, 3, 1), Some(0));
    assert_eq!(search_result_navigation_position(None, 3, -1), Some(2));
    assert_eq!(search_result_navigation_position(Some(0), 3, -1), Some(0));
    assert_eq!(search_result_navigation_position(Some(1), 3, 1), Some(2));
    assert_eq!(search_result_navigation_position(Some(2), 3, 1), Some(2));
    assert_eq!(search_result_navigation_position(None, 0, 1), None);
}

#[test]
fn recursive_search_activation_accepts_enter_and_right_arrow() {
    assert!(recursive_search_activation_key(Key::Return));
    assert!(recursive_search_activation_key(Key::KeypadEnter));
    assert!(recursive_search_activation_key(Key::Right));
    assert!(!recursive_search_activation_key(Key::Left));
    assert!(!recursive_search_activation_key(Key::Down));
}

#[test]
fn unfiltered_visible_listings_keep_source_order() {
    let source = mapped_source(&["fv\ta", "fv\tb", "fv\tc"]);
    let map = rebuild_position_map(&source, "", true, 1);
    assert_eq!(map.forward, vec![0, 1, 2]);
    assert_eq!(map.reverse, vec![0, 1, 2]);
}

#[test]
fn hidden_entries_are_omitted_from_the_position_map() {
    let source = mapped_source(&["fv\talpha", "dh\t.secret", "fv\tzulu"]);
    let map = rebuild_position_map(&source, "", false, 1);
    assert_eq!(map.forward, vec![0, 2]);
    assert_eq!(map.reverse[0], 0);
    assert_eq!(map.reverse[1], NO_FILTERED_POSITION);
    assert_eq!(map.reverse[2], 1);
}

#[test]
fn filter_queries_keep_matches_near_the_end() {
    let source = mapped_source(&["fv\talpha", "fv\tbeta", "fv\tzulu"]);
    let map = rebuild_position_map(&source, "zu", true, 4);
    assert_eq!(map.forward, vec![2]);
    assert_eq!(map.query, "zu");
    assert_eq!(map.generation, 4);
}

#[test]
fn filter_change_for_classifies_tightening_and_loosening() {
    assert_eq!(filter_change_for("", "a"), FilterChange::MoreStrict);
    assert_eq!(filter_change_for("a", "ab"), FilterChange::MoreStrict);
    assert_eq!(filter_change_for("ab", "a"), FilterChange::LessStrict);
    assert_eq!(filter_change_for("a", ""), FilterChange::LessStrict);
    assert_eq!(filter_change_for("a", "b"), FilterChange::Different);
    assert_eq!(filter_change_for("ab", "ac"), FilterChange::Different);
}

#[test]
fn notify_filter_query_skips_unchanged_folded_text() {
    let mut query = String::new();
    let mut emissions = 0u32;

    emissions += u32::from(notify_filter_query(&mut query, "Abc").is_some());
    assert_eq!(query.as_str(), "abc");
    assert_eq!(emissions, 1);

    emissions += u32::from(notify_filter_query(&mut query, "ABC").is_some());
    assert_eq!(query.as_str(), "abc");
    assert_eq!(emissions, 1);
}

#[test]
fn a_filter_is_installed_for_a_query_and_removed_without_one() {
    let mut query = String::new();
    assert_eq!(apply_filter_query(&mut query, "a".to_owned()), FilterUpdate::Install);
    assert_eq!(query, "a");
    assert_eq!(
        apply_filter_query(&mut query, "ab".to_owned()),
        FilterUpdate::Change(FilterChange::MoreStrict)
    );
    assert_eq!(apply_filter_query(&mut query, String::new()), FilterUpdate::Remove);
    assert_eq!(query, "");
}

#[test]
fn a_map_of_rows_reads_both_ways() {
    let source = mapped_source(&["fv\talpha", "dh\t.secret", "fv\tzulu"]);
    let rows = RowCounts { filtered: 2, placeholders: 0 };
    let mut map = ViewMap::new(String::new(), false, 1);
    assert_eq!(map.source_position(&source, rows, 1), Some(2));
    assert_eq!(map.view_position(&source, rows, 2), Some(1));
    assert_eq!(map.view_position(&source, rows, 1), None);
    assert_eq!(map.source_position(&source, rows, 2), None);
    assert_eq!(map.source_positions(&source, rows, &vec![0, 1]), vec![(0, 0), (1, 2)]);
    assert_eq!(map.view_rows(&source, rows, &vec![2, 1, 0]), vec![1, 0]);
}

#[test]
fn selections_are_made_in_one_step_where_they_can_be() {
    assert!(matches!(plan_selection(3, &vec![0, 1, 2]), SelectionPlan::All));
    assert!(matches!(
        plan_selection(5, &vec![1, 2, 3]),
        SelectionPlan::Range { position: 1, count: 3 }
    ));
    match plan_selection(5, &vec![0, 2]) {
        SelectionPlan::Items(items) => assert_eq!(items, vec![0, 2]),
        other => panic!("the rows have a gap: {other:?}"),
    }
}

#[test]
fn a_scroll_waits_for_a_layout_and_gives_up() {
    let mut wait = ScrollWait::new();
    assert_eq!(wait.tick(true, false, false), ScrollStep::Scroll);
    let mut waits = 0;
    let mut wait = ScrollWait::new();
    while wait.tick(false, false, false) == ScrollStep::Wait {
        waits += 1;
        assert!(waits < 100);
    }
    assert_eq!(waits, 7);
}

#[test]
fn only_the_last_text_of_a_filter_settles() {
    let mut debounce = FilterDebounce::new();
    debounce.changed("a".to_owned());
    debounce.changed("ab".to_owned());
    assert_eq!(debounce.settled().as_deref(), Some("ab"));
    assert_eq!(debounce.settled(), None);
}

#[test]
fn the_filter_counts_what_it_filters() {
    assert_eq!(filter_placeholder(1), "Filter 1 item…");
    assert_eq!(filter_placeholder(12), "Filter 12 items…");
}
