use strata::columns::{Column, ColumnSnapshot, Page, QueryStep};
use strata::entry::{BrowserMode, EntryKind, FileEntry, Icon, MetadataValue};
use strata::input::{Key, Modifiers};
use strata::location::Location;
use strata::panes::{
    filter_closes, focus_activates, new_folder_destination_depth, Panes, ResizePress, ResizeStep,
    RevealStep, RowSplice,
};
use strata::paths::SearchItem;
use strata::peek::{peek_origin_bounds, Peek, PeekBehavior, PeekOriginBounds, PeekStep};
use strata::rows::{
    context_menu_row, cursor_row, destination_hint, dragged_entries, eligible_results,
    file_row_target, filter_key_pressed, flash_column_parent, is_column_background,
    list_key_pressed, path_mark, press_action, prune_missing_search_results, released,
    row_accepts_drop, row_drop_destination, row_look, row_pressed, search_result_entry,
    selection_of, should_activate_single_click, should_preview_pointer_press, updated_size,
    BackgroundPress, ClickActivation, ClickCount, FilterKeyFacts, FilterKeyStep, ListKeyStep,
    PathMark, PressAction, PressSettings, RowPress, SelectionStep, WidgetKind,
};

const NO_MODIFIERS: Modifiers =
    Modifiers { control: false, shift: false, alt: false, meta: false };
const CONTROL: Modifiers = Modifiers { control: true, shift: false, alt: false, meta: false };
const SHIFT: Modifiers = Modifiers { control: false, shift: true, alt: false, meta: false };

fn entry(name: &str, kind: EntryKind) -> FileEntry {
    FileEntry {
        location: Location::local(&format!("/tmp/{name}")),
        native_name: name.to_owned(),
        display_name: name.to_owned(),
        kind,
        size: MetadataValue::Known(5),
        modified_unix_seconds: MetadataValue::Known(1),
        mode: MetadataValue::Unknown,
        is_hidden: false,
    }
}

fn found(path: &str, is_directory: bool) -> SearchItem {
    SearchItem {
        path: path.to_owned(),
        name: path.rsplit('/').next().unwrap_or(path).to_owned(),
        is_directory,
    }
}

fn panes(count: usize) -> Panes {
    let mut panes = Panes::new();
    for depth in 0..count {
        panes.append_column(Location::local(&format!("/pane{depth}")), false);
    }
    panes
}

#[test]
fn a_pane_shows_its_entries_once_they_are_there() {
    let mut column = Column::open(Location::local("/tmp"), false);
    assert_eq!(column.state.page, Page::Loading);
    assert!(column.state.busy);
    column.entries_added(2);
    assert_eq!(column.state.page, Page::Content);
    assert_eq!(column.state.entry_count, 2);
    column.load_finished(true);
    assert!(column.state.truncated);
    assert!(!column.state.busy);
    assert_eq!(column.filter_hint(), "Filter 2 items…");
    column.entries_spliced(&vec![(2, 0)]);
    assert_eq!(column.state.page, Page::Empty);
    assert_eq!(column.feedback().as_deref(), Some("This directory is empty"));
}

#[test]
fn a_slow_pane_holds_its_entries_back_behind_the_spinner() {
    let mut column = Column::open(Location::local("/tmp"), false);
    column.spinner_delay_passed();
    assert!(column.state.spinner.spinning);
    column.entries_added(2);
    assert_eq!(column.state.page, Page::Loading);
    column.load_finished(false);
    assert_eq!(column.state.page, Page::Content);
    assert!(!column.state.spinner.spinning);
}

#[test]
fn entries_of_two_batches_add_up() {
    let mut twice = Column::open(Location::local("/tmp"), false);
    twice.entries_added(2);
    twice.entries_added(3);
    let mut once = Column::open(Location::local("/tmp"), false);
    once.entries_added(5);
    assert_eq!(twice.state, once.state);
}

#[test]
fn a_pane_that_cannot_be_read_says_so() {
    let mut column = Column::open(Location::local("/root"), false);
    column.load_failed("denied".to_owned());
    assert_eq!(column.state.page, Page::Failed);
    assert_eq!(column.feedback().as_deref(), Some("Unable to read this directory\ndenied"));
}

#[test]
fn the_trash_can_be_emptied_once_something_is_in_it() {
    let mut trash = Column::open(Location::uri("trash:///"), false);
    assert_eq!(trash.state.empty_trash, Some(false));
    trash.entries_replaced(3);
    assert_eq!(trash.state.empty_trash, Some(true));
    assert_eq!(Column::open(Location::local("/tmp"), false).state.empty_trash, None);
}

#[test]
fn results_of_an_ended_search_are_not_taken() {
    let mut column = Column::open(Location::local("/tmp"), false);
    match column.query_settled(" a ") {
        QueryStep::Search { query, begins } => {
            assert_eq!(query, "a");
            assert!(begins);
        }
        QueryStep::Listing => panic!("there is a text to search"),
    }
    let number = column.state.search_number;
    assert!(column.takes_results(number, "a", " a "));
    assert!(!column.takes_results(number, "a", "ab"));
    assert!(matches!(column.query_settled("ab"), QueryStep::Search { begins: false, .. }));
    assert!(matches!(column.query_settled("  "), QueryStep::Listing));
    assert!(!column.takes_results(number, "ab", "ab"));
    let mut remote = Column::open(Location::uri("smb://host/s"), false);
    assert!(matches!(remote.query_settled("a"), QueryStep::Listing));
}

#[test]
fn a_pane_made_anew_shows_what_is_known() {
    let mut column = Column::open(Location::local("/tmp"), false);
    column.rebuild(
        ColumnSnapshot { count: 4, truncated: true, loading: false, shows_early: false },
        None,
    );
    assert_eq!(column.state.page, Page::Content);
    assert_eq!(column.state.entry_count, 4);
    assert!(column.state.truncated);
    column.rebuild(
        ColumnSnapshot { count: 0, truncated: false, loading: false, shows_early: false },
        Some("denied".to_owned()),
    );
    assert_eq!(column.state.page, Page::Failed);
}

#[test]
fn the_focus_is_one_of_the_selected_rows() {
    let mut column = Column::open(Location::local("/tmp"), false);
    column.load_finished(false);
    match column.selection_changed(vec![1, 3], 3, 1, true) {
        SelectionStep::Rows { rows, focused, narrowed } => {
            assert_eq!(rows, vec![1, 3]);
            assert_eq!(focused, Some(3));
            assert!(!narrowed);
        }
        other => panic!("rows are selected: {other:?}"),
    }
    match column.selection_changed(vec![1, 3], 1, 1, false) {
        SelectionStep::Rows { rows, focused, narrowed } => {
            assert_eq!(rows, vec![1]);
            assert_eq!(focused, Some(1));
            assert!(narrowed);
        }
        other => panic!("one row may be selected: {other:?}"),
    }
    match column.selection_changed(vec![], 0, 5, true) {
        SelectionStep::Rows { focused, .. } => assert_eq!(focused, None),
        other => panic!("nothing is selected: {other:?}"),
    }
    column.reloaded();
    assert!(matches!(column.selection_changed(vec![0], 0, 1, true), SelectionStep::Ignored));
    assert_eq!(selection_of(&vec![(0, 4), (2, 7)], Some(2)), (vec![4, 7], Some(7)));
    assert_eq!(selection_of(&vec![(0, 4)], Some(9)), (vec![4], None));
}

#[test]
fn presses_with_modifiers_only_select() {
    let range = row_pressed(Some(2), 5, false, 1, SHIFT);
    assert_eq!(range.selection, RowPress::Range { start: 2, count: 4 });
    assert_eq!(range.anchor, Some(2));
    assert!(range.claimed);
    assert_eq!(row_pressed(Some(5), 2, false, 1, SHIFT).selection, RowPress::Range { start: 2, count: 4 });
    assert_eq!(row_pressed(None, 4, true, 2, CONTROL).selection, RowPress::Remove);
    assert_eq!(row_pressed(None, 4, false, 2, CONTROL).selection, RowPress::Add);
    let kept = row_pressed(None, 4, true, 2, NO_MODIFIERS);
    assert_eq!(kept.selection, RowPress::Keep);
    assert!(kept.preserves_group);
    assert_eq!(row_pressed(None, 4, true, 1, NO_MODIFIERS).selection, RowPress::Only);
}

#[test]
fn one_click_opens_what_is_set_to_open_so() {
    let activation = ClickActivation { folders: ClickCount::One, files: ClickCount::Two };
    assert!(should_activate_single_click(1, true, activation, false, false, false));
    assert!(!should_activate_single_click(1, false, activation, false, false, false));
    assert!(!should_activate_single_click(2, true, activation, false, false, false));
    assert!(!should_activate_single_click(1, true, activation, true, false, false));
    assert!(should_preview_pointer_press(1, false, false, false));
    assert!(!should_preview_pointer_press(1, false, false, true));
    let settings = PressSettings { activation, previews_enabled: true };
    let folder = entry("d", EntryKind::Directory);
    let mut pending =
        match press_action(Some(&folder), 3, 1, NO_MODIFIERS, false, settings, false) {
            PressAction::AwaitRelease(pending) => pending,
            other => panic!("the folder opens on release: {other:?}"),
        };
    assert!(pending.can_activate(&folder.location));
    pending.update(true);
    pending.update(false);
    assert!(!pending.can_activate(&folder.location));
    assert_eq!(released(Some(pending), Some(&folder)), None);
    match press_action(Some(&folder), 3, 1, NO_MODIFIERS, false, settings, false) {
        PressAction::AwaitRelease(pending) => {
            assert_eq!(released(Some(pending), Some(&folder)), Some(3));
        }
        other => panic!("the folder opens on release: {other:?}"),
    }
    let file = entry("f", EntryKind::File);
    assert!(matches!(
        press_action(Some(&file), 2, 1, NO_MODIFIERS, false, settings, true),
        PressAction::Preview(2)
    ));
    assert!(matches!(
        press_action(None, 2, 1, NO_MODIFIERS, false, settings, true),
        PressAction::Nothing
    ));
}

#[test]
fn keys_lead_from_the_filter_to_the_rows_and_back() {
    let facts = FilterKeyFacts {
        searching: false,
        query_is_blank: false,
        current: None,
        current_source: None,
        row_count: 2,
    };
    assert_eq!(filter_key_pressed(facts, Key::Down, NO_MODIFIERS), FilterKeyStep::SelectRow(0));
    assert_eq!(filter_key_pressed(facts, Key::Up, NO_MODIFIERS), FilterKeyStep::Stop);
    assert_eq!(filter_key_pressed(facts, Key::Return, NO_MODIFIERS), FilterKeyStep::Proceed);
    let focused = FilterKeyFacts { current: Some(1), current_source: Some(6), ..facts };
    assert_eq!(filter_key_pressed(focused, Key::Return, NO_MODIFIERS), FilterKeyStep::Activate(6));
    let searching = FilterKeyFacts { searching: true, ..focused };
    assert_eq!(filter_key_pressed(searching, Key::Right, NO_MODIFIERS), FilterKeyStep::OpenResult(1));
    assert_eq!(filter_key_pressed(searching, Key::Right, CONTROL), FilterKeyStep::Proceed);
    assert_eq!(
        list_key_pressed(true, Key::Up, NO_MODIFIERS, false, &vec![0]),
        ListKeyStep::ReturnToFilter
    );
    assert_eq!(
        list_key_pressed(true, Key::Up, NO_MODIFIERS, false, &vec![1]),
        ListKeyStep::Navigate
    );
    assert_eq!(
        list_key_pressed(false, Key::Up, NO_MODIFIERS, false, &vec![0]),
        ListKeyStep::Proceed
    );
}

#[test]
fn rows_look_like_what_they_show() {
    let file = entry("a.png", EntryKind::File);
    let look = row_look(Some(&file), false, true, true);
    assert_eq!(look.icon, Icon::Pictures);
    assert_eq!(look.size, Some(5));
    assert!(!look.chevron);
    assert!(!look.requests_metadata);
    let unread = FileEntry {
        modified_unix_seconds: MetadataValue::Unknown,
        ..entry("a.png", EntryKind::File)
    };
    assert!(row_look(Some(&unread), false, true, true).requests_metadata);
    let folder = row_look(Some(&entry("d", EntryKind::Directory)), true, true, true);
    assert!(folder.chevron);
    assert_eq!(folder.size, None);
    assert!(folder.origin);
    assert_eq!(row_look(None, true, true, true).icon, Icon::Documents);
    let updates = vec![(2, entry("x", EntryKind::File)), (3, entry("d", EntryKind::Directory))];
    assert_eq!(updated_size(&updates, 2), Some(Some(5)));
    assert_eq!(updated_size(&updates, 3), Some(None));
    assert_eq!(updated_size(&updates, 4), None);
}

#[test]
fn drags_carry_the_selection_they_begin_in() {
    let selected = vec![entry("a", EntryKind::File), entry("b", EntryKind::File)];
    assert_eq!(dragged_entries(&entry("b", EntryKind::File), &selected).len(), 2);
    assert_eq!(dragged_entries(&entry("c", EntryKind::File), &selected).len(), 1);
    let folder = entry("d", EntryKind::Directory);
    assert!(row_accepts_drop(Some(&folder), true));
    assert!(!row_accepts_drop(Some(&folder), false));
    assert!(!row_accepts_drop(Some(&entry("f", EntryKind::File)), true));
    assert_eq!(
        row_drop_destination(Some(&folder)).and_then(|place| place.native_path().map(str::to_owned)),
        Some("/tmp/d".to_owned())
    );
    assert!(row_drop_destination(None).is_none());
}

#[test]
fn the_open_path_is_marked() {
    assert_eq!(path_mark(3, Some(3), 0, Some(1)), PathMark::ActiveParent);
    assert_eq!(path_mark(3, Some(3), 0, Some(2)), PathMark::ActivePath);
    assert_eq!(path_mark(2, Some(3), 0, Some(1)), PathMark::Unmarked);
    assert_eq!(cursor_row(1, Some(1), Some(1), Some(4)), Some(4));
    assert_eq!(cursor_row(1, Some(0), Some(1), Some(4)), None);
    assert_eq!(destination_hint(true, true), "Pointer · Paste here");
    assert_eq!(destination_hint(true, false), "Keyboard · Paste here");
    assert_eq!(destination_hint(false, true), "");
    assert_eq!(flash_column_parent(2, 3, Some(5)), Some((1, 5)));
    assert_eq!(flash_column_parent(0, 3, Some(5)), None);
}

#[test]
fn search_results_are_kept_while_they_exist() {
    let results = || vec![found("/a", true), found("/b.txt", false)];
    let kept = prune_missing_search_results(&results(), &vec![false, true]).expect("one is gone");
    assert_eq!(kept.len(), 1);
    assert_eq!(kept[0].path, "/b.txt");
    assert!(prune_missing_search_results(&results(), &vec![true, true]).is_none());
    assert_eq!(eligible_results(&results(), &vec![true, false]).len(), 1);
    let shown = search_result_entry(&results()[1]);
    assert_eq!(shown.display_name, "b.txt");
    assert_eq!(shown.kind, EntryKind::File);
    assert_eq!(context_menu_row(true, &vec![1, 4], Some(9)), Some(4));
    assert_eq!(context_menu_row(false, &vec![1, 4], Some(9)), Some(9));
}

#[test]
fn a_press_on_the_background_returns_to_the_pane() {
    let mut press = BackgroundPress::new();
    press.pressed(0, Some(2), true);
    assert!(press.released(false, false));
    assert_eq!(press.selection_cleared(false, Some(3)), Some(3));
    assert_eq!(press.selection_cleared(false, Some(3)), None);
    press.pressed(2, Some(2), true);
    press.stopped();
    assert!(!press.released(false, false));
    assert!(is_column_background(&vec![WidgetKind::Other, WidgetKind::Surface]));
    assert!(!is_column_background(&vec![WidgetKind::Control, WidgetKind::Surface]));
    assert_eq!(file_row_target(&vec![WidgetKind::Other, WidgetKind::FileRow]), Some(1));
    assert_eq!(file_row_target(&vec![WidgetKind::List, WidgetKind::FileRow]), None);
}

#[test]
fn panes_that_close_leave_no_trace() {
    let mut panes = panes(3);
    panes.pointer_entered(2);
    assert_eq!(panes.hovered, Some(2));
    panes.truncate(2);
    assert_eq!(panes.columns.len(), 2);
    assert_eq!(panes.hovered, None);
    panes.pointer_entered(1);
    panes.pointer_left(0);
    assert_eq!(panes.hovered, Some(1));
    panes.pointer_left(1);
    assert_eq!(panes.hovered, None);
}

#[test]
fn a_change_of_one_pane_is_none_of_the_others() {
    let mut panes = panes(2);
    let before = panes.columns[0].state;
    panes.entries_inserted(1, &vec![(0, 2), (5, 1)]);
    panes.entries_spliced(1, &vec![RowSplice { position: 0, removed: 1, added: 3 }]);
    assert_eq!(panes.columns[1].state.entry_count, 5);
    panes.load_failed(7, "nowhere".to_owned());
    assert_eq!(panes.columns[0].state, before);
    panes.hidden_toggled(true);
    assert!(panes.columns.iter().all(|column| column.state.show_hidden));
    panes.sorting_started(0);
    assert!(panes.columns[0].state.spinner.sorting);
    panes.sorting_finished(0);
    assert!(!panes.columns[0].state.spinner.sorting);
}

#[test]
fn one_filter_is_open() {
    let mut panes = panes(3);
    panes.filter_toggled(0, true);
    panes.filter_toggled(2, true);
    let open: Vec<bool> = panes.columns.iter().map(|column| column.state.filter_open).collect();
    assert_eq!(open, vec![false, false, true]);
    panes.filter_toggled(2, false);
    assert!(panes.columns.iter().all(|column| !column.state.filter_open));
    assert!(filter_closes(false, true, false));
    assert!(!filter_closes(true, true, false));
    assert!(!filter_closes(false, true, true));
}

#[test]
fn new_folders_go_to_the_focus_the_active_pane_or_the_last() {
    assert_eq!(new_folder_destination_depth(Some(1), Some(0), 3), Some(1));
    assert_eq!(new_folder_destination_depth(Some(5), Some(0), 3), Some(0));
    assert_eq!(new_folder_destination_depth(None, None, 3), Some(2));
    assert_eq!(new_folder_destination_depth(None, None, 0), None);
    assert!(focus_activates(1, None, false));
    assert!(focus_activates(1, Some(1), false));
    assert!(!focus_activates(1, Some(0), false));
    assert!(!focus_activates(1, None, true));
}

#[test]
fn a_pane_scrolls_into_view_once_it_has_a_place() {
    let panes = panes(2);
    let number = panes.scroll_number;
    assert_eq!(panes.reveal_column(number, true, 300, true), RevealStep::Scroll);
    assert_eq!(panes.reveal_column(number, true, 0, true), RevealStep::Wait);
    assert_eq!(panes.reveal_column(number, false, 300, true), RevealStep::Stop);
    assert_eq!(panes.reveal_column(number + 1, true, 300, true), RevealStep::Stop);
    assert_eq!(panes.focus_rebuilt_active_column(Some(1), Some(1), Some(4)), Some((1, Some(4))));
    assert_eq!(panes.focus_rebuilt_active_column(Some(1), Some(0), Some(4)), Some((1, None)));
    assert_eq!(panes.focus_rebuilt_active_column(Some(9), None, None), None);
}

#[test]
fn a_second_press_on_an_edge_fits_the_pane() {
    let mut press = ResizePress::new();
    assert_eq!(press.pressed(0, 1_000_000, 350, 500), ResizeStep::Drag(350));
    assert_eq!(press.pressed(0, 1_300_000, 350, 500), ResizeStep::Fit(500));
    assert_eq!(press.pressed(1, 1_400_000, 100, 100), ResizeStep::Drag(300));
    assert_eq!(press.pressed(1, 2_400_000, 350, 500), ResizeStep::Drag(350));
}

#[test]
fn a_peek_shows_the_first_entries_of_a_folder() {
    let behavior = PeekBehavior { item_limit: 2, ..PeekBehavior::default() };
    let mut peek = Peek::new(behavior);
    assert_eq!(peek.schedule(1, Location::local("/d"), true, false), PeekStep::Nothing);
    assert_eq!(peek.schedule(1, Location::local("/d"), false, true), PeekStep::Close);
    assert_eq!(peek.schedule(1, Location::local("/d"), false, false), PeekStep::Wait);
    assert!(peek.open_delay_passed().is_some());
    assert!(peek.open_delay_passed().is_none());
    assert!(peek.append(Location::local("/d"), true));
    peek.entries_added(vec![entry("a", EntryKind::File)]);
    peek.entries_added(vec![entry("b", EntryKind::File), entry("c", EntryKind::File)]);
    peek.finished();
    let shown = peek.shown.as_ref().expect("the peek is open");
    let names: Vec<&str> = shown.entries.iter().map(|entry| entry.display_name.as_str()).collect();
    assert_eq!(names, vec!["a", "b"]);
    assert_eq!(shown.page, Page::Content);
    assert!(!shown.spinning);
    assert_eq!(peek.schedule(1, Location::local("/d"), false, false), PeekStep::Nothing);
    peek.schedule_close();
    peek.entered();
    assert!(!peek.close_delay_passed());
    peek.schedule_close();
    assert!(peek.close_delay_passed());
    assert!(peek.set_enabled(false));
    assert_eq!(peek.schedule(1, Location::local("/e"), false, false), PeekStep::Nothing);
    assert!(!peek.append(Location::local("/e"), true));
}

#[test]
fn a_peek_opens_beside_its_pane_or_its_row() {
    assert_eq!(peek_origin_bounds(BrowserMode::Columns), PeekOriginBounds::Column);
    assert_eq!(peek_origin_bounds(BrowserMode::Icons), PeekOriginBounds::Anchor);
}
