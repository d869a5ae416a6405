use strata::columns::{ColumnSnapshot, Page};
use strata::entry::{BrowserMode, EntryKind, FileEntry, MetadataValue, PinStatus};
use strata::events::{
    cancelled_message, event_refreshes_active_path, operation_title, BrowserEvent, EventFacts,
    Handled, OperationKind, Reaction,
};
use strata::input::Direction;
use strata::location::Location;
use strata::mount::{LocationValidationError, MountCredentials, MountStrategy, PasswordSave};
use strata::peek::PeekBehavior;
use strata::rows::{ClickActivation, ClickCount};
use strata::trash::DeleteStep;
use strata::transfer::ProgressDisplay;
use strata::view::{
    density_class, mode_of_page, single_pane_preview_reservation, BrowserDensity, BrowserView,
    Command, FilterStep, NavigationInput, NewEntryStep, NewEntrySubmission, RebuiltColumn, RenameStep,
    RenameSubmission, UndoStep,
};

fn entry(path: &str, kind: EntryKind) -> FileEntry {
    let name = path.rsplit('/').next().unwrap_or(path);
    FileEntry {
        location: Location::local(path),
        native_name: name.to_owned(),
        display_name: name.to_owned(),
        kind,
        size: MetadataValue::Unknown,
        modified_unix_seconds: MetadataValue::Unknown,
        mode: MetadataValue::Unknown,
        is_hidden: false,
    }
}

fn activation() -> ClickActivation {
    ClickActivation { folders: ClickCount::Two, files: ClickCount::Two }
}

fn facts() -> EventFacts {
    EventFacts {
        show_hidden: false,
        active_depth: Some(0),
        focused_column: Some(0),
        selected_rows: vec![1],
        focused_row: Some(1),
        peek_has_room: true,
    }
}

fn view(panes: usize) -> BrowserView {
    let mut view = BrowserView::new(PeekBehavior::default(), activation());
    for depth in 0..panes {
        view.handle(
            BrowserEvent::ColumnAdded { depth, location: Location::local(&format!("/p{depth}")) },
            facts(),
        );
    }
    view
}

fn handle(view: &mut BrowserView, event: BrowserEvent) -> Handled {
    view.handle(event, facts())
}

#[test]
fn a_new_view_shows_columns() {
    let view = view(0);
    assert_eq!(view.view_mode(), BrowserMode::Columns);
    assert!(view.settings.interactive);
    let chooser = BrowserView::new_chooser(false, activation());
    assert!(!chooser.settings.interactive);
    assert!(!chooser.settings.multiple_selection);
    assert_eq!(mode_of_page(Some("list")), BrowserMode::List);
    assert_eq!(mode_of_page(None), BrowserMode::Columns);
    assert_ne!(density_class(BrowserDensity::Compact), density_class(BrowserDensity::Airy));
}

#[test]
fn entries_load_select_and_show() {
    let mut view = view(1);
    view.select_after_load(vec!["a".to_owned()], true);
    assert!(matches!(
        handle(&mut view, BrowserEvent::EntriesPublished { depth: 0, position: 0, count: 3 })
            .reaction,
        Reaction::ChangeRows(0)
    ));
    assert_eq!(view.panes.columns[0].state.entry_count, 3);
    match handle(&mut view, BrowserEvent::LoadFinished { depth: 0, truncated: false }).reaction {
        Reaction::SelectByName { names, properties } => {
            assert_eq!(names, vec!["a".to_owned()]);
            assert!(properties);
        }
        other => panic!("an entry waits to be selected: {other:?}"),
    }
    assert!(matches!(
        handle(&mut view, BrowserEvent::LoadFinished { depth: 0, truncated: false }).reaction,
        Reaction::Nothing
    ));
    assert_eq!(view.panes.columns[0].state.page, Page::Content);
}

#[test]
fn editing_keeps_the_focus() {
    let mut view = view(1);
    let changed = || BrowserEvent::FocusChanged { depth: 0, focus: Some(1) };
    assert!(matches!(
        handle(&mut view, changed()).reaction,
        Reaction::SelectRows { column: 0, scroll_to: Some(1), grab_focus: true, .. }
    ));
    assert_eq!(
        view.begin_rename(Some((0, entry("/p0/a.txt", EntryKind::File))), true),
        RenameStep::Started(1)
    );
    assert!(matches!(
        handle(&mut view, changed()).reaction,
        Reaction::SelectRows { column: 0, scroll_to: None, grab_focus: false, .. }
    ));
}

#[test]
fn a_rename_is_sent_once_it_changes_the_name() {
    let mut view = view(1);
    assert_eq!(view.begin_rename(None, true), RenameStep::NotStarted);
    assert!(matches!(view.submit_rename("b".to_owned()), RenameSubmission::Ignored));
    view.begin_rename(Some((0, entry("/p0/a.txt", EntryKind::File))), true);
    assert!(view.rename_is_active(false));
    match view.submit_rename("b.txt".to_owned()) {
        RenameSubmission::Rename { entry, name } => {
            assert_eq!(entry.display_name, "a.txt");
            assert_eq!(name, "b.txt");
        }
        other => panic!("the name is another: {other:?}"),
    }
    assert!(matches!(
        handle(&mut view, BrowserEvent::RenameFailed { message: "taken".to_owned() }).reaction,
        Reaction::ShowRenameError
    ));
    let rename = view.edits.rename.as_ref().expect("the name can be corrected");
    assert!(rename.sensitive);
    assert_eq!(rename.error.as_deref(), Some("taken"));
    assert!(matches!(view.submit_rename("a.txt".to_owned()), RenameSubmission::Unchanged));
    assert!(!view.rename_is_active(false));
    assert!(!view.cancel_rename(false));
}

#[test]
fn a_new_entry_is_made_in_its_pane() {
    let mut view = view(2);
    assert_eq!(view.create_new_folder(Some(1), Some(0), None), NewEntryStep::Begun(1));
    assert!(matches!(
        view.submit_new_entry("a/b".to_owned(), Some("No slashes")),
        NewEntrySubmission::KeepEditing
    ));
    assert!(matches!(
        view.submit_new_entry(String::new(), None),
        NewEntrySubmission::KeepEditing
    ));
    assert!(view.new_entry_is_active(true));
    match view.submit_new_entry("a".to_owned(), None) {
        NewEntrySubmission::Create { location, name, is_directory } => {
            assert_eq!(location.native_path(), Some("/p1"));
            assert_eq!(name, "a");
            assert!(is_directory);
        }
        other => panic!("the name can be used: {other:?}"),
    }
    assert!(!view.new_entry_is_active(false));
    assert_eq!(
        view.begin_new_entry(5, Location::local("/p5"), false),
        NewEntryStep::Nothing
    );
    assert_eq!(view.begin_new_entry(0, Location::local("/p0"), false), NewEntryStep::Begun(0));
    assert!(view.cancel_new_entry());
    assert!(!view.cancel_new_entry());
}

#[test]
fn closing_panes_ends_what_is_edited_in_them() {
    let mut view = view(2);
    view.begin_new_entry(1, Location::local("/p1"), true);
    assert!(matches!(
        handle(&mut view, BrowserEvent::ColumnsTruncated { len: 1 }).reaction,
        Reaction::ShowActiveLocation
    ));
    assert_eq!(view.panes.columns.len(), 1);
    assert!(!view.edits.editing());
}

#[test]
fn operations_are_shown_until_they_end() {
    let mut view = view(1);
    assert!(matches!(
        handle(&mut view, BrowserEvent::DeletionStarted { total: 20 }).reaction,
        Reaction::ShowProgress { kind: OperationKind::Deleting, at_once: true }
    ));
    handle(&mut view, BrowserEvent::DeletionProgress { completed: 3, total: 20 });
    assert_eq!(
        view.operations.progress.display(),
        ProgressDisplay::Items { completed: 3, total: 20 }
    );
    assert!(matches!(
        handle(&mut view, BrowserEvent::DeletionFinished).reaction,
        Reaction::EndOperation
    ));
    assert_eq!(view.operations.progress.display(), ProgressDisplay::Nothing);
    handle(&mut view, BrowserEvent::ArchiveStarted { total: 0 });
    handle(&mut view, BrowserEvent::ArchiveProgress { completed: 2, total: 9 });
    assert_eq!(
        view.operations.progress.display(),
        ProgressDisplay::Archive { completed: 2, total: 9 }
    );
    assert!(matches!(
        handle(&mut view, BrowserEvent::TransferStarted { total: 2, moving: true }).reaction,
        Reaction::ShowProgress { kind: OperationKind::Moving, at_once: false }
    ));
    match handle(
        &mut view,
        BrowserEvent::TransferFinished { moved_locations: vec![Location::local("/p0/a")] },
    )
    .reaction
    {
        Reaction::EndTransfer(moved) => assert_eq!(moved.len(), 1),
        other => panic!("something was moved: {other:?}"),
    }
    assert_ne!(operation_title(OperationKind::Moving), operation_title(OperationKind::Copying));
}

#[test]
fn a_cancelled_operation_is_told() {
    let told = cancelled_message(1, 0, 2);
    assert_eq!(
        told,
        "1 item completed, 0 items failed, and 2 items not attempted.\n\nCompleted changes were not reverted."
    );
    let mut view = view(1);
    match handle(
        &mut view,
        BrowserEvent::OperationCancelled {
            completed: 1,
            failed: 0,
            not_attempted: 2,
            affected_locations: vec![Location::local("/p0")],
        },
    )
    .reaction
    {
        Reaction::ShowCancelled { told: shown, affected } => {
            assert_eq!(shown, told);
            assert_eq!(affected.len(), 1);
        }
        other => panic!("it was cancelled: {other:?}"),
    }
}

#[test]
fn what_cannot_be_trashed_is_offered_for_deletion() {
    let mut view = view(1);
    let entries = vec![entry("/p0/a", EntryKind::File), entry("/p0/b", EntryKind::File)];
    assert!(matches!(view.request_delete(entries, false), DeleteStep::MoveToTrash(_)));
    match handle(
        &mut view,
        BrowserEvent::OperationCompletedWithErrors {
            message: "no trash".to_owned(),
            retryable_locations: vec![Location::local("/p0/b")],
            has_non_retryable_failures: false,
        },
    )
    .reaction
    {
        Reaction::OfferPermanentDelete { entries, .. } | Reaction::ConfirmDelete(entries) => {
            assert_eq!(entries.len(), 1);
            assert_eq!(entries[0].display_name, "b");
        }
        other => panic!("one entry can be deleted: {other:?}"),
    }
}

#[test]
fn credentials_are_used_once() {
    let mut view = view(1);
    view.operations.credentials = Some(MountCredentials {
        anonymous: false,
        username: "u".to_owned(),
        domain: String::new(),
        password: "p".to_owned(),
        save: PasswordSave::Never,
    });
    let rejected = || BrowserEvent::LocationNavigationRejected {
        error: LocationValidationError::NotMounted(Location::uri("smb://host/s")),
    };
    assert!(matches!(
        handle(&mut view, rejected()).reaction,
        Reaction::Mount {
            parent: None,
            strategy: MountStrategy::EnclosingVolume,
            credentials: Some(_),
            ..
        }
    ));
    assert!(matches!(
        handle(&mut view, rejected()).reaction,
        Reaction::Mount { credentials: None, .. }
    ));
    assert!(matches!(
        handle(
            &mut view,
            BrowserEvent::NavigationRejected {
                parent_depth: 0,
                error: LocationValidationError::Other("gone".to_owned()),
            },
        )
        .reaction,
        Reaction::ShowError { title: "Unable to open directory", .. }
    ));
}

#[test]
fn an_encrypted_archive_asks_for_its_password() {
    let mut view = view(1);
    let archive = entry("/p0/a.zip", EntryKind::File);
    view.extract_entry(&archive, Some(Location::local("/p0")), true);
    match handle(
        &mut view,
        BrowserEvent::OperationFailed { message: "Archive is ENCRYPTED".to_owned() },
    )
    .reaction
    {
        Reaction::AskPassword { archive, destination } => {
            assert_eq!(archive.display_name, "a.zip");
            assert_eq!(destination.native_path(), Some("/p0"));
        }
        other => panic!("the archive is encrypted: {other:?}"),
    }
    assert!(matches!(
        handle(&mut view, BrowserEvent::OperationFailed { message: "full".to_owned() }).reaction,
        Reaction::ShowError { detail, .. } if detail == "full"
    ));
}

#[test]
fn some_events_move_the_mark_of_the_open_path() {
    assert!(event_refreshes_active_path(&BrowserEvent::FocusChanged { depth: 0, focus: None }));
    assert!(!event_refreshes_active_path(&BrowserEvent::PeekFinished));
}

#[test]
fn a_peek_follows_its_events() {
    let mut view = view(1);
    assert!(matches!(
        handle(&mut view, BrowserEvent::PeekStarted { location: Location::local("/p0/d") })
            .reaction,
        Reaction::EndPeek
    ));
    view.peek.schedule(0, Location::local("/p0/d"), false, false);
    assert!(matches!(
        handle(&mut view, BrowserEvent::PeekStarted { location: Location::local("/p0/d") })
            .reaction,
        Reaction::ShowPeek
    ));
    assert!(matches!(
        handle(&mut view, BrowserEvent::PeekFailed { message: "denied".to_owned() }).reaction,
        Reaction::ShowPeekError(text) if text == "Unable to read this directory\ndenied"
    ));
    handle(&mut view, BrowserEvent::PeekClosed);
    assert!(view.peek.shown.is_none());
}

#[test]
fn commands_depend_on_how_the_folder_is_shown() {
    let mut view = view(2);
    assert!(matches!(view.activate_focused(), Command::ActivateFocused { in_place: false }));
    assert!(matches!(view.navigate_left(), Command::FocusParent));
    assert!(matches!(view.navigate_up(Some(1), None, None), Command::CloseColumn(1)));
    assert!(matches!(
        view.navigate_up(None, Some(0), Some(Location::local("/"))),
        Command::Navigate(_)
    ));
    assert!(matches!(view.refresh(), Command::RefreshAll));
    view.pointer_navigation();
    assert!(matches!(view.select_all(Some(1), None), Command::SelectAllRows(1)));
    assert_eq!(view.settings.navigation, NavigationInput::Keyboard);
    assert!(matches!(view.select_all(None, Some(0)), Command::SelectAllRows(0)));
    assert!(matches!(view.select_all(Some(7), Some(0)), Command::Nothing));
    assert!(view.first_column_has_focus(Some(0)));
    assert!(view.item_at_sidebar_edge(Some(0), false));
    assert_eq!(view.focus_header_from_top_item(Some((1, Some(0)))), Some(1));
    assert_eq!(view.focus_header_from_top_item(Some((1, Some(2)))), None);
    assert_eq!(view.move_header_focus(0, Direction::Right), Some(1));
    assert_eq!(view.move_header_focus(1, Direction::Right), None);
    assert_eq!(view.preview_occupied_width(900, &vec![300, 350]), 650);

    let change = view.set_view_mode(BrowserMode::List, Some(1)).expect("the mode is another");
    assert_eq!(change.focus_pane, Some(1));
    assert!(!change.rebuild_columns);
    assert!(view.panes.columns.is_empty());
    assert!(view.set_view_mode(BrowserMode::List, Some(1)).is_none());
    assert!(matches!(view.activate_focused(), Command::ActivateFocused { in_place: true }));
    assert!(matches!(view.navigate_left(), Command::GoToParent));
    assert!(matches!(view.refresh(), Command::ReloadActive));
    assert_eq!(view.preview_occupied_width(901, &vec![]), 450);
    assert_eq!(single_pane_preview_reservation(901), 450);
    let back = view.set_view_mode(BrowserMode::Columns, None).expect("the mode is another");
    assert!(back.rebuild_columns);
    assert_eq!(back.cleared, Some(BrowserMode::List));
}

#[test]
fn refreshing_waits_for_edits() {
    let mut view = view(1);
    assert!(matches!(view.auto_refresh(false), Command::RefreshAll));
    assert!(matches!(view.auto_refresh(true), Command::Nothing));
    view.begin_new_entry(0, Location::local("/p0"), true);
    assert!(matches!(view.auto_refresh(false), Command::Nothing));
}

#[test]
fn deleting_in_the_trash_is_for_good() {
    let mut view = view(1);
    let one = || vec![entry("/p0/a", EntryKind::File)];
    let trash = || Some(Location::uri("trash:///"));
    assert!(view.confirm_delete(vec![], one(), None, None, false).is_none());
    assert!(matches!(
        view.confirm_delete(one(), vec![], None, trash(), false),
        Some(DeleteStep::Confirm(_))
    ));
    assert!(matches!(
        view.confirm_delete(one(), vec![], Some(0), None, true),
        Some(DeleteStep::Confirm(_))
    ));
    assert!(view.operations.pending_delete.is_empty());
    assert!(matches!(
        view.confirm_delete(one(), vec![], Some(0), trash(), false),
        Some(DeleteStep::MoveToTrash(_))
    ));
    assert_eq!(view.operations.pending_delete.len(), 1);
    assert!(matches!(
        view.confirm_delete(one(), vec![], Some(4), trash(), false),
        Some(DeleteStep::Confirm(_))
    ));
    view.set_view_mode(BrowserMode::List, None);
    assert!(view.confirm_delete(one(), vec![], None, None, false).is_none());
    assert!(matches!(
        view.confirm_delete(vec![], one(), None, trash(), false),
        Some(DeleteStep::Confirm(entries)) if entries.len() == 1
    ));
}

#[test]
fn filters_open_and_close_in_their_pane() {
    let mut view = view(2);
    assert_eq!(view.show_filter(Some(1), None), FilterStep::Shown(1));
    assert!(view.panes.columns[1].state.filter_open);
    let captured = view.capture_active_column_filter(Some(1), "q".to_owned()).expect("it is there");
    assert!(captured.revealed);
    assert!(!view.dismiss_empty_focused_filter(Some(1), false, false, false));
    assert!(view.dismiss_empty_focused_filter(Some(1), true, false, false));
    assert!(!view.panes.columns[1].state.filter_open);
    assert!(!view.dismiss_focused_filter(None, false));
    assert_eq!(view.show_filter(None, None), FilterStep::NotShown);
}

#[test]
fn what_is_selected_is_copied_pinned_and_pasted_beside() {
    let view = view(2);
    let file = || entry("/p0/a", EntryKind::File);
    let folder = || entry("/p0/d", EntryKind::Directory);
    assert!(view.copy_selection(&vec![]).is_none());
    assert_eq!(view.copy_selection(&vec![file()]).map(|files| files.len()), Some(1));
    assert_eq!(view.cut_selection(&vec![file()]).map(|files| files.len()), Some(1));
    assert_eq!(
        view.copy_path(&vec![], Some(file())).map(|entries| entries.len()),
        Some(1)
    );
    assert!(view.copy_path(&vec![], None).is_none());
    assert!(view.pin_focused(Some(folder()), Some(PinStatus::Available), true).is_some());
    assert!(view.pin_focused(Some(file()), Some(PinStatus::Available), true).is_none());
    assert!(view.pin_focused(Some(folder()), Some(PinStatus::Pinned), true).is_none());
    let place = view.paste(Some(1), None).expect("the pane is there");
    assert_eq!(place.native_path(), Some("/p1"));
    let terminal = view.open_terminal(&vec![folder()], Some(1), None).expect("a folder");
    assert_eq!(terminal.native_path(), Some("/p0/d"));
    assert_eq!(view.undo_last_operation(true), UndoStep::Move);
    assert_eq!(view.undo_last_operation(false), UndoStep::Trash);
    assert!(matches!(
        view.page_selection(-1, Some(10)),
        Command::PageSelection { direction: -1, items: 10 }
    ));
    assert!(matches!(view.jump_selection(1, false), Command::Nothing));
    assert!(matches!(
        view.synchronize_native_selection(Some((0, 3)), true),
        Command::ExtendSelection { depth: 0, target: 3 }
    ));
    assert!(matches!(
        view.sync_mode_selection(Some(1), None),
        Command::SetActiveColumn(1)
    ));
}

#[test]
fn panes_are_made_anew_from_a_depth_on() {
    let mut view = view(2);
    view.rebuild_columns_from(
        1,
        vec![RebuiltColumn {
            location: Location::local("/q1"),
            show_hidden: true,
            snapshot: ColumnSnapshot {
                count: 3,
                truncated: false,
                loading: false,
                shows_early: false,
            },
            failure: None,
        }],
    );
    assert_eq!(view.panes.columns.len(), 2);
    assert_eq!(view.panes.columns[0].location.native_path(), Some("/p0"));
    assert_eq!(view.panes.columns[1].location.native_path(), Some("/q1"));
    assert_eq!(view.panes.columns[1].state.entry_count, 3);
}

#[test]
fn the_pointer_chooses_the_destination_until_a_key_does() {
    let mut view = view(2);
    view.pointer_navigation();
    view.panes.pointer_entered(1);
    assert!(view.destination_by_pointer(Some(1)));
    assert!(!view.destination_by_pointer(Some(0)));
    view.keyboard_navigation();
    assert!(!view.destination_by_pointer(Some(1)));
    assert!(!view.set_click_activation(
        BrowserMode::Columns,
        ClickActivation { folders: ClickCount::One, files: ClickCount::One }
    ));
    assert_eq!(view.settings.click_activation.folders, ClickCount::One);
    assert!(view.set_peek_enabled(false));
    view.begin_location_edit();
    assert!(view.settings.editing_location);
    view.cancel_location_edit();
    assert!(!view.settings.editing_location);
}
