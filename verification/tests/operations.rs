use strata::archive::{
    confirm_extract_to, extract_base, extract_entry, extract_with_password, start_compression,
    ArchiveAction, ArchiveFormat, CompressDialog, CompressionStart, ExtractStart, ExtractToStep,
    ReplaceInput, ReplaceStep,
};
use strata::entry::{EntryKind, FileEntry, MetadataValue};
use strata::input::{Direction, Key, Modifiers};
use strata::location::Location;
use strata::permissions::{
    format_permissions, is_executable, permission_bit_label, permission_mask, toggled_permission,
    with_execute_permissions, PermissionEditor, Right, Subject,
};
use strata::transfer::{
    archive_status_text, arriving_names, duplicate_transfer, is_indeterminate, items_copied_text,
    start_transfer, transfer_conflict_explanation, transfer_has_collision,
    transfer_progress_status, undo_conflict_explanation, undo_move, ConfirmStep, ConflictChoice,
    FieldMessage, MoveRecord, OperationProgress, PendingTransferStep, PendingUndoStep, PreparationStep,
    ProgressDisplay, PromptInput, TransferConflict, TransferDialog, TransferStatus,
};
use strata::trash::{
    delete_confirmation, delete_confirmation_key, empty_trash_error_summary, empty_trash_key,
    empty_trash_status, empty_trash_subtitle, measured_text, measures_trash,
    move_to_trash_is_visible, permanently_delete_is_visible, request_delete,
    trash_summary_outcome, ConfirmationKeyStep, DeleteConfirmationFocus, DeleteStep,
    DeletedEntrySize, EmptyTrashKeyStep, EmptyTrashOutcome, TrashEntry, TrashEntryKind,
    TrashSummary, TrashSummaryOutcome, TrashWalk, WalkStep,
};

const NO_MODIFIERS: Modifiers =
    Modifiers { control: false, shift: false, alt: false, meta: false };

fn folder() -> Location {
    Location::local("/a")
}

fn entry(path: &str, kind: EntryKind) -> FileEntry {
    let name = path.rsplit('/').next().unwrap_or(path);
    FileEntry {
        location: Location::local(path),
        native_name: name.to_owned(),
        display_name: name.to_owned(),
        kind,
        size: MetadataValue::Known(7),
        modified_unix_seconds: MetadataValue::Unknown,
        mode: MetadataValue::Unknown,
        is_hidden: false,
    }
}

fn trashed(kind: TrashEntryKind, size: i64) -> TrashEntry {
    TrashEntry { kind, is_symlink: false, size }
}

#[test]
fn permissions_are_shown_in_letters_and_digits() {
    assert_eq!(format_permissions(0o100644), "-rw-r--r--  644");
    assert_eq!(format_permissions(0o040755), "drwxr-xr-x  755");
    assert_eq!(format_permissions(0), "----------  000");
}

#[test]
fn permissions_are_changed_one_by_one() {
    let mask = permission_mask(Subject::Group, Right::Write);
    assert_eq!(mask, 0o020);
    assert_eq!(toggled_permission(0o644, mask), 0o664);
    assert_eq!(toggled_permission(toggled_permission(0o644, mask), mask), 0o644);
    assert_eq!(permission_bit_label(0o664, Subject::Group, Right::Write), 'w');
    assert_eq!(permission_bit_label(0o644, Subject::Group, Right::Write), '—');
}

#[test]
fn execution_is_for_everyone_or_no_one() {
    assert_eq!(with_execute_permissions(0o644, true), 0o755);
    assert_eq!(with_execute_permissions(0o755, false), 0o644);
    assert!(is_executable(0o100));
    assert!(!is_executable(0o666));
}

#[test]
fn a_change_of_permissions_is_made_or_undone() {
    let mut editor = PermissionEditor::new();
    assert!(!editor.is_sensitive());
    assert_eq!(editor.bit_clicked(Subject::Owner, Right::Execute), None);
    editor.loaded(0o644);
    assert!(editor.is_sensitive());
    assert_eq!(editor.bit_clicked(Subject::Owner, Right::Execute), Some(0o744));
    assert_eq!(editor.request(0o600), None);
    editor.change_ended(false);
    assert_eq!(editor.mode, Some(0o644));
    assert_eq!(editor.executable_toggled(true, true), None);
    assert_eq!(editor.executable_toggled(true, false), Some(0o755));
    editor.change_ended(true);
    assert_eq!(editor.mode, Some(0o755));
}

#[test]
fn the_trash_is_measured_to_its_depth() {
    let mut walk = TrashWalk::begin();
    assert_eq!(walk.offer(trashed(TrashEntryKind::Regular, 10), false, false), WalkStep::Next);
    assert_eq!(walk.offer(trashed(TrashEntryKind::Directory, 4096), false, false), WalkStep::Open);
    assert_eq!(walk.offer(trashed(TrashEntryKind::Regular, 5), false, false), WalkStep::Next);
    assert_eq!(walk.directory_ended(), WalkStep::Close);
    assert_eq!(walk.directory_ended(), WalkStep::Finished);
    assert_eq!(
        walk.summary(),
        TrashSummary { item_count: 3, total_size: 15, truncated: false }
    );
}

#[test]
fn a_walk_through_the_trash_keeps_its_budget() {
    let mut walk = TrashWalk::begin_with_budget(1, 8);
    assert_eq!(walk.offer(trashed(TrashEntryKind::Regular, 1), false, false), WalkStep::Next);
    assert_eq!(walk.offer(trashed(TrashEntryKind::Regular, 2), false, false), WalkStep::Finished);
    assert_eq!(
        walk.summary(),
        TrashSummary { item_count: 1, total_size: 1, truncated: true }
    );
}

#[test]
fn a_late_walk_through_the_trash_is_marked() {
    let mut walk = TrashWalk::begin();
    assert_eq!(walk.batch_ended(false), WalkStep::Next);
    assert_eq!(walk.batch_ended(true), WalkStep::Finished);
    assert!(walk.summary().truncated);
}

#[test]
fn a_folder_that_cannot_be_listed_counts_alone() {
    let mut walk = TrashWalk::begin();
    assert_eq!(walk.offer(trashed(TrashEntryKind::Directory, 0), false, false), WalkStep::Open);
    assert_eq!(walk.offer(trashed(TrashEntryKind::Regular, 9), false, false), WalkStep::Next);
    assert_eq!(walk.directory_failed(), Some(WalkStep::Close));
    assert_eq!(walk.directory_failed(), None);
    assert_eq!(
        walk.summary(),
        TrashSummary { item_count: 1, total_size: 0, truncated: true }
    );
}

#[test]
fn the_question_before_emptying_the_trash() {
    let exact = TrashSummary { item_count: 3, total_size: 15, truncated: false };
    let partial = TrashSummary { item_count: 1, total_size: 15, truncated: true };
    assert_eq!(empty_trash_subtitle(exact, "15 B"), "3 items · 15 B will be reclaimed");
    assert_eq!(
        empty_trash_subtitle(partial, "15 B"),
        "At least 1 item · at least 15 B will be reclaimed"
    );
    assert_eq!(measured_text(exact, "15 B"), "15 B");
    assert_eq!(measured_text(partial, "15 B"), "≥ 15 B");
    assert!(measures_trash(None));
    assert!(measures_trash(Some(2)));
    assert!(!measures_trash(Some(0)));
    assert!(matches!(trash_summary_outcome(Ok(exact)), TrashSummaryOutcome::Confirm(_)));
    assert!(matches!(
        trash_summary_outcome(Ok(TrashSummary { item_count: 0, total_size: 0, truncated: false })),
        TrashSummaryOutcome::Nothing
    ));
    assert!(matches!(
        trash_summary_outcome(Err("gone".to_owned())),
        TrashSummaryOutcome::Error(message) if message == "gone"
    ));
}

#[test]
fn errors_of_emptying_the_trash_are_listed_up_to_a_bound() {
    let mut outcome = EmptyTrashOutcome::new();
    outcome.record("kept", None);
    outcome.record("first", Some("denied"));
    assert_eq!(outcome.processed(), 2);
    assert_eq!(
        empty_trash_error_summary(&outcome),
        "1 item could not be deleted. The remaining items were processed.\n\n• first: denied"
    );
    for _ in 0..9 {
        outcome.record("more", Some("denied"));
    }
    assert_eq!(outcome.errors.len(), 8);
    assert!(empty_trash_error_summary(&outcome).ends_with("\n\n…and 2 more"));
    assert_eq!(empty_trash_status(2), "2 items deleted");
}

#[test]
fn deleting_for_good_is_confirmed() {
    let entries =
        || vec![entry("/tmp/a", EntryKind::File), entry("/tmp/b", EntryKind::Directory)];
    assert!(matches!(request_delete(entries(), true), DeleteStep::Confirm(asked) if asked.len() == 2));
    assert!(matches!(
        request_delete(entries(), false),
        DeleteStep::MoveToTrash(moved) if moved.len() == 2
    ));
    let question = delete_confirmation(&entries());
    assert_eq!(question.title, "Permanently delete 2 items?");
    assert_eq!(question.confirm_label, "Permanently delete 2 items");
    assert_eq!(question.sizes, vec![DeletedEntrySize::Bytes(7), DeletedEntrySize::Folder]);
    assert!(!question.scrolls);
    assert_eq!(delete_confirmation_key(Key::Escape, NO_MODIFIERS), ConfirmationKeyStep::Dismiss);
    assert_eq!(delete_confirmation_key(Key::Return, NO_MODIFIERS), ConfirmationKeyStep::Confirm);
    assert_eq!(
        delete_confirmation_key(Key::L, NO_MODIFIERS),
        ConfirmationKeyStep::Focus(DeleteConfirmationFocus::Confirm)
    );
    assert_eq!(
        delete_confirmation_key(Key::L, Modifiers { control: true, ..NO_MODIFIERS }),
        ConfirmationKeyStep::Ignore
    );
    assert_eq!(
        empty_trash_key(Key::J, NO_MODIFIERS),
        EmptyTrashKeyStep::MoveFocus(Direction::Down)
    );
    assert_eq!(empty_trash_key(Key::Escape, NO_MODIFIERS), EmptyTrashKeyStep::Dismiss);
}

#[test]
fn the_trash_offers_permanent_deletion_in_the_place_of_trashing() {
    assert!(move_to_trash_is_visible(true, Some(false)));
    assert!(!move_to_trash_is_visible(false, Some(false)));
    assert!(move_to_trash_is_visible(false, None));
    assert!(!permanently_delete_is_visible(true, Some(true)));
    assert!(permanently_delete_is_visible(false, None));
    assert!(!permanently_delete_is_visible(false, Some(false)));
}

#[test]
fn a_transfer_asks_for_what_collides_and_keeps_the_rest() {
    let sources =
        vec![Location::local("/a/x"), Location::local("/a/y"), Location::local("/a/z")];
    let start =
        start_transfer(Location::local("/b"), &sources, true, &vec![true, false, true]).items;
    assert_eq!(start.next_step(), PreparationStep::Ask { has_more: true });
    let after = start.decide(ConflictChoice::Skip, false);
    assert_eq!(after.next_step(), PreparationStep::Ask { has_more: false });
    let after = after.decide(ConflictChoice::Replace, false);
    assert_eq!(after.next_step(), PreparationStep::Ready);
    let paths: Vec<(Option<&str>, TransferConflict)> = after
        .accepted
        .iter()
        .map(|accepted| (accepted.item.native_path(), accepted.conflict))
        .collect();
    assert_eq!(
        paths,
        vec![
            (Some("/a/y"), TransferConflict::FailIfExists),
            (Some("/a/z"), TransferConflict::ReplaceExisting),
        ]
    );
}

#[test]
fn one_choice_can_be_made_for_all_collisions() {
    let sources = vec![Location::local("/a/x"), Location::local("/a/y")];
    let start = || start_transfer(Location::local("/b"), &sources, true, &vec![true, true]).items;
    let all = start().decide(ConflictChoice::Replace, true);
    assert_eq!(all.accepted.len(), 2);
    assert_eq!(all.next_step(), PreparationStep::Ready);
    let none = start().decide(ConflictChoice::Skip, true);
    assert_eq!(none.accepted.len(), 0);
    assert_eq!(none.next_step(), PreparationStep::Ready);
}

#[test]
fn closing_the_prompt_gives_the_whole_transfer_up() {
    let sources = vec![Location::local("/a/x"), Location::local("/a/y")];
    let start = || start_transfer(Location::local("/b"), &sources, false, &vec![true, false]);
    for input in [PromptInput::Cancel, PromptInput::Escape, PromptInput::Backdrop] {
        assert!(start().answer_prompt(input, false).is_none());
        assert!(start().answer_prompt(input, true).is_none());
    }
    for (input, items) in
        [(PromptInput::Enter, 2), (PromptInput::Replace, 2), (PromptInput::Skip, 1)]
    {
        match start().answer_prompt(input, false).expect("a choice was made").next_step() {
            PendingTransferStep::Transfer { destination, items: accepted, move_sources } => {
                assert_eq!(destination.native_path(), Some("/b"));
                assert_eq!(accepted.len(), items);
                assert!(!move_sources);
            }
            other => panic!("nothing else is taken: {other:?}"),
        }
    }
    match start().next_step() {
        PendingTransferStep::Ask { transfer, has_more } => {
            assert_eq!(transfer.items.collisions.len(), 1);
            assert!(!has_more);
        }
        other => panic!("a name is taken: {other:?}"),
    }
}

#[test]
fn what_is_no_longer_there_is_not_moved_back() {
    let record = |name: &str| MoveRecord {
        original: Location::local(&format!("/a/{name}")),
        current: Location::local(&format!("/b/{name}")),
    };
    let records = vec![record("x"), record("y"), record("z")];
    let undo = undo_move(4, &records, &vec![true, false, true], &vec![false, false, true]);
    assert_eq!(undo.items.accepted.len(), 1);
    assert_eq!(undo.items.accepted[0].item.original.native_path(), Some("/a/x"));
    assert_eq!(undo.items.collisions.len(), 1);
    assert_eq!(undo.items.collisions[0].original.native_path(), Some("/a/z"));
    match undo.next_step() {
        PendingUndoStep::Ask { undo, has_more } => {
            assert!(!has_more);
            let undo = undo.answer_prompt(PromptInput::Skip, false).expect("a choice was made");
            assert!(matches!(
                undo.next_step(),
                PendingUndoStep::Undo { generation: 4, items } if items.len() == 1
            ));
        }
        other => panic!("a place is taken: {other:?}"),
    }
    let hindered = || undo_move(4, &records, &vec![true; 3], &vec![true; 3]);
    assert!(hindered().answer_prompt(PromptInput::Cancel, true).is_none());
    assert!(matches!(
        hindered().answer_prompt(PromptInput::Skip, true).expect("a choice").next_step(),
        PendingUndoStep::Discard(4)
    ));
    let gone = undo_move(4, &records, &vec![false; 3], &vec![false; 3]);
    assert!(matches!(gone.next_step(), PendingUndoStep::Discard(4)));
}

#[test]
fn a_collision_needs_another_file_at_the_target() {
    assert!(transfer_has_collision(true, false, false, false, true));
    assert!(!transfer_has_collision(true, false, false, false, false));
    assert!(!transfer_has_collision(true, true, false, false, true));
    assert!(!transfer_has_collision(true, false, true, false, true));
    assert!(!transfer_has_collision(true, false, false, true, true));
    assert!(!transfer_has_collision(false, false, false, false, true));
}

#[test]
fn collisions_are_explained() {
    assert_eq!(
        transfer_conflict_explanation("a", "~/b"),
        "An item named “a” already exists in ~/b. Replacing it will overwrite its contents."
    );
    assert_eq!(
        undo_conflict_explanation("a", "~/b"),
        "An item named “a” already exists in ~/b. Undoing the move will overwrite its contents."
    );
}

#[test]
fn duplicates_stay_in_one_folder() {
    let entries = vec![entry("/a/x", EntryKind::File), entry("/a/y", EntryKind::File)];
    let (destination, sources) = duplicate_transfer(
        &entries,
        &vec![Some(Location::local("/a")), Some(Location::local("/a"))],
    )
    .expect("both files are in the folder");
    assert_eq!(destination.native_path(), Some("/a"));
    assert_eq!(sources.len(), 2);
    assert!(duplicate_transfer(
        &entries,
        &vec![Some(Location::local("/a")), Some(Location::local("/b"))]
    )
    .is_none());
    assert!(duplicate_transfer(&vec![], &vec![]).is_none());
}

#[test]
fn a_missing_destination_is_announced_before_it_is_created() {
    assert!(TransferDialog::open(vec![], true).is_none());
    let entries = vec![entry("/a/x", EntryKind::File), entry("/a/y", EntryKind::File)];
    let mut dialog = TransferDialog::open(entries, true).expect("there is something to move");
    assert_eq!(dialog.title(), "Move to");
    assert_eq!(dialog.subtitle(), "Choose a destination for 2 items");
    assert_eq!(dialog.confirm_label(), "Move here");
    assert_eq!(dialog.confirm("/home/u/new", false, false, "/home/u"), ConfirmStep::Stay);
    assert!(matches!(
        &dialog.message,
        FieldMessage::Warning(text)
            if text == "~/new does not exist. It will be created before the items are transferred."
    ));
    assert_eq!(dialog.confirm_label(), "Create and move");
    assert_eq!(dialog.confirm("/home/u/new/", false, false, "/home/u"), ConfirmStep::CreateFolder);
    assert_eq!(dialog.creating.as_deref(), Some("/home/u/new/"));
    assert_eq!(dialog.folder_created(Some(None)), ConfirmStep::Stay);
    assert_eq!(dialog.confirm("/home/u/new", false, false, "/home/u"), ConfirmStep::CreateFolder);
    assert!(!dialog.can_cancel());
    assert_eq!(dialog.creating.as_deref(), Some("/home/u/new"));
    assert_eq!(dialog.folder_created(Some(Some("denied"))), ConfirmStep::Stay);
    assert!(matches!(
        &dialog.message,
        FieldMessage::Error(text) if text == "Unable to create that folder: denied"
    ));
    dialog.input_changed();
    assert_eq!(dialog.confirm("/etc/hosts", true, false, "/home/u"), ConfirmStep::Stay);
    assert!(matches!(
        &dialog.message,
        FieldMessage::Error(text) if text == "The destination exists, but it is not a folder."
    ));
    assert_eq!(dialog.confirm("/tmp", true, true, "/home/u"), ConfirmStep::Transfer);
    assert!(dialog.blocks_dismissal("/tmp", "/"));
    assert!(!dialog.blocks_dismissal("/tmp", "/tmp"));
}

#[test]
fn progress_is_shown_late_for_short_operations_and_never_once_they_end() {
    let mut progress = OperationProgress::idle();
    assert!(!progress.begin(3));
    assert_eq!(progress.display(), ProgressDisplay::Nothing);
    progress.update_items(1, 3);
    progress.delay_passed();
    assert_eq!(progress.display(), ProgressDisplay::Items { completed: 1, total: 3 });
    progress.dismiss();
    progress.delay_passed();
    assert_eq!(progress.display(), ProgressDisplay::Nothing);
    assert!(progress.begin(16));
    assert!(progress.begin(0));
    progress.update_transfer(2, 50, Some(200));
    assert_eq!(
        progress.display(),
        ProgressDisplay::Transfer(TransferStatus::ByteShare {
            transferred: 50,
            bytes: 200,
            at_least_one_percent: true,
        })
    );
}

#[test]
fn progress_shows_what_was_told_last() {
    let mut progress = OperationProgress::idle();
    assert!(progress.begin(20));
    assert_eq!(progress.display(), ProgressDisplay::Items { completed: 0, total: 20 });
    progress.update_transfer(2, 50, Some(200));
    progress.update_items(3, 20);
    assert_eq!(progress.display(), ProgressDisplay::Items { completed: 3, total: 20 });
    progress.update_transfer(4, 60, None);
    assert_eq!(progress.display(), ProgressDisplay::Transfer(TransferStatus::Bytes(60)));
    progress.update_archive(5, 0);
    assert_eq!(progress.display(), ProgressDisplay::Archive { completed: 5, total: 0 });
    progress.update_emptied(6);
    assert_eq!(progress.display(), ProgressDisplay::Emptied(6));
    assert!(!progress.begin(4));
    progress.update_transfer(1, 0, None);
    progress.update_archive(2, 4);
    assert_eq!(progress.display(), ProgressDisplay::Nothing);
    progress.delay_passed();
    assert_eq!(progress.display(), ProgressDisplay::Transfer(TransferStatus::Items(1)));
}

#[test]
fn progress_is_told_by_what_is_known() {
    assert_eq!(
        transfer_progress_status(1, 4, 0, Some(0)),
        TransferStatus::ItemShare { completed: 1, items: 4 }
    );
    assert_eq!(transfer_progress_status(0, 0, 0, Some(0)), TransferStatus::Preparing);
    assert_eq!(transfer_progress_status(1, 0, 9, None), TransferStatus::Bytes(9));
    assert_eq!(transfer_progress_status(1, 0, 0, None), TransferStatus::Items(1));
    assert!(is_indeterminate(TransferStatus::Items(1)));
    assert!(!is_indeterminate(TransferStatus::ItemShare { completed: 1, items: 4 }));
    assert_eq!(items_copied_text(1), "1 item copied");
    assert_eq!(items_copied_text(3), "3 items copied");
    assert_eq!(archive_status_text(3, 0), "3 files");
    assert_eq!(archive_status_text(3, 7), "3 / 7 files");
}

#[test]
fn arriving_files_are_named_by_their_paths() {
    assert_eq!(
        arriving_names(&vec![
            Location::local("/a/x.txt"),
            Location::uri("smb://host/share"),
            Location::local("/"),
        ]),
        vec!["x.txt".to_owned()]
    );
}

#[test]
fn an_archive_is_replaced_only_if_asked() {
    let entries = vec![entry("/a/x", EntryKind::File)];
    match start_compression(&entries, folder(), "x".to_owned(), ArchiveFormat::Zip, false, "~/a") {
        CompressionStart::Compress {
            action: ArchiveAction::Compress { archive_name, conflict, .. },
            ..
        } => {
            assert_eq!(archive_name, "x");
            assert_eq!(conflict, TransferConflict::FailIfExists);
        }
        other => panic!("nothing has that name: {other:?}"),
    }
    match start_compression(&entries, folder(), "x".to_owned(), ArchiveFormat::TarGz, true, "~/a") {
        CompressionStart::AskToReplace(question) => {
            assert_eq!(question.final_name, "x.tar.gz");
            assert_eq!(
                question.explanation,
                "An archive named “x.tar.gz” already exists in ~/a. Replacing it will overwrite its contents."
            );
            assert!(matches!(
                question.action,
                ArchiveAction::Compress { conflict: TransferConflict::ReplaceExisting, .. }
            ));
        }
        other => panic!("the name is taken: {other:?}"),
    }
}

#[test]
fn only_the_button_and_the_enter_key_replace_an_archive() {
    let entries = vec![entry("/a/x", EntryKind::File)];
    let question = || {
        match start_compression(&entries, folder(), "x".to_owned(), ArchiveFormat::Zip, true, "~/a") {
            CompressionStart::AskToReplace(question) => question,
            other => panic!("the name is taken: {other:?}"),
        }
    };
    for (input, focuses) in [
        (ReplaceInput::Close, true),
        (ReplaceInput::Cancel, true),
        (ReplaceInput::Escape, false),
        (ReplaceInput::Backdrop, false),
    ] {
        assert!(matches!(
            question().answer(input),
            ReplaceStep::Dismiss { focus_listing } if focus_listing == focuses
        ));
    }
    for input in [ReplaceInput::Enter, ReplaceInput::Replace] {
        assert!(matches!(
            question().answer(input),
            ReplaceStep::Compress {
                destination,
                action: ArchiveAction::Compress {
                    conflict: TransferConflict::ReplaceExisting,
                    ..
                },
            } if destination.native_path() == Some("/a")
        ));
    }
}

#[test]
fn archives_are_made_of_local_files() {
    let single = vec![entry("/a/x.txt", EntryKind::File)];
    let mut dialog =
        CompressDialog::open(&single, None, Some(Location::local("/b")), "/home/u").expect("local");
    assert_eq!(dialog.default_name, "x.txt");
    assert_eq!(dialog.destination.native_path(), Some("/b"));
    assert_eq!(dialog.title, "Compress 1 item");
    dialog.set_format(ArchiveFormat::Tar);
    assert_eq!(dialog.archive_name("backup.tar"), "backup");
    assert_eq!(dialog.confirm("a/b", Some("No slashes")), None);
    assert_eq!(dialog.name_error, Some("No slashes"));
    assert_eq!(dialog.confirm("b", None).as_deref(), Some("b"));
    assert_eq!(dialog.confirm("backup.TAR", None).as_deref(), Some("backup"));
    assert_eq!(dialog.confirm("backup.zip", None).as_deref(), Some("backup.zip"));
    let remote = vec![FileEntry {
        location: Location::uri("smb://host/x"),
        ..entry("/a/x", EntryKind::File)
    }];
    assert!(CompressDialog::open(&remote, None, None, "/home/u").is_none());
    assert!(CompressDialog::open(&vec![], None, None, "/home/u").is_none());
}

#[test]
fn archives_are_extracted_beside_themselves_or_elsewhere() {
    let archive = entry("/a/x.zip", EntryKind::File);
    let remote = FileEntry {
        location: Location::uri("smb://host/x.zip"),
        ..entry("/a/x.zip", EntryKind::File)
    };
    assert!(matches!(extract_entry(&archive, None), ExtractStart::NoParent));
    assert!(matches!(extract_entry(&remote, None), ExtractStart::Ignored));
    assert!(matches!(
        extract_entry(&archive, Some(Location::local("/a"))),
        ExtractStart::Extract { destination, .. } if destination.native_path() == Some("/a")
    ));
    assert_eq!(extract_base(&archive, None, "/home/u").as_deref(), Some("/home/u"));
    assert_eq!(
        extract_base(&archive, Some(&Location::local("/a")), "/home/u").as_deref(),
        Some("/a")
    );
    assert_eq!(extract_base(&remote, None, "/home/u"), None);
    assert!(matches!(
        confirm_extract_to(&archive.location, "/b", true, false, None),
        ExtractToStep::Error(text) if text == "The destination exists, but it is not a folder."
    ));
    assert!(matches!(
        confirm_extract_to(&archive.location, "/b", false, false, Some("denied")),
        ExtractToStep::Error(text) if text == "Could not create folder: denied"
    ));
    assert!(matches!(
        confirm_extract_to(&archive.location, "/b", true, true, None),
        ExtractToStep::Extract { destination, .. } if destination.native_path() == Some("/b")
    ));
    assert!(matches!(
        extract_with_password(&archive.location, String::new()),
        ArchiveAction::Extract { password: None, .. }
    ));
    assert!(matches!(
        extract_with_password(&archive.location, "open".to_owned()),
        ArchiveAction::Extract { password: Some(word), .. } if word == "open"
    ));
}
