use strata::clipboard::{
    copy_locations_text, copy_names_text, copy_path_text, drag_actions_for_modifiers,
    drop_commit_action, drop_override, locations_from_file_list, needs_shell_escape,
    offered_file_actions, pasted_image_name, preferred_file_drop_action,
    preferred_file_drop_commit, same_lists, shell_escape_path, transfer_dropped_files,
    uri_list_text, CrossVolumeDropStrategy, DragActions, DropCommit, DropFinding, DropOverride,
    FileDropState, TransferKind, TransferRequest, VolumeRelation,
};
use strata::cut::{
    locations_equal, paste_image_directory, retain_untransferred, same_locations, ClipboardUpdate,
    CutFiles,
};
use strata::entry::{EntryKind, FileEntry, MetadataValue};
use strata::input::Modifiers;
use strata::location::Location;

const NEITHER: DragActions = DragActions { copies: false, moves: false };
const COPY: DragActions = DragActions { copies: true, moves: false };
const MOVE: DragActions = DragActions { copies: false, moves: true };
const BOTH: DragActions = DragActions { copies: true, moves: true };

fn modifiers(control: bool, shift: bool) -> Modifiers {
    Modifiers { control, shift, alt: false, meta: false }
}

fn table(rows: &[&[bool]]) -> Vec<Vec<bool>> {
    rows.iter().map(|row| row.to_vec()).collect()
}

fn file(path: &str, kind: EntryKind) -> FileEntry {
    FileEntry {
        location: Location::local(path),
        native_name: path.to_owned(),
        display_name: path.rsplit('/').next().unwrap_or(path).to_owned(),
        kind,
        size: MetadataValue::Unknown,
        modified_unix_seconds: MetadataValue::Unknown,
        mode: MetadataValue::Unknown,
        is_hidden: false,
    }
}

#[test]
fn incoming_file_lists_preserve_local_and_remote_locations() {
    let locations = locations_from_file_list(vec![
        Some(Location::local("/fixture/photo.raw")),
        Some(Location::uri("sftp://host.example/home/user/video.mp4")),
    ])
    .expect("every file has a location");
    assert!(same_lists(
        &locations,
        &vec![
            Location::local("/fixture/photo.raw"),
            Location::uri("sftp://host.example/home/user/video.mp4"),
        ]
    ));
}

#[test]
fn a_list_without_locations_is_no_list() {
    assert!(locations_from_file_list(vec![]).is_none());
    assert!(locations_from_file_list(vec![None]).is_none());
}

#[test]
fn file_drop_action_follows_volume_relation_not_local_vs_external() {
    let ask = CrossVolumeDropStrategy::Ask;

    assert_eq!(
        drop_commit_action(preferred_file_drop_commit(
            BOTH,
            DropOverride::Unforced,
            VolumeRelation::Same,
            false,
            ask,
        )),
        MOVE
    );
    assert_eq!(
        drop_commit_action(preferred_file_drop_commit(
            BOTH,
            DropOverride::Unforced,
            VolumeRelation::Different,
            false,
            ask,
        )),
        COPY
    );
    assert_eq!(
        drop_commit_action(preferred_file_drop_commit(
            BOTH,
            DropOverride::Unforced,
            VolumeRelation::Unknown,
            false,
            ask,
        )),
        COPY
    );
    assert_eq!(
        drop_commit_action(preferred_file_drop_commit(
            MOVE,
            DropOverride::Unforced,
            VolumeRelation::Different,
            false,
            ask,
        )),
        MOVE
    );
    assert_eq!(
        drop_commit_action(preferred_file_drop_commit(
            BOTH,
            DropOverride::ForceCopy,
            VolumeRelation::Same,
            false,
            ask,
        )),
        COPY
    );
    assert_eq!(
        drop_commit_action(preferred_file_drop_commit(
            BOTH,
            DropOverride::ForceMove,
            VolumeRelation::Different,
            false,
            ask,
        )),
        MOVE
    );
    assert_eq!(
        drop_commit_action(preferred_file_drop_commit(
            BOTH,
            DropOverride::Unforced,
            VolumeRelation::Same,
            true,
            ask,
        )),
        NEITHER
    );
}

#[test]
fn file_drop_action_hover_matches_cross_volume_strategy() {
    let none = DropOverride::Unforced;
    let different = VolumeRelation::Different;

    assert_eq!(
        drop_commit_action(preferred_file_drop_commit(
            BOTH,
            none,
            different,
            false,
            CrossVolumeDropStrategy::Move,
        )),
        MOVE
    );
    assert_eq!(
        drop_commit_action(preferred_file_drop_commit(
            BOTH,
            none,
            different,
            false,
            CrossVolumeDropStrategy::Copy,
        )),
        COPY
    );
    assert_eq!(
        preferred_file_drop_commit(
            BOTH,
            none,
            different,
            false,
            CrossVolumeDropStrategy::Ask,
        ),
        DropCommit::Ask {
            default: TransferKind::Copy,
        }
    );
    assert_eq!(
        preferred_file_drop_commit(
            BOTH,
            none,
            VolumeRelation::Same,
            false,
            CrossVolumeDropStrategy::Ask,
        ),
        DropCommit::Move
    );
}

#[test]
fn move_only_protocol_still_copies_across_volumes() {
    let offered = offered_file_actions(BOTH, MOVE);
    assert!(offered.copies);
    assert_eq!(
        drop_commit_action(preferred_file_drop_commit(
            offered,
            DropOverride::Unforced,
            VolumeRelation::Different,
            false,
            CrossVolumeDropStrategy::Ask,
        )),
        COPY
    );
    assert_eq!(
        drop_commit_action(preferred_file_drop_commit(
            offered,
            DropOverride::Unforced,
            VolumeRelation::Same,
            false,
            CrossVolumeDropStrategy::Ask,
        )),
        MOVE
    );
}

#[test]
fn copy_only_source_does_not_move_on_the_same_volume() {
    let offered = offered_file_actions(BOTH, COPY);
    assert_eq!(
        drop_commit_action(preferred_file_drop_commit(
            offered,
            DropOverride::Unforced,
            VolumeRelation::Same,
            false,
            CrossVolumeDropStrategy::Ask,
        )),
        COPY
    );
}

#[test]
fn file_drop_sites_commit_through_drop_strategy() {
    let commit = DropCommit::Ask { default: TransferKind::Copy };
    let dropped = transfer_dropped_files(
        Location::local("/fixture/folder"),
        Some(vec![Location::local("/fixture/first")]),
        commit,
    );
    match dropped {
        Some(TransferRequest::CommitFileDrop { destination, sources, commit: asked }) => {
            assert!(destination.same_as(&Location::local("/fixture/folder")));
            assert!(same_lists(&sources, &vec![Location::local("/fixture/first")]));
            assert_eq!(asked, commit);
        }
        other => panic!("a drop goes through the strategy: {other:?}"),
    }
    assert!(transfer_dropped_files(Location::local("/fixture/folder"), None, commit).is_none());

    let pasted = CutFiles::new().paste_into(
        Location::local("/fixture/folder"),
        vec![Location::local("/fixture/first")],
        &table(&[&[]]),
    );
    match pasted {
        Some(TransferRequest::StartTransfer { destination, sources, move_sources }) => {
            assert!(destination.same_as(&Location::local("/fixture/folder")));
            assert!(same_lists(&sources, &vec![Location::local("/fixture/first")]));
            assert!(!move_sources);
        }
        other => panic!("pasting starts a transfer: {other:?}"),
    }
}

#[test]
fn cut_clipboard_locations_match_regardless_of_order() {
    let first = || Location::local("/fixture/first");
    let second = || Location::local("/fixture/second");

    assert!(same_locations(
        &vec![first(), second()],
        &vec![second(), first()],
        &table(&[&[false, true], &[true, false]])
    ));
    assert!(!same_locations(&vec![], &vec![], &table(&[])));
    assert!(!same_locations(
        &vec![first()],
        &vec![Location::local("/fixture/other")],
        &table(&[&[false]])
    ));
    assert!(!same_locations(
        &vec![first(), first()],
        &vec![first(), second()],
        &table(&[&[true, false], &[true, false]])
    ));
}

#[test]
fn cut_matches_gio_equivalent_representations() {
    let native = Location::local("/fixture/first");
    let uri = Location::uri("file:///fixture/first");

    assert!(locations_equal(&native, &uri, true));
    assert!(same_locations(
        &vec![native.duplicate()],
        &vec![uri],
        &table(&[&[true]])
    ));
    assert!(!same_locations(
        &vec![native],
        &vec![Location::uri("file:///fixture/other")],
        &table(&[&[false]])
    ));
}

#[test]
fn cleared_shared_cut_is_not_revived_by_stale_view_state() {
    let native = Location::local("/fixture/first");
    let uri = Location::uri("file:///fixture/first");

    let mut cut = CutFiles::new();
    cut.set_shared_cut(&vec![native.duplicate()]);
    assert!(cut.is_cut_match(&vec![uri], &table(&[&[true]])));

    cut.clear_shared_cut();
    assert!(!cut.is_cut_match(&vec![native], &table(&[&[]])));
}

#[test]
fn completed_moves_match_gio_equivalent_cut_entries() {
    let mut cut = vec![Location::local("/fixture/first")];

    retain_untransferred(
        &mut cut,
        &vec![Location::uri("file:///fixture/first")],
        &table(&[&[true]]),
    );

    assert!(cut.is_empty());
}

#[test]
fn completed_moves_are_removed_from_the_cut_list() {
    let first = Location::local("/fixture/first");
    let second = Location::local("/fixture/second");
    let third = Location::local("/fixture/third");
    let mut cut = vec![first.duplicate(), second.duplicate(), third.duplicate()];

    retain_untransferred(
        &mut cut,
        &vec![first, third],
        &table(&[&[true, false], &[false, false], &[false, true]]),
    );

    assert!(same_lists(&cut, &vec![second]));
}

#[test]
fn shell_escape_path_escapes_spaces_and_metacharacters_but_not_filename_unicode() {
    assert_eq!(
        shell_escape_path("/mnt/Mass 1/Movies\u{2044}TV"),
        "/mnt/Mass\\ 1/Movies\u{2044}TV"
    );
    assert_eq!(
        shell_escape_path("/tmp/archive (final) v1.2.tar.gz"),
        "/tmp/archive\\ \\(final\\)\\ v1.2.tar.gz"
    );
    assert_eq!(shell_escape_path("/home/user/plain"), "/home/user/plain");
}

#[test]
fn copy_path_text_adds_trailing_slash_to_directories_only() {
    let directory = Location::local("/mnt/Mass 1/Movies\u{2044}TV");
    assert_eq!(
        copy_path_text(&directory, "/mnt/Mass 1/Movies\u{2044}TV", true),
        "/mnt/Mass\\ 1/Movies\u{2044}TV/"
    );
    assert_eq!(
        copy_path_text(&directory, "/mnt/Mass 1/Movies\u{2044}TV", false),
        "/mnt/Mass\\ 1/Movies\u{2044}TV"
    );
}

#[test]
fn copy_path_text_keeps_uris_unescaped() {
    let remote = Location::uri("smb://server/share/folder");
    assert_eq!(
        copy_path_text(&remote, "smb://server/share/folder", true),
        "smb://server/share/folder"
    );
}

#[test]
fn shell_escape_path_preserves_newlines_and_single_quotes() {
    assert_eq!(
        shell_escape_path("/tmp/line\nbob's notes"),
        "'/tmp/line\nbob'\\''s notes'"
    );
}

#[test]
fn what_a_shell_reads_specially_is_escaped() {
    assert!(needs_shell_escape(' '));
    assert!(needs_shell_escape('$'));
    assert!(needs_shell_escape('\u{3000}'));
    assert!(needs_shell_escape('\u{7}'));
    assert!(!needs_shell_escape('/'));
    assert!(!needs_shell_escape('é'));
}

#[test]
fn modifiers_force_a_drop() {
    assert_eq!(drop_override(modifiers(false, false)), DropOverride::Unforced);
    assert_eq!(drop_override(modifiers(true, false)), DropOverride::ForceCopy);
    assert_eq!(drop_override(modifiers(false, true)), DropOverride::ForceMove);
    assert_eq!(drag_actions_for_modifiers(modifiers(true, false)), COPY);
    assert_eq!(drag_actions_for_modifiers(modifiers(false, true)), MOVE);
    assert_eq!(drag_actions_for_modifiers(modifiers(false, false)), BOTH);
}

#[test]
fn the_preferred_action_is_one_that_is_offered() {
    assert_eq!(preferred_file_drop_action(BOTH, true), TransferKind::Move);
    assert_eq!(preferred_file_drop_action(BOTH, false), TransferKind::Copy);
    assert_eq!(preferred_file_drop_action(COPY, true), TransferKind::Copy);
    assert_eq!(preferred_file_drop_action(NEITHER, true), TransferKind::Forbidden);
}

#[test]
fn a_drop_is_classified_once() {
    let mut state = FileDropState::new();
    let folder = Location::local("/fixture/folder");
    let sources = vec![Location::local("/fixture/first")];
    assert!(state.classify(&folder, &sources).is_none());
    state.record(
        &folder,
        &sources,
        DropFinding { relation: VolumeRelation::Unknown, is_noop: false },
    );
    assert!(state
        .classify(&folder, &sources)
        .is_some_and(|finding| finding.relation == VolumeRelation::Unknown));
    assert!(state.volumes_resolved(&folder, &sources, VolumeRelation::Same));
    assert!(state
        .classify(&folder, &sources)
        .is_some_and(|finding| finding.relation == VolumeRelation::Same));
    assert!(!state.volumes_resolved(
        &Location::local("/fixture/elsewhere"),
        &sources,
        VolumeRelation::Different
    ));
    state.reset();
    assert!(state.classify(&folder, &sources).is_none());
}

#[test]
fn texts_for_the_clipboard() {
    assert_eq!(
        uri_list_text(&vec!["file:///a".to_owned(), "file:///b".to_owned()]).as_deref(),
        Some("file:///a\r\nfile:///b\r\n")
    );
    assert_eq!(uri_list_text(&vec![]), None);
    let entries = vec![
        file("/tmp/a b", EntryKind::File),
        file("/tmp/dir", EntryKind::Directory),
    ];
    assert_eq!(
        copy_locations_text(&entries, &vec!["/tmp/a b".to_owned(), "/tmp/dir".to_owned()]),
        "/tmp/a\\ b\n/tmp/dir/"
    );
    assert_eq!(copy_names_text(&entries), "a b\ndir");
}

#[test]
fn pasted_images_get_names_of_their_own() {
    assert_eq!(pasted_image_name(0), "image.png");
    assert_eq!(pasted_image_name(12), "image (12).png");
    assert_ne!(pasted_image_name(0), pasted_image_name(1));
    assert_ne!(pasted_image_name(1), pasted_image_name(10));
    assert_eq!(paste_image_directory(&Location::local("/tmp")), Some("/tmp"));
    assert_eq!(paste_image_directory(&Location::uri("smb://host/share")), None);
}

#[test]
fn cut_files_move_when_pasted_and_leave_the_clipboard_once_moved() {
    let mut cut = CutFiles::new();
    let sources = vec![Location::local("/fixture/first"), Location::local("/fixture/second")];
    cut.set_shared_cut(&sources);
    let second = Location::local("/fixture/second");
    assert!(cut.is_cut(&second, &vec![false, false]));
    assert!(cut.is_newly_cut(&second));
    let written = Location::uri("file:///fixture/second");
    assert!(cut.is_cut(&written, &vec![false, true]));
    assert!(!cut.is_cut(&written, &vec![false, false]));
    assert!(!cut.is_newly_cut(&written));
    let verdicts = table(&[&[true, false], &[false, true]]);
    match cut.paste_into(
        Location::local("/fixture/folder"),
        vec![Location::local("/fixture/first"), Location::local("/fixture/second")],
        &verdicts,
    ) {
        Some(TransferRequest::StartTransfer { move_sources, .. }) => assert!(move_sources),
        other => panic!("cut files are moved: {other:?}"),
    }
    assert!(cut
        .paste_into(
            Location::uri("trash:///"),
            vec![Location::local("/fixture/first")],
            &table(&[&[true, false]]),
        )
        .is_none());
    match cut.complete_cut_transfer(
        &vec![Location::local("/fixture/first")],
        &table(&[&[true], &[false]]),
    ) {
        ClipboardUpdate::Keep(rest) => {
            assert!(same_lists(&rest, &vec![Location::local("/fixture/second")]));
        }
        ClipboardUpdate::Clear => panic!("one file is still cut"),
    }
    assert!(matches!(
        cut.complete_cut_transfer(&vec![Location::local("/fixture/second")], &table(&[&[true]])),
        ClipboardUpdate::Clear
    ));
}

#[test]
fn nothing_is_cut_that_cannot_be_removed() {
    let cut = CutFiles::new();
    let entries = vec![file("/fixture/first", EntryKind::File)];
    assert!(cut.cut_request(&entries, &vec![true]).is_some());
    assert!(cut.cut_request(&entries, &vec![false]).is_none());
    let both = vec![
        file("/fixture/first", EntryKind::File),
        file("/fixture/second", EntryKind::File),
    ];
    assert!(cut.cut_request(&both, &vec![true, false]).is_none());
    assert!(cut.cut_request(&vec![], &vec![]).is_none());
}
