use strata::archive::{normalized_archive_name, ArchiveFormat};
use strata::entry::{
    basename_field_error, can_pin_entry, column_size, entry_description, entry_icon,
    entry_kind_name, entry_kind_summary, entry_matches, entry_model_value,
    entry_responds_to_preview_click, entry_supports_printing, icon_for_name, item_count_label,
    metadata_needs_fill, model_display_name, model_is_broken_link, model_is_directory,
    model_is_hidden, pane_filter_matches, rename_stem_end, retryable_delete_entries,
    selected_items_summary, selected_terminal_location, update_basename_validation, view_name,
    BrowserMode, ContentHints, EntryKind, FileEntry, Icon, MetadataValue, PinStatus,
};
use strata::location::{can_open_terminal, is_trash_location, is_trash_root, Location};

fn entry(kind: EntryKind) -> FileEntry {
    FileEntry {
        location: Location::local("/tmp/entry"),
        native_name: "entry".to_owned(),
        display_name: "entry".to_owned(),
        kind,
        size: MetadataValue::Unknown,
        modified_unix_seconds: MetadataValue::Unknown,
        mode: MetadataValue::Unknown,
        is_hidden: false,
    }
}

fn named(name: &str, kind: EntryKind) -> FileEntry {
    FileEntry {
        location: Location::local(&format!("/tmp/{name}")),
        native_name: name.to_owned(),
        display_name: name.to_owned(),
        ..entry(kind)
    }
}

#[test]
fn every_entry_kind_has_a_spoken_name() {
    let kinds = [
        EntryKind::Directory,
        EntryKind::DirectorySymbolicLink,
        EntryKind::File,
        EntryKind::FileSymbolicLink,
        EntryKind::SymbolicLink,
        EntryKind::Other,
    ];
    for kind in kinds {
        assert!(!entry_kind_name(&entry(kind)).is_empty());
    }
}

#[test]
fn directories_and_files_are_distinguishable() {
    assert_eq!(entry_kind_name(&entry(EntryKind::Directory)), "Folder");
    assert_eq!(entry_kind_name(&entry(EntryKind::File)), "File");
    assert_ne!(
        entry_kind_name(&entry(EntryKind::SymbolicLink)),
        entry_kind_name(&entry(EntryKind::FileSymbolicLink))
    );
}

#[test]
fn each_presentation_has_a_distinct_view_name() {
    let names = [
        view_name(BrowserMode::Columns),
        view_name(BrowserMode::Icons),
        view_name(BrowserMode::List),
    ];
    assert_eq!(names.len(), std::collections::BTreeSet::from(names).len());
}

#[test]
fn an_entry_that_is_not_known_has_a_description() {
    assert_eq!(entry_description(None), "Entry");
    assert_eq!(entry_description(Some(&entry(EntryKind::Directory))), "Folder");
}

#[test]
fn names_strip_matching_extension() {
    assert_eq!(
        normalized_archive_name("backup.zip", ArchiveFormat::Zip),
        "backup"
    );
    assert_eq!(
        normalized_archive_name("backup.ZIP", ArchiveFormat::Zip),
        "backup"
    );
    assert_eq!(
        normalized_archive_name("backupzip", ArchiveFormat::Zip),
        "backupzip"
    );
    assert_eq!(
        normalized_archive_name("backup.tar.gz", ArchiveFormat::TarGz),
        "backup"
    );
}

#[test]
fn names_preserve_non_ascii_without_suffix() {
    assert_eq!(
        normalized_archive_name("日本語", ArchiveFormat::Zip),
        "日本語"
    );
    assert_eq!(
        normalized_archive_name("📦archive", ArchiveFormat::Zip),
        "📦archive"
    );
    assert_eq!(
        normalized_archive_name("日本語.zip", ArchiveFormat::Zip),
        "日本語"
    );
    assert_eq!(normalized_archive_name("📦.ZIP", ArchiveFormat::Zip), "📦");
}

#[test]
fn rows_carry_what_the_filter_reads() {
    let mut hidden = named(".config", EntryKind::Directory);
    hidden.is_hidden = true;
    assert_eq!(entry_model_value(&hidden), "dh\t.config");
    assert_eq!(
        entry_model_value(&named("a\tb", EntryKind::FileSymbolicLink)),
        "sv\ta\tb"
    );
    assert_eq!(
        entry_model_value(&named("gone", EntryKind::SymbolicLink)),
        "xv\tgone"
    );
    assert_eq!(entry_model_value(&named("plain", EntryKind::File)), "fv\tplain");
    assert_eq!(model_display_name("sv\ta\tb"), "a\tb");
    assert_eq!(model_display_name("no tab"), "no tab");
    assert!(model_is_directory("dh\t.config"));
    assert!(!model_is_directory("fv\tdir"));
    assert!(model_is_broken_link("xv\tgone"));
    assert!(model_is_hidden("dh\t.config"));
    assert!(!model_is_hidden("dv\th"));
    assert!(!model_is_hidden("é"));
}

#[test]
fn filters_ignore_case_and_hide_what_is_hidden() {
    assert!(pane_filter_matches("fv\tStraße ÉTÉ.txt", "été"));
    assert!(!pane_filter_matches("fv\tnotes.txt", "été"));
    assert!(entry_matches("fv\tNotes", false, "note"));
    assert!(!entry_matches("fh\t.notes", false, "note"));
    assert!(entry_matches("fh\t.notes", true, "note"));
    assert!(entry_matches("fv\tanything", true, ""));
}

#[test]
fn icons_follow_the_extension() {
    assert_eq!(icon_for_name("photo.JPG"), Icon::Pictures);
    assert_eq!(icon_for_name("run.sh"), Icon::Terminal);
    assert_eq!(icon_for_name("film.mp4"), Icon::Videos);
    assert_eq!(icon_for_name("data.zip"), Icon::Archive);
    assert_eq!(icon_for_name("main.rs"), Icon::Code);
    assert_eq!(icon_for_name("letter"), Icon::Documents);
    assert_eq!(entry_icon(&named("a.png", EntryKind::Directory)), Icon::Folder);
    assert_eq!(
        entry_icon(&named("a.png", EntryKind::SymbolicLink)),
        Icon::BrokenLink
    );
}

#[test]
fn renaming_selects_the_stem() {
    assert_eq!(rename_stem_end("archive.tar.gz"), 11);
    assert_eq!(rename_stem_end(".bashrc"), 7);
    assert_eq!(rename_stem_end("日本語.txt"), 3);
    assert_eq!(rename_stem_end("plain"), 5);
}

#[test]
fn an_empty_name_is_no_error_but_cannot_be_submitted() {
    assert_eq!(basename_field_error("", Some("Name is empty")), None);
    let empty = update_basename_validation("", Some("Name is empty"));
    assert_eq!(empty.error, None);
    assert!(!empty.submittable);
    let bad = update_basename_validation("a/b", Some("No slashes"));
    assert_eq!(bad.error, Some("No slashes"));
    assert!(!bad.submittable);
    assert!(update_basename_validation("fine", None).submittable);
}

#[test]
fn sizes_are_shown_for_files_alone() {
    let mut file = entry(EntryKind::File);
    assert_eq!(column_size(Some(&file)), None);
    assert!(metadata_needs_fill(&file));
    file.size = MetadataValue::Known(1234);
    file.modified_unix_seconds = MetadataValue::Known(1);
    assert_eq!(column_size(Some(&file)), Some(1234));
    assert!(!metadata_needs_fill(&file));
    file.kind = EntryKind::Directory;
    file.size = MetadataValue::Unknown;
    assert_eq!(column_size(Some(&file)), None);
    assert!(!metadata_needs_fill(&file));
    assert_eq!(column_size(None), None);
}

#[test]
fn counts_are_put_into_words() {
    assert_eq!(item_count_label(0), "0 items");
    assert_eq!(item_count_label(1), "1 item");
    assert_eq!(item_count_label(1024), "1024 items");
    let mixed = vec![
        named("a", EntryKind::Directory),
        named("b", EntryKind::File),
        named("c", EntryKind::File),
    ];
    assert_eq!(entry_kind_summary(&mixed), "3 items");
    assert_eq!(entry_kind_summary(&vec![named("a", EntryKind::Directory)]), "1 folder");
    assert_eq!(
        entry_kind_summary(&vec![named("b", EntryKind::File), named("c", EntryKind::Other)]),
        "2 files"
    );
}

#[test]
fn long_selections_are_cut_short() {
    let short = vec![named("one", EntryKind::File), named("two", EntryKind::File)];
    assert_eq!(selected_items_summary(&short), "one, two");
    let many: Vec<FileEntry> =
        ["a", "b", "c", "d"].iter().map(|name| named(name, EntryKind::File)).collect();
    assert_eq!(selected_items_summary(&many), "a, b, c, …");
    let long = vec![named(&"x".repeat(80), EntryKind::File), named("two", EntryKind::File)];
    let summary = selected_items_summary(&long);
    assert_eq!(summary.chars().count(), 60);
    assert!(summary.ends_with('…'));
}

#[test]
fn only_what_failed_is_tried_again() {
    let entries = vec![
        named("first", EntryKind::File),
        named("second", EntryKind::File),
        named("third", EntryKind::File),
    ];
    let again = retryable_delete_entries(
        &entries,
        &vec![Location::local("/tmp/third"), Location::local("/tmp/first")],
    );
    let names: Vec<&str> = again.iter().map(|entry| entry.display_name.as_str()).collect();
    assert_eq!(names, ["first", "third"]);
}

#[test]
fn printing_and_previews_are_for_files() {
    let hints = ContentHints {
        is_text: false,
        is_image: true,
        is_pdf: false,
        is_plain_text: false,
        has_plain_text_extension: false,
        is_extensionless_dotfile: false,
    };
    assert!(entry_supports_printing(&entry(EntryKind::File), hints));
    assert!(!entry_supports_printing(&entry(EntryKind::Directory), hints));
    assert!(entry_responds_to_preview_click(&entry(EntryKind::File), true, true));
    assert!(!entry_responds_to_preview_click(&entry(EntryKind::File), false, true));
    assert!(!entry_responds_to_preview_click(&entry(EntryKind::Directory), true, true));
}

#[test]
fn the_trash_is_a_place_of_its_own() {
    let root = Location::uri("trash:///");
    let inside = Location::uri("trash:///old");
    assert!(is_trash_root(&root) && is_trash_location(&root));
    assert!(!is_trash_root(&inside) && is_trash_location(&inside));
    assert!(!is_trash_location(&Location::local("/trash:")));
    assert!(can_open_terminal(&Location::local("/tmp")));
    assert!(!can_open_terminal(&inside));
    let mut pinned = entry(EntryKind::Directory);
    assert!(can_pin_entry(&pinned, PinStatus::Available));
    assert!(!can_pin_entry(&pinned, PinStatus::Pinned));
    pinned.location = inside;
    assert!(!can_pin_entry(&pinned, PinStatus::Available));
}

#[test]
fn a_terminal_opens_in_the_one_selected_folder() {
    let folder = vec![named("dir", EntryKind::Directory)];
    assert!(selected_terminal_location(&folder)
        .is_some_and(|place| place.same_as(&Location::local("/tmp/dir"))));
    assert!(selected_terminal_location(&vec![named("file", EntryKind::File)]).is_none());
    assert!(selected_terminal_location(&vec![
        named("a", EntryKind::Directory),
        named("b", EntryKind::Directory)
    ])
    .is_none());
}
