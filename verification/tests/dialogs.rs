use strata::activity::{auto_refresh_interval, GlobalActivityState};
use strata::customize::{
    custom_emoji, customize_title, CustomColorDialog, CustomizeDialog, FolderColor,
    FolderColorBar, FolderColorValue,
};
use strata::dialogs::{launch_terminal, ErrorDialog, ModalLayers, TerminalStep};
use strata::entry::{BrowserMode, EntryKind, FileEntry, MetadataValue};
use strata::grouping::{
    column_sort_direction_toggle, guess_type_group, sort_direction_tooltip, sort_key_label,
    sort_menu_key_pressed, type_group_key, MenuKeyStep, SortDirection, SortKey, SortMenu,
    SortPreferences, TypeGroups,
};
use strata::input::{Direction, Key, Modifiers, Propagation};
use strata::location::Location;
use strata::menus::{
    chooser_command, chooser_folder_menu, chooser_item_menu, chooser_label,
    chooser_menu_is_single, context_entries, context_menu_placement, folder_context_menu,
    folder_label, folder_menu_facts, item_accelerator, item_command, item_context_menu,
    item_label, item_menu_facts, item_menu_header, shortcut_text, ChooserAction, ChooserCommand,
    ChooserMenu, ChooserMenuFacts, ContentFacts, FolderAction, FolderCommand, FolderRow,
    ItemAction, ItemCommand, ItemCommandFacts, ItemRow, MenuSide, PendingNewEntry, PlaceFacts,
};

const NO_MODIFIERS: Modifiers =
    Modifiers { control: false, shift: false, alt: false, meta: false };

fn entry(name: &str, kind: EntryKind) -> FileEntry {
    FileEntry {
        location: Location::local(&format!("/tmp/{name}")),
        native_name: name.to_owned(),
        display_name: name.to_owned(),
        kind,
        size: MetadataValue::Unknown,
        modified_unix_seconds: MetadataValue::Unknown,
        mode: MetadataValue::Unknown,
        is_hidden: false,
    }
}

fn visible_actions(rows: &[ItemRow]) -> Vec<ItemAction> {
    rows.iter()
        .filter_map(|row| match row {
            ItemRow::Option { action, visible: true, .. } => Some(*action),
            _ => None,
        })
        .collect()
}

#[test]
fn the_menu_of_a_folder_entry() {
    let facts = item_menu_facts(
        &entry("a", EntryKind::Directory),
        PlaceFacts { in_trash: false, can_trash: Some(true), can_delete: None },
        ContentFacts { supports_preview: false, supports_printing: false, is_archive: false },
        None,
        1,
    );
    let actions = visible_actions(&item_context_menu(facts));
    assert_eq!(actions[0], ItemAction::Open);
    assert!(actions.contains(&ItemAction::OpenTerminal));
    assert!(!actions.contains(&ItemAction::Preview));
    assert!(!actions.contains(&ItemAction::Restore));
    assert!(actions.contains(&ItemAction::Trash));
    assert!(actions.contains(&ItemAction::PermanentDelete));
}

#[test]
fn in_the_trash_entries_are_restored_or_deleted_for_good() {
    let facts = item_menu_facts(
        &entry("a", EntryKind::File),
        PlaceFacts { in_trash: true, can_trash: Some(false), can_delete: Some(true) },
        ContentFacts { supports_preview: false, supports_printing: false, is_archive: false },
        None,
        3,
    );
    let rows = item_context_menu(facts);
    let actions = visible_actions(&rows);
    assert_eq!(actions[0], ItemAction::Restore);
    assert!(actions.contains(&ItemAction::Trash));
    assert!(!actions.contains(&ItemAction::PermanentDelete));
    assert_eq!(item_label(ItemAction::Trash, true, true), "Permanently delete");
    assert_eq!(item_label(ItemAction::Trash, true, false), "Move to Trash");
    assert_eq!(item_label(ItemAction::CopyPath, true, false), "Copy paths");
    assert_eq!(item_accelerator(ItemAction::Rename), "F2");
    assert_eq!(item_accelerator(ItemAction::Compress), "");
}

#[test]
fn options_lead_to_commands() {
    let facts = ItemCommandFacts {
        has_target: true,
        multiple: false,
        mode: BrowserMode::List,
        is_directory: false,
        is_native: true,
        supports_printing: true,
        has_print_handler: false,
        has_pin_handler: true,
        in_trash: true,
    };
    assert_eq!(item_command(ItemAction::Open, facts), ItemCommand::Activate { in_place: true });
    assert_eq!(item_command(ItemAction::Print, facts), ItemCommand::Nothing);
    assert_eq!(
        item_command(ItemAction::Trash, facts),
        ItemCommand::DeleteSelected { permanent: true }
    );
    assert_eq!(
        item_command(ItemAction::MoveTo, facts),
        ItemCommand::TransferSelected { move_sources: true }
    );
    assert_eq!(
        item_command(ItemAction::Open, ItemCommandFacts { has_target: false, ..facts }),
        ItemCommand::Nothing
    );
}

#[test]
fn a_menu_says_what_it_is_for() {
    let one = item_menu_header(&entry("a", EntryKind::File), "~/x", &vec![]);
    assert_eq!((one.heading.as_str(), one.summary.as_str()), ("a", "~/x"));
    let two = item_menu_header(
        &entry("a", EntryKind::File),
        "~/x",
        &vec![entry("a", EntryKind::File), entry("b", EntryKind::File)],
    );
    assert_eq!((two.heading.as_str(), two.summary.as_str()), ("2 items selected", "a, b"));
    let target = entry("t", EntryKind::File);
    assert_eq!(context_entries(&vec![], Some(&target)).len(), 1);
    assert_eq!(context_entries(&vec![], None).len(), 0);
    assert_eq!(context_entries(&vec![entry("a", EntryKind::File)], Some(&target))[0].display_name, "a");
}

#[test]
fn the_menu_of_a_folder() {
    let rows = folder_context_menu(folder_menu_facts(&Location::uri("smb://h/s"), false, true));
    assert_eq!(rows.len(), 10);
    assert_eq!(rows[2], FolderRow::Option { action: FolderAction::OpenTerminal, sensitive: false });
    assert_eq!(rows[4], FolderRow::Option { action: FolderAction::Paste, sensitive: false });
    assert_eq!(rows[5], FolderRow::Option { action: FolderAction::SelectAll, sensitive: true });
    assert_eq!(folder_label(FolderAction::ToggleHidden, true), "Hide Hidden Files");
    assert_eq!(folder_label(FolderAction::ToggleHidden, false), "Show Hidden Files");
    let mut pending = PendingNewEntry::new();
    assert_eq!(pending.chosen(FolderAction::NewFile), FolderCommand::Close);
    assert_eq!(pending.closed(), Some(false));
    assert_eq!(pending.closed(), None);
    assert_eq!(pending.chosen(FolderAction::Paste), FolderCommand::Paste);
    assert_eq!(pending.closed(), None);
}

#[test]
fn the_menu_of_a_chooser() {
    let facts = ChooserMenuFacts {
        single: true,
        supports_preview: true,
        in_trash: false,
        can_trash: None,
        can_delete: Some(false),
    };
    let actions: Vec<ChooserAction> =
        chooser_item_menu(facts).iter().map(|option| option.action).collect();
    assert_eq!(
        actions,
        vec![
            ChooserAction::Rename,
            ChooserAction::Preview,
            ChooserAction::Properties,
            ChooserAction::Trash,
        ]
    );
    let several = chooser_item_menu(ChooserMenuFacts { single: false, in_trash: true, ..facts });
    assert!(!several[0].enabled);
    assert_eq!(several[2].action, ChooserAction::PermanentDelete);
    assert!(several[2].danger);
    assert_eq!(chooser_folder_menu()[0].action, ChooserAction::NewFolder);
    assert_eq!(chooser_label(ChooserAction::Trash), "Move to Trash");
    assert_eq!(shortcut_text(several[0].shortcut), "F2 / Ctrl+R");
    assert!(chooser_menu_is_single(true, 5));
    assert!(!chooser_menu_is_single(false, 2));
    let mut menu = ChooserMenu::new();
    menu.chosen(ChooserAction::Rename);
    assert_eq!(menu.closed(), Some(ChooserAction::Rename));
    assert_eq!(menu.closed(), None);
    assert_eq!(
        chooser_command(ChooserAction::PermanentDelete),
        ChooserCommand::DeleteEntries { permanent: true }
    );
}

#[test]
fn menus_open_where_there_is_room() {
    assert_eq!(context_menu_placement(600, 100), (MenuSide::Bottom, 476));
    assert_eq!(context_menu_placement(600, 500), (MenuSide::Top, 476));
    assert_eq!(context_menu_placement(600, -5), (MenuSide::Bottom, 576));
    assert_eq!(context_menu_placement(10, 5), (MenuSide::Bottom, 1));
}

#[test]
fn types_are_grouped_by_suffix_and_remembered() {
    assert_eq!(type_group_key("a.tar.gz"), ".gz");
    assert_eq!(type_group_key(".profile"), ".profile");
    assert_eq!(type_group_key("README"), "README");
    assert_eq!(guess_type_group("", "x"), "File");
    assert_eq!(guess_type_group("application/octet-stream", "x"), "File");
    assert_eq!(guess_type_group("image/png", "PNG image"), "PNG image");
    let mut groups = TypeGroups::new();
    assert_eq!(groups.known_group("dv\tsub").as_deref(), Some("Folder"));
    assert_eq!(groups.known_group("fv\ta.png"), None);
    assert_eq!(groups.model_type_group("fv\ta.png", "image/png", "PNG image"), "PNG image");
    assert_eq!(groups.known_group("fv\tb.png").as_deref(), Some("PNG image"));
}

#[test]
fn sorting_is_chosen_from_a_menu() {
    let mut menu = SortMenu::column_sort_menu(SortPreferences {
        sort_key: SortKey::Size,
        sort_direction: SortDirection::Ascending,
        folders_first: true,
        show_hidden: false,
    });
    assert_eq!(menu.checked, SortKey::Size);
    menu.key_chosen(SortKey::Type);
    assert_eq!(menu.checked, SortKey::Type);
    assert!(!menu.folders_first_chosen());
    menu.shown(None);
    assert_eq!(menu.checked, SortKey::Type);
    assert_eq!(sort_key_label(SortKey::Modified), "Modified");
    assert_eq!(sort_menu_key_pressed(Key::BackSpace, NO_MODIFIERS), MenuKeyStep::Close);
    assert_eq!(
        sort_menu_key_pressed(Key::K, NO_MODIFIERS),
        MenuKeyStep::MoveFocus(Direction::Up)
    );
    let reversed = column_sort_direction_toggle(SortDirection::Ascending);
    assert_eq!(reversed, SortDirection::Descending);
    assert_eq!(column_sort_direction_toggle(reversed), SortDirection::Ascending);
    assert_eq!(sort_direction_tooltip(reversed), "Descending — click to reverse");
}

#[test]
fn one_color_of_a_folder_is_marked() {
    let green = FolderColor { place: 2 };
    let mut bar = FolderColorBar::build_folder_color_bar(None);
    assert!(bar.theme_is_active());
    assert_eq!(bar.custom_start("#ffffff", true), "#34d399");
    assert!(bar.preset_clicked(green).is_some());
    assert!(bar.preset_is_active(green));
    assert!(!bar.theme_is_active());
    assert_eq!(bar.custom_start("#123456", true), "#123456");
    assert!(bar.preset_clicked(green).is_none());
    assert!(bar.theme_is_active());
    assert!(matches!(
        bar.custom_chosen("#abcdef".to_owned()),
        Some(FolderColorValue::Custom(hex)) if hex == "#abcdef"
    ));
    assert_eq!(bar.custom_tooltip(), "Custom (#abcdef)");
    assert_eq!(bar.custom_color().as_deref(), Some("#abcdef"));
    assert_eq!(bar.custom_start("#123456", true), "#abcdef");
    assert_eq!(bar.custom_start("#123456", false), "#34d399");
    assert!(bar.theme_clicked().is_none());
    assert_eq!(bar.custom_tooltip(), "Custom color…");
}

#[test]
fn an_emoji_reads_back_from_its_preference() {
    let mut dialog = CustomizeDialog::show_customize_modal(None, None);
    assert!(!dialog.clear_sensitive);
    assert_eq!(dialog.emoji_label(), "Choose Emoji…");
    let preference = dialog.emoji_picked("🦀");
    assert_eq!(preference, "emoji:🦀");
    assert_eq!(custom_emoji(&preference).as_deref(), Some("🦀"));
    assert_eq!(custom_emoji("folder-symbolic"), None);
    assert_eq!(dialog.emoji_label(), "Emoji  🦀");
    dialog.icon_selected("folder-music-symbolic");
    assert!(dialog.icon_is_active("folder-music-symbolic"));
    dialog.cleared();
    assert!(!dialog.icon_is_active("folder-music-symbolic"));
    assert!(!dialog.clear_sensitive);
    assert_eq!(customize_title(true), "Customize Folder");
}

#[test]
fn escape_leaves_the_color_editor_before_the_dialog() {
    let mut dialog = CustomColorDialog::show_custom_color_modal(true);
    assert_eq!(dialog.title(), "Custom Folder Color");
    dialog.editor_shown(true);
    assert_eq!(dialog.subtitle(), "Customize folder color");
    assert!(dialog.back_visible());
    assert_eq!(dialog.key_pressed(Key::Escape), (Propagation::Stop, false));
    assert_eq!(dialog.subtitle(), "Choose a color for this folder");
    assert_eq!(dialog.key_pressed(Key::Escape), (Propagation::Stop, true));
    assert_eq!(dialog.key_pressed(Key::J), (Propagation::Proceed, false));
}

#[test]
fn dialogs_count_until_they_are_gone() {
    let mut layers = ModalLayers::new();
    let first = layers.open();
    let second = layers.open();
    assert_ne!(first, second);
    assert!(layers.blurred);
    assert!(layers.dismiss_modal_layer(second));
    assert!(!layers.dismiss_modal_layer(second));
    assert_eq!(layers.layers.len(), 2);
    layers.removed(second);
    assert!(!layers.pressed(first, true, false));
    assert!(!layers.pressed(first, false, true));
    assert!(layers.pressed(first, false, false));
    layers.removed(first);
    assert!(layers.layers.is_empty());
    assert!(!layers.blurred);
}

#[test]
fn an_error_is_dismissed_once() {
    let mut dialog =
        ErrorDialog::show_error_dialog("Completed with errors".to_owned(), "x".to_owned());
    assert_eq!(dialog.subtitle, "Some items could not be processed");
    assert_eq!(dialog.key_pressed(Key::Return), (Propagation::Proceed, false));
    assert_eq!(dialog.key_pressed(Key::Escape), (Propagation::Stop, true));
    assert!(!dialog.dismiss());
    assert_eq!(
        ErrorDialog::show_error_dialog("Failed".to_owned(), String::new()).subtitle,
        "The operation could not be completed"
    );
}

#[test]
fn a_terminal_opens_in_a_local_folder() {
    assert!(matches!(
        launch_terminal(&Location::local("/tmp/a b")),
        TerminalStep::Launch(argument) if argument == "--dir=/tmp/a b"
    ));
    assert!(matches!(
        launch_terminal(&Location::uri("smb://host/s")),
        TerminalStep::Refuse("This location is not a local folder")
    ));
}

#[test]
fn activities_end_alone() {
    let mut state = GlobalActivityState::new();
    assert_eq!(state.current_label(), None);
    assert_eq!(state.spinner_tooltip(), "Working…");
    let first = state.begin_global_activity("Copying".to_owned());
    let second = state.begin_global_activity("Moving".to_owned());
    assert_eq!(state.active.len(), 2);
    assert_eq!(state.current_label().as_deref(), Some("Moving"));
    state.finish_global_activity(second);
    assert_eq!(state.current_label().as_deref(), Some("Copying"));
    state.finish_global_activity(first);
    assert_eq!(state.current_label(), None);
}

#[test]
fn refreshing_by_itself_can_be_off() {
    assert_eq!(auto_refresh_interval(0), None);
    assert_eq!(auto_refresh_interval(5), Some(5));
}
