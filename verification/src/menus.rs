//! The menus of the browser: what they offer, and what choosing from them does.

use crate::entry::{
    cut_to, duplicate_entries, names_of, selected_items_summary, selection_summary, BrowserMode,
    FileEntry, PinStatus, SUMMARY_MAX_CHARS,
};
use crate::location::{can_open_terminal, is_trash_location, Location};
use crate::text::{concat_text, count_text, decimal};
use crate::trash::{move_to_trash_is_visible, permanently_delete_is_visible};
use vstd::prelude::*;

verus! {

/// Something that the menu of entries offers.
#[derive(Clone, Copy, Debug, PartialEq, Eq, Structural)]
pub enum ItemAction {
    Open,
    OpenTerminal,
    Preview,
    Print,
    Restore,
    Extract,
    ExtractTo,
    Pin,
    Cut,
    Copy,
    CopyPath,
    MoveTo,
    CopyTo,
    Rename,
    Compress,
    Customize,
    Properties,
    Trash,
    PermanentDelete,
}

/// A row of a menu.
#[derive(Clone, Copy, Debug, PartialEq, Eq, Structural)]
pub enum ItemRow {
    Separator,
    Option { action: ItemAction, visible: bool, sensitive: bool, danger: bool },
}

/// What the menu of entries depends on: the entry that was pressed, and what is known of it and of
/// the place it is in.
#[derive(Clone, Copy, Debug)]
pub struct ItemMenuFacts {
    pub in_trash: bool,
    pub can_trash: Option<bool>,
    pub can_delete: Option<bool>,
    pub is_directory: bool,
    pub is_native: bool,
    pub entry_in_trash: bool,
    pub supports_preview: bool,
    pub supports_printing: bool,
    pub is_archive: bool,
    pub pin_status: Option<PinStatus>,
    pub selected_count: usize,
}

/// What is known of the place that an entry is in.
#[derive(Clone, Copy, Debug, PartialEq, Eq, Structural)]
pub struct PlaceFacts {
    pub in_trash: bool,
    pub can_trash: Option<bool>,
    pub can_delete: Option<bool>,
}

/// What is known of what an entry holds.
#[derive(Clone, Copy, Debug, PartialEq, Eq, Structural)]
pub struct ContentFacts {
    pub supports_preview: bool,
    pub supports_printing: bool,
    pub is_archive: bool,
}

/// What the menu of entries depends on, for an entry that was pressed.
pub fn item_menu_facts(
    entry: &FileEntry,
    place: PlaceFacts,
    content: ContentFacts,
    pin_status: Option<PinStatus>,
    selected_count: usize,
) -> (result: ItemMenuFacts)
    ensures
        result == (ItemMenuFacts {
            in_trash: place.in_trash,
            can_trash: place.can_trash,
            can_delete: place.can_delete,
            is_directory: entry.kind.is_directory(),
            is_native: entry.location@ is Native,
            entry_in_trash: entry.location@.in_trash(),
            supports_preview: content.supports_preview,
            supports_printing: content.supports_printing,
            is_archive: content.is_archive,
            pin_status,
            selected_count,
        }),
{
    ItemMenuFacts {
        in_trash: place.in_trash,
        can_trash: place.can_trash,
        can_delete: place.can_delete,
        is_directory: entry.is_directory(),
        is_native: entry.location.native_path().is_some(),
        entry_in_trash: is_trash_location(&entry.location),
        supports_preview: content.supports_preview,
        supports_printing: content.supports_printing,
        is_archive: content.is_archive,
        pin_status,
        selected_count,
    }
}

/// Whether pressing an entry for its menu first makes it the whole selection: unless it is selected
/// already.
pub fn menu_press_selects(is_selected: bool) -> (result: bool)
    ensures
        result == !is_selected,
{
    !is_selected
}

/// Whether the option that moves entries to the trash is shown.
pub open spec fn offers_trash(facts: ItemMenuFacts) -> bool {
    facts.in_trash || facts.can_trash != Some(false)
}

/// Whether the option that deletes entries for good is shown beside it.
pub open spec fn offers_permanent_delete(facts: ItemMenuFacts) -> bool {
    !facts.in_trash && facts.can_delete != Some(false)
}

/// An option that is always there.
pub open spec fn plain(action: ItemAction) -> ItemRow {
    ItemRow::Option { action, visible: true, sensitive: true, danger: false }
}

/// An option that is there on a condition.
pub open spec fn shown_if(action: ItemAction, visible: bool) -> ItemRow {
    ItemRow::Option { action, visible, sensitive: true, danger: false }
}

/// The options that delete. In the trash the first deletes for good, and looks it.
pub open spec fn delete_rows(facts: ItemMenuFacts) -> Seq<ItemRow> {
    seq![
        ItemRow::Option {
            action: ItemAction::Trash,
            visible: offers_trash(facts),
            sensitive: true,
            danger: facts.in_trash,
        },
        ItemRow::Option {
            action: ItemAction::PermanentDelete,
            visible: offers_permanent_delete(facts),
            sensitive: true,
            danger: true,
        },
    ]
}

/// The menu of one entry.
pub open spec fn single_rows(facts: ItemMenuFacts) -> Seq<ItemRow> {
    seq![
        plain(ItemAction::Open),
        shown_if(
            ItemAction::OpenTerminal,
            facts.is_directory && facts.is_native && !facts.entry_in_trash,
        ),
        shown_if(ItemAction::Preview, facts.supports_preview),
        shown_if(ItemAction::Print, facts.supports_printing),
        shown_if(ItemAction::Restore, facts.in_trash),
        shown_if(ItemAction::Extract, facts.is_archive),
        shown_if(ItemAction::ExtractTo, facts.is_archive),
        ItemRow::Separator,
        ItemRow::Option {
            action: ItemAction::Pin,
            visible: facts.is_directory && !facts.entry_in_trash,
            sensitive: facts.pin_status == Some(PinStatus::Available),
            danger: false,
        },
        plain(ItemAction::Cut),
        plain(ItemAction::Copy),
        plain(ItemAction::CopyPath),
        ItemRow::Separator,
        plain(ItemAction::MoveTo),
        plain(ItemAction::CopyTo),
        ItemRow::Separator,
        plain(ItemAction::Rename),
        plain(ItemAction::Compress),
        ItemRow::Separator,
        shown_if(
            ItemAction::Customize,
            !facts.in_trash && facts.selected_count == 1 && facts.is_native,
        ),
        plain(ItemAction::Properties),
        ItemRow::Separator,
    ] + delete_rows(facts)
}

/// The menu of several entries.
pub open spec fn multiple_rows(facts: ItemMenuFacts) -> Seq<ItemRow> {
    seq![
        shown_if(ItemAction::Restore, facts.in_trash),
        plain(ItemAction::Cut),
        plain(ItemAction::Copy),
        plain(ItemAction::CopyPath),
        ItemRow::Separator,
        plain(ItemAction::MoveTo),
        plain(ItemAction::CopyTo),
        ItemRow::Separator,
        plain(ItemAction::Compress),
        ItemRow::Separator,
    ] + delete_rows(facts)
}

/// The rows of the menu of entries.
pub open spec fn item_rows(facts: ItemMenuFacts) -> Seq<ItemRow> {
    if facts.selected_count > 1 {
        multiple_rows(facts)
    } else {
        single_rows(facts)
    }
}

fn plain_row(action: ItemAction) -> (result: ItemRow)
    ensures
        result == plain(action),
{
    ItemRow::Option { action, visible: true, sensitive: true, danger: false }
}

fn row_if(action: ItemAction, visible: bool) -> (result: ItemRow)
    ensures
        result == shown_if(action, visible),
{
    ItemRow::Option { action, visible, sensitive: true, danger: false }
}

fn push_delete_rows(rows: &mut Vec<ItemRow>, facts: ItemMenuFacts)
    ensures
        final(rows)@ == old(rows)@ + delete_rows(facts),
{
    rows.push(
        ItemRow::Option {
            action: ItemAction::Trash,
            visible: move_to_trash_is_visible(facts.in_trash, facts.can_trash),
            sensitive: true,
            danger: facts.in_trash,
        },
    );
    rows.push(
        ItemRow::Option {
            action: ItemAction::PermanentDelete,
            visible: permanently_delete_is_visible(facts.in_trash, facts.can_delete),
            sensitive: true,
            danger: true,
        },
    );
    assert(rows@ == old(rows)@ + delete_rows(facts));
}

/// The rows of the menu of entries: one set for a single entry, another for several.
pub fn item_context_menu(facts: ItemMenuFacts) -> (result: Vec<ItemRow>)
    ensures
        result@ == item_rows(facts),
{
    let mut rows: Vec<ItemRow> = Vec::new();
    if facts.selected_count > 1 {
        rows.push(row_if(ItemAction::Restore, facts.in_trash));
        rows.push(plain_row(ItemAction::Cut));
        rows.push(plain_row(ItemAction::Copy));
        rows.push(plain_row(ItemAction::CopyPath));
        rows.push(ItemRow::Separator);
        rows.push(plain_row(ItemAction::MoveTo));
        rows.push(plain_row(ItemAction::CopyTo));
        rows.push(ItemRow::Separator);
        rows.push(plain_row(ItemAction::Compress));
        rows.push(ItemRow::Separator);
        push_delete_rows(&mut rows, facts);
        assert(rows@ == multiple_rows(facts));
        return rows;
    }
    rows.push(plain_row(ItemAction::Open));
    rows.push(
        row_if(
            ItemAction::OpenTerminal,
            facts.is_directory && facts.is_native && !facts.entry_in_trash,
        ),
    );
    rows.push(row_if(ItemAction::Preview, facts.supports_preview));
    rows.push(row_if(ItemAction::Print, facts.supports_printing));
    rows.push(row_if(ItemAction::Restore, facts.in_trash));
    rows.push(row_if(ItemAction::Extract, facts.is_archive));
    rows.push(row_if(ItemAction::ExtractTo, facts.is_archive));
    rows.push(ItemRow::Separator);
    let is_available: bool = match facts.pin_status {
        Some(PinStatus::Available) => true,
        _ => false,
    };
    rows.push(
        ItemRow::Option {
            action: ItemAction::Pin,
            visible: facts.is_directory && !facts.entry_in_trash,
            sensitive: is_available,
            danger: false,
        },
    );
    rows.push(plain_row(ItemAction::Cut));
    rows.push(plain_row(ItemAction::Copy));
    rows.push(plain_row(ItemAction::CopyPath));
    rows.push(ItemRow::Separator);
    rows.push(plain_row(ItemAction::MoveTo));
    rows.push(plain_row(ItemAction::CopyTo));
    rows.push(ItemRow::Separator);
    rows.push(plain_row(ItemAction::Rename));
    rows.push(plain_row(ItemAction::Compress));
    rows.push(ItemRow::Separator);
    rows.push(
        row_if(
            ItemAction::Customize,
            !facts.in_trash && facts.selected_count == 1 && facts.is_native,
        ),
    );
    rows.push(plain_row(ItemAction::Properties));
    rows.push(ItemRow::Separator);
    push_delete_rows(&mut rows, facts);
    assert(rows@ == single_rows(facts));
    rows
}

/// What an option of the menu of entries says.
pub open spec fn item_label_text(action: ItemAction, multiple: bool, in_trash: bool) -> Seq<char> {
    match action {
        ItemAction::Open => "Open"@,
        ItemAction::OpenTerminal => "Open in Terminal"@,
        ItemAction::Preview => "Quick preview"@,
        ItemAction::Print => "Print"@,
        ItemAction::Restore => if multiple {
            "Restore items"@
        } else {
            "Restore"@
        },
        ItemAction::Extract => "Extract here"@,
        ItemAction::ExtractTo => "Extract to…"@,
        ItemAction::Pin => "Pin to sidebar"@,
        ItemAction::Cut => "Cut"@,
        ItemAction::Copy => "Copy"@,
        ItemAction::CopyPath => if multiple {
            "Copy paths"@
        } else {
            "Copy path"@
        },
        ItemAction::MoveTo => "Move to…"@,
        ItemAction::CopyTo => "Copy to…"@,
        ItemAction::Rename => "Rename"@,
        ItemAction::Compress => "Compress…"@,
        ItemAction::Customize => "Customize…"@,
        ItemAction::Properties => "Properties"@,
        ItemAction::Trash => if in_trash {
            "Permanently delete"@
        } else {
            "Move to Trash"@
        },
        ItemAction::PermanentDelete => "Permanently delete"@,
    }
}

/// What an option of the menu of entries says.
pub fn item_label(action: ItemAction, multiple: bool, in_trash: bool) -> (result: &'static str)
    ensures
        result@ == item_label_text(action, multiple, in_trash),
{
    match action {
        ItemAction::Open => "Open",
        ItemAction::OpenTerminal => "Open in Terminal",
        ItemAction::Preview => "Quick preview",
        ItemAction::Print => "Print",
        ItemAction::Restore => if multiple {
            "Restore items"
        } else {
            "Restore"
        },
        ItemAction::Extract => "Extract here",
        ItemAction::ExtractTo => "Extract to…",
        ItemAction::Pin => "Pin to sidebar",
        ItemAction::Cut => "Cut",
        ItemAction::Copy => "Copy",
        ItemAction::CopyPath => if multiple {
            "Copy paths"
        } else {
            "Copy path"
        },
        ItemAction::MoveTo => "Move to…",
        ItemAction::CopyTo => "Copy to…",
        ItemAction::Rename => "Rename",
        ItemAction::Compress => "Compress…",
        ItemAction::Customize => "Customize…",
        ItemAction::Properties => "Properties",
        ItemAction::Trash => if in_trash {
            "Permanently delete"
        } else {
            "Move to Trash"
        },
        ItemAction::PermanentDelete => "Permanently delete",
    }
}

/// The shortcut that an option of the menu of entries shows; none is empty.
pub open spec fn item_accelerator_text(action: ItemAction) -> Seq<char> {
    match action {
        ItemAction::Open => "↵"@,
        ItemAction::OpenTerminal => "Ctrl+T"@,
        ItemAction::Preview => "Space"@,
        ItemAction::Pin => "P"@,
        ItemAction::Cut => "Ctrl+X"@,
        ItemAction::Copy => "Ctrl+C"@,
        ItemAction::CopyPath => "Y"@,
        ItemAction::Rename => "F2"@,
        ItemAction::Properties => "Alt+Enter"@,
        ItemAction::Trash => "Del"@,
        ItemAction::PermanentDelete => "Shift+Del"@,
        _ => ""@,
    }
}

/// The shortcut that an option of the menu of entries shows; none is empty.
pub fn item_accelerator(action: ItemAction) -> (result: &'static str)
    ensures
        result@ == item_accelerator_text(action),
{
    match action {
        ItemAction::Open => "↵",
        ItemAction::OpenTerminal => "Ctrl+T",
        ItemAction::Preview => "Space",
        ItemAction::Pin => "P",
        ItemAction::Cut => "Ctrl+X",
        ItemAction::Copy => "Ctrl+C",
        ItemAction::CopyPath => "Y",
        ItemAction::Rename => "F2",
        ItemAction::Properties => "Alt+Enter",
        ItemAction::Trash => "Del",
        ItemAction::PermanentDelete => "Shift+Del",
        _ => "",
    }
}

/// What stands above the menu of entries.
#[derive(Debug)]
pub struct ItemMenuHeader {
    pub heading: String,
    pub summary: String,
}

/// What stands above the menu of entries: the number and the first names of several, or the name
/// and the place of one. `place` is where that one is, in short.
pub fn item_menu_header(entry: &FileEntry, place: &str, selected: &Vec<FileEntry>) -> (result:
    ItemMenuHeader)
    ensures
        selected@.len() > 1 ==> result.heading@ == decimal(selected@.len()) + " items selected"@
            && result.summary@ == cut_to(
            selection_summary(names_of(selected@)),
            SUMMARY_MAX_CHARS as nat,
        ),
        selected@.len() <= 1 ==> result.heading@ == entry.display_name@ && result.summary@ == place@,
{
    if selected.len() > 1 {
        let number: String = count_text(selected.len());
        ItemMenuHeader {
            heading: concat_text(number.as_str(), " items selected"),
            summary: selected_items_summary(selected),
        }
    } else {
        ItemMenuHeader { heading: entry.display_name.clone(), summary: place.to_owned() }
    }
}

/// The entries that an option works on: those selected, or the one that was pressed.
pub fn context_entries(selected: &Vec<FileEntry>, target: Option<&FileEntry>) -> (result: Vec<
    FileEntry,
>)
    ensures
        result@ == if selected@.len() > 0 {
            selected@
        } else {
            match target {
                Some(entry) => seq![*entry],
                None => Seq::empty(),
            }
        },
{
    if selected.len() > 0 {
        return duplicate_entries(selected);
    }
    let mut result: Vec<FileEntry> = Vec::new();
    match target {
        Some(entry) => {
            result.push(entry.duplicate());
        },
        None => {},
    }
    result
}

/// What an option of the menu of entries does.
#[derive(Clone, Copy, Debug, PartialEq, Eq, Structural)]
pub enum ItemCommand {
    Nothing,
    /// Open the entry, in a pane of its own or in place.
    Activate { in_place: bool },
    LaunchTerminal,
    Preview,
    Print,
    RestoreSelected,
    Extract,
    ExtractTo,
    PinEntry,
    CutSelected,
    CopySelected,
    /// Copy the path of the entry that was pressed.
    CopyPath,
    /// Copy the paths of the entries that the menu works on.
    CopyPaths,
    TransferSelected { move_sources: bool },
    /// Select the entry and rename it, once the menu is closed.
    RenameEntry,
    CompressSelected,
    Customize,
    ShowProperties,
    DeleteSelected { permanent: bool },
}

/// What an option of the menu of entries depends on when it is chosen.
#[derive(Clone, Copy, Debug)]
pub struct ItemCommandFacts {
    pub has_target: bool,
    pub multiple: bool,
    pub mode: BrowserMode,
    pub is_directory: bool,
    pub is_native: bool,
    pub supports_printing: bool,
    pub has_print_handler: bool,
    pub has_pin_handler: bool,
    pub in_trash: bool,
}

/// Whether an option works on the entry that was pressed rather than on the selection.
pub open spec fn needs_target(action: ItemAction, multiple: bool) -> bool {
    match action {
        ItemAction::Open
        | ItemAction::OpenTerminal
        | ItemAction::Preview
        | ItemAction::Print
        | ItemAction::Extract
        | ItemAction::ExtractTo
        | ItemAction::Pin
        | ItemAction::Rename
        | ItemAction::Customize
        | ItemAction::Properties => true,
        ItemAction::CopyPath => !multiple,
        _ => false,
    }
}

/// What choosing an option does.
pub open spec fn command_of(action: ItemAction, facts: ItemCommandFacts) -> ItemCommand {
    if needs_target(action, facts.multiple) && !facts.has_target {
        ItemCommand::Nothing
    } else {
        match action {
            ItemAction::Open => ItemCommand::Activate { in_place: facts.mode !is Columns },
            ItemAction::OpenTerminal => ItemCommand::LaunchTerminal,
            ItemAction::Preview => if facts.is_directory {
                ItemCommand::Nothing
            } else {
                ItemCommand::Preview
            },
            ItemAction::Print => if facts.has_print_handler && facts.supports_printing {
                ItemCommand::Print
            } else {
                ItemCommand::Nothing
            },
            ItemAction::Restore => ItemCommand::RestoreSelected,
            ItemAction::Extract => ItemCommand::Extract,
            ItemAction::ExtractTo => ItemCommand::ExtractTo,
            ItemAction::Pin => if facts.is_directory && facts.has_pin_handler {
                ItemCommand::PinEntry
            } else {
                ItemCommand::Nothing
            },
            ItemAction::Cut => ItemCommand::CutSelected,
            ItemAction::Copy => ItemCommand::CopySelected,
            ItemAction::CopyPath => if facts.multiple {
                ItemCommand::CopyPaths
            } else {
                ItemCommand::CopyPath
            },
            ItemAction::MoveTo => ItemCommand::TransferSelected { move_sources: true },
            ItemAction::CopyTo => ItemCommand::TransferSelected { move_sources: false },
            ItemAction::Rename => ItemCommand::RenameEntry,
            ItemAction::Compress => ItemCommand::CompressSelected,
            ItemAction::Customize => if facts.is_native {
                ItemCommand::Customize
            } else {
                ItemCommand::Nothing
            },
            ItemAction::Properties => ItemCommand::ShowProperties,
            ItemAction::Trash => ItemCommand::DeleteSelected { permanent: facts.in_trash },
            ItemAction::PermanentDelete => ItemCommand::DeleteSelected { permanent: true },
        }
    }
}

fn works_on_target(action: ItemAction, multiple: bool) -> (result: bool)
    ensures
        result == needs_target(action, multiple),
{
    match action {
        ItemAction::Open
        | ItemAction::OpenTerminal
        | ItemAction::Preview
        | ItemAction::Print
        | ItemAction::Extract
        | ItemAction::ExtractTo
        | ItemAction::Pin
        | ItemAction::Rename
        | ItemAction::Customize
        | ItemAction::Properties => true,
        ItemAction::CopyPath => !multiple,
        _ => false,
    }
}

/// What choosing an option of the menu of entries does.
pub fn item_command(action: ItemAction, facts: ItemCommandFacts) -> (result: ItemCommand)
    ensures
        result == command_of(action, facts),
{
    if works_on_target(action, facts.multiple) && !facts.has_target {
        return ItemCommand::Nothing;
    }
    match action {
        ItemAction::Open => ItemCommand::Activate { in_place: facts.mode != BrowserMode::Columns },
        ItemAction::OpenTerminal => ItemCommand::LaunchTerminal,
        ItemAction::Preview => if facts.is_directory {
            ItemCommand::Nothing
        } else {
            ItemCommand::Preview
        },
        ItemAction::Print => if facts.has_print_handler && facts.supports_printing {
            ItemCommand::Print
        } else {
            ItemCommand::Nothing
        },
        ItemAction::Restore => ItemCommand::RestoreSelected,
        ItemAction::Extract => ItemCommand::Extract,
        ItemAction::ExtractTo => ItemCommand::ExtractTo,
        ItemAction::Pin => if facts.is_directory && facts.has_pin_handler {
            ItemCommand::PinEntry
        } else {
            ItemCommand::Nothing
        },
        ItemAction::Cut => ItemCommand::CutSelected,
        ItemAction::Copy => ItemCommand::CopySelected,
        ItemAction::CopyPath => if facts.multiple {
            ItemCommand::CopyPaths
        } else {
            ItemCommand::CopyPath
        },
        ItemAction::MoveTo => ItemCommand::TransferSelected { move_sources: true },
        ItemAction::CopyTo => ItemCommand::TransferSelected { move_sources: false },
        ItemAction::Rename => ItemCommand::RenameEntry,
        ItemAction::Compress => ItemCommand::CompressSelected,
        ItemAction::Customize => if facts.is_native {
            ItemCommand::Customize
        } else {
            ItemCommand::Nothing
        },
        ItemAction::Properties => ItemCommand::ShowProperties,
        ItemAction::Trash => ItemCommand::DeleteSelected { permanent: facts.in_trash },
        ItemAction::PermanentDelete => ItemCommand::DeleteSelected { permanent: true },
    }
}

/// Something that the menu of a folder offers.
#[derive(Clone, Copy, Debug, PartialEq, Eq, Structural)]
pub enum FolderAction {
    NewFolder,
    NewFile,
    OpenTerminal,
    Paste,
    SelectAll,
    Refresh,
    ToggleHidden,
    Properties,
}

/// A row of the menu of a folder.
#[derive(Clone, Copy, Debug, PartialEq, Eq, Structural)]
pub enum FolderRow {
    Separator,
    Option { action: FolderAction, sensitive: bool },
}

/// What the menu of a folder depends on.
#[derive(Clone, Copy, Debug)]
pub struct FolderMenuFacts {
    pub clipboard_has_files: bool,
    pub has_entries: bool,
    pub terminal_available: bool,
}

/// The rows of the menu of a folder.
pub open spec fn folder_rows(facts: FolderMenuFacts) -> Seq<FolderRow> {
    seq![
        FolderRow::Option { action: FolderAction::NewFolder, sensitive: true },
        FolderRow::Option { action: FolderAction::NewFile, sensitive: true },
        FolderRow::Option {
            action: FolderAction::OpenTerminal,
            sensitive: facts.terminal_available,
        },
        FolderRow::Separator,
        FolderRow::Option { action: FolderAction::Paste, sensitive: facts.clipboard_has_files },
        FolderRow::Option { action: FolderAction::SelectAll, sensitive: facts.has_entries },
        FolderRow::Option { action: FolderAction::Refresh, sensitive: true },
        FolderRow::Option { action: FolderAction::ToggleHidden, sensitive: true },
        FolderRow::Separator,
        FolderRow::Option { action: FolderAction::Properties, sensitive: true },
    ]
}

/// The rows of the menu of a folder.
pub fn folder_context_menu(facts: FolderMenuFacts) -> (result: Vec<FolderRow>)
    ensures
        result@ == folder_rows(facts),
{
    let mut rows: Vec<FolderRow> = Vec::new();
    rows.push(FolderRow::Option { action: FolderAction::NewFolder, sensitive: true });
    rows.push(FolderRow::Option { action: FolderAction::NewFile, sensitive: true });
    rows.push(
        FolderRow::Option {
            action: FolderAction::OpenTerminal,
            sensitive: facts.terminal_available,
        },
    );
    rows.push(FolderRow::Separator);
    rows.push(
        FolderRow::Option { action: FolderAction::Paste, sensitive: facts.clipboard_has_files },
    );
    rows.push(
        FolderRow::Option { action: FolderAction::SelectAll, sensitive: facts.has_entries },
    );
    rows.push(FolderRow::Option { action: FolderAction::Refresh, sensitive: true });
    rows.push(FolderRow::Option { action: FolderAction::ToggleHidden, sensitive: true });
    rows.push(FolderRow::Separator);
    rows.push(FolderRow::Option { action: FolderAction::Properties, sensitive: true });
    assert(rows@ == folder_rows(facts));
    rows
}

/// What an option of the menu of a folder says.
pub open spec fn folder_label_text(action: FolderAction, hidden_files_shown: bool) -> Seq<char> {
    match action {
        FolderAction::NewFolder => "New Folder"@,
        FolderAction::NewFile => "New File"@,
        FolderAction::OpenTerminal => "Open in Terminal"@,
        FolderAction::Paste => "Paste"@,
        FolderAction::SelectAll => "Select All"@,
        FolderAction::Refresh => "Refresh"@,
        FolderAction::ToggleHidden => if hidden_files_shown {
            "Hide Hidden Files"@
        } else {
            "Show Hidden Files"@
        },
        FolderAction::Properties => "Properties"@,
    }
}

/// What an option of the menu of a folder says.
pub fn folder_label(action: FolderAction, hidden_files_shown: bool) -> (result: &'static str)
    ensures
        result@ == folder_label_text(action, hidden_files_shown),
{
    match action {
        FolderAction::NewFolder => "New Folder",
        FolderAction::NewFile => "New File",
        FolderAction::OpenTerminal => "Open in Terminal",
        FolderAction::Paste => "Paste",
        FolderAction::SelectAll => "Select All",
        FolderAction::Refresh => "Refresh",
        FolderAction::ToggleHidden => toggle_hidden_label(hidden_files_shown),
        FolderAction::Properties => "Properties",
    }
}

/// The shortcut that an option of the menu of a folder shows; none is empty.
pub fn folder_accelerator(action: FolderAction) -> (result: &'static str)
    ensures
        result@ == match action {
            FolderAction::NewFolder => "Ctrl+Shift+N"@,
            FolderAction::OpenTerminal => "Ctrl+T"@,
            FolderAction::Paste => "Ctrl+V"@,
            FolderAction::SelectAll => "Ctrl+A"@,
            FolderAction::Refresh => "F5"@,
            FolderAction::ToggleHidden => "Ctrl+H"@,
            FolderAction::NewFile | FolderAction::Properties => ""@,
        },
{
    match action {
        FolderAction::NewFolder => "Ctrl+Shift+N",
        FolderAction::OpenTerminal => "Ctrl+T",
        FolderAction::Paste => "Ctrl+V",
        FolderAction::SelectAll => "Ctrl+A",
        FolderAction::Refresh => "F5",
        FolderAction::ToggleHidden => "Ctrl+H",
        FolderAction::NewFile | FolderAction::Properties => "",
    }
}

/// What the option that shows or hides hidden files says.
pub fn toggle_hidden_label(hidden_files_shown: bool) -> (result: &'static str)
    ensures
        result@ == if hidden_files_shown {
            "Hide Hidden Files"@
        } else {
            "Show Hidden Files"@
        },
{
    if hidden_files_shown {
        "Hide Hidden Files"
    } else {
        "Show Hidden Files"
    }
}

/// The new entry that waits for the menu of a folder to close.
#[derive(Clone, Copy, Debug)]
pub struct PendingNewEntry {
    pub is_directory: Option<bool>,
}

/// What an option of the menu of a folder does at once.
#[derive(Clone, Copy, Debug, PartialEq, Eq, Structural)]
pub enum FolderCommand {
    /// Only close the menu; what was chosen follows then.
    Close,
    LaunchTerminal,
    Paste,
    SelectAll,
    Refresh,
    ToggleHidden,
    ShowProperties,
}

impl PendingNewEntry {
    /// A menu that was just opened.
    pub fn new() -> (result: Self)
        ensures
            result.is_directory is None,
    {
        PendingNewEntry { is_directory: None }
    }

    /// Takes the choice of an option. A new entry waits for the menu to close.
    pub fn chosen(&mut self, action: FolderAction) -> (result: FolderCommand)
        ensures
            final(self).is_directory == match action {
                FolderAction::NewFolder => Some(true),
                FolderAction::NewFile => Some(false),
                _ => old(self).is_directory,
            },
            result == match action {
                FolderAction::NewFolder | FolderAction::NewFile => FolderCommand::Close,
                FolderAction::OpenTerminal => FolderCommand::LaunchTerminal,
                FolderAction::Paste => FolderCommand::Paste,
                FolderAction::SelectAll => FolderCommand::SelectAll,
                FolderAction::Refresh => FolderCommand::Refresh,
                FolderAction::ToggleHidden => FolderCommand::ToggleHidden,
                FolderAction::Properties => FolderCommand::ShowProperties,
            },
    {
        match action {
            FolderAction::NewFolder => {
                self.is_directory = Some(true);
                FolderCommand::Close
            },
            FolderAction::NewFile => {
                self.is_directory = Some(false);
                FolderCommand::Close
            },
            FolderAction::OpenTerminal => FolderCommand::LaunchTerminal,
            FolderAction::Paste => FolderCommand::Paste,
            FolderAction::SelectAll => FolderCommand::SelectAll,
            FolderAction::Refresh => FolderCommand::Refresh,
            FolderAction::ToggleHidden => FolderCommand::ToggleHidden,
            FolderAction::Properties => FolderCommand::ShowProperties,
        }
    }

    /// Takes the closing of the menu: the new entry to begin, once.
    pub fn closed(&mut self) -> (result: Option<bool>)
        ensures
            result == old(self).is_directory,
            final(self).is_directory is None,
    {
        let pending: Option<bool> = self.is_directory;
        self.is_directory = None;
        pending
    }
}

/// Something that a menu of the file chooser offers.
#[derive(Clone, Copy, Debug, PartialEq, Eq, Structural)]
pub enum ChooserAction {
    Rename,
    Preview,
    Properties,
    Trash,
    PermanentDelete,
    NewFolder,
}

/// A shortcut that a menu of the file chooser shows.
#[derive(Clone, Copy, Debug, PartialEq, Eq, Structural)]
pub enum ChooserShortcut {
    RenameKeys,
    Space,
    AltEnter,
    Delete,
    ShiftDelete,
    ControlShiftN,
}

/// What a shortcut of the file chooser reads.
pub fn shortcut_text(shortcut: ChooserShortcut) -> (result: &'static str)
    ensures
        result@ == match shortcut {
            ChooserShortcut::RenameKeys => "F2 / Ctrl+R"@,
            ChooserShortcut::Space => "Space"@,
            ChooserShortcut::AltEnter => "Alt+Enter"@,
            ChooserShortcut::Delete => "Del"@,
            ChooserShortcut::ShiftDelete => "Shift+Del"@,
            ChooserShortcut::ControlShiftN => "Ctrl+Shift+N"@,
        },
{
    match shortcut {
        ChooserShortcut::RenameKeys => "F2 / Ctrl+R",
        ChooserShortcut::Space => "Space",
        ChooserShortcut::AltEnter => "Alt+Enter",
        ChooserShortcut::Delete => "Del",
        ChooserShortcut::ShiftDelete => "Shift+Del",
        ChooserShortcut::ControlShiftN => "Ctrl+Shift+N",
    }
}

/// An option of a menu of the file chooser.
#[derive(Clone, Copy, Debug, PartialEq, Eq, Structural)]
pub struct ChooserOption {
    pub action: ChooserAction,
    pub shortcut: ChooserShortcut,
    pub enabled: bool,
    pub danger: bool,
}

/// What the menu of entries depends on in the file chooser.
#[derive(Clone, Copy, Debug)]
pub struct ChooserMenuFacts {
    pub single: bool,
    pub supports_preview: bool,
    pub in_trash: bool,
    pub can_trash: Option<bool>,
    pub can_delete: Option<bool>,
}

/// Whether the chooser's menu is that of one entry: of a search result, or of the only entry that
/// is selected.
pub fn chooser_menu_is_single(is_search_result: bool, selected_count: usize) -> (result: bool)
    ensures
        result == (is_search_result || selected_count == 1),
{
    is_search_result || selected_count == 1
}

/// The options, if they are there.
pub open spec fn optional_option(shown: bool, option: ChooserOption) -> Seq<ChooserOption> {
    if shown {
        seq![option]
    } else {
        Seq::empty()
    }
}

/// The menu of entries in the file chooser.
pub open spec fn chooser_options(facts: ChooserMenuFacts) -> Seq<ChooserOption> {
    seq![
        ChooserOption { action: ChooserAction::Rename, shortcut: ChooserShortcut::RenameKeys, enabled: facts.single, danger: false },
    ] + optional_option(
        facts.single && facts.supports_preview,
        ChooserOption { action: ChooserAction::Preview, shortcut: ChooserShortcut::Space, enabled: true, danger: false },
    ) + seq![
        ChooserOption { action: ChooserAction::Properties, shortcut: ChooserShortcut::AltEnter, enabled: true, danger: false },
    ] + optional_option(
        facts.in_trash || facts.can_trash != Some(false),
        ChooserOption {
            action: if facts.in_trash {
                ChooserAction::PermanentDelete
            } else {
                ChooserAction::Trash
            },
            shortcut: ChooserShortcut::Delete,
            enabled: true,
            danger: facts.in_trash,
        },
    ) + optional_option(
        !facts.in_trash && facts.can_delete != Some(false),
        ChooserOption { action: ChooserAction::PermanentDelete, shortcut: ChooserShortcut::ShiftDelete, enabled: true, danger: true },
    )
}

/// The menu of entries in the file chooser.
pub fn chooser_item_menu(facts: ChooserMenuFacts) -> (result: Vec<ChooserOption>)
    ensures
        result@ == chooser_options(facts),
{
    let mut options: Vec<ChooserOption> = Vec::new();
    options.push(
        ChooserOption { action: ChooserAction::Rename, shortcut: ChooserShortcut::RenameKeys, enabled: facts.single, danger: false },
    );
    if facts.single && facts.supports_preview {
        options.push(
            ChooserOption { action: ChooserAction::Preview, shortcut: ChooserShortcut::Space, enabled: true, danger: false },
        );
    }
    options.push(
        ChooserOption { action: ChooserAction::Properties, shortcut: ChooserShortcut::AltEnter, enabled: true, danger: false },
    );
    if move_to_trash_is_visible(facts.in_trash, facts.can_trash) {
        options.push(
            ChooserOption {
                action: if facts.in_trash {
                    ChooserAction::PermanentDelete
                } else {
                    ChooserAction::Trash
                },
                shortcut: ChooserShortcut::Delete,
                enabled: true,
                danger: facts.in_trash,
            },
        );
    }
    if permanently_delete_is_visible(facts.in_trash, facts.can_delete) {
        options.push(
            ChooserOption { action: ChooserAction::PermanentDelete, shortcut: ChooserShortcut::ShiftDelete, enabled: true, danger: true },
        );
    }
    assert(options@ == chooser_options(facts));
    options
}

/// What an option of the chooser's menu says.
pub fn chooser_label(action: ChooserAction) -> (result: &'static str)
    ensures
        result@ == match action {
            ChooserAction::Rename => "Rename"@,
            ChooserAction::Preview => "Quick preview"@,
            ChooserAction::Properties => "Properties"@,
            ChooserAction::Trash => "Move to Trash"@,
            ChooserAction::PermanentDelete => "Permanently delete"@,
            ChooserAction::NewFolder => "New Folder"@,
        },
{
    match action {
        ChooserAction::Rename => "Rename",
        ChooserAction::Preview => "Quick preview",
        ChooserAction::Properties => "Properties",
        ChooserAction::Trash => "Move to Trash",
        ChooserAction::PermanentDelete => "Permanently delete",
        ChooserAction::NewFolder => "New Folder",
    }
}

/// The menu of a folder in the file chooser.
pub fn chooser_folder_menu() -> (result: Vec<ChooserOption>)
    ensures
        result@ == seq![
            ChooserOption {
                action: ChooserAction::NewFolder,
                shortcut: ChooserShortcut::ControlShiftN,
                enabled: true,
                danger: false,
            },
        ],
{
    let mut options: Vec<ChooserOption> = Vec::new();
    options.push(
        ChooserOption {
            action: ChooserAction::NewFolder,
            shortcut: ChooserShortcut::ControlShiftN,
            enabled: true,
            danger: false,
        },
    );
    options
}

/// A menu of the file chooser that was opened: what was chosen in it, until it closes.
#[derive(Clone, Copy, Debug)]
pub struct ChooserMenu {
    pub pending: Option<ChooserAction>,
}

impl ChooserMenu {
    /// A menu that was just opened.
    pub fn new() -> (result: Self)
        ensures
            result.pending is None,
    {
        ChooserMenu { pending: None }
    }

    /// Takes the choice of an option; the menu is then to close.
    pub fn chosen(&mut self, action: ChooserAction)
        ensures
            final(self).pending == Some(action),
    {
        self.pending = Some(action);
    }

    /// Takes the closing of the menu: what is to be done then, once.
    pub fn closed(&mut self) -> (result: Option<ChooserAction>)
        ensures
            result == old(self).pending,
            final(self).pending is None,
    {
        let pending: Option<ChooserAction> = self.pending;
        self.pending = None;
        pending
    }
}

/// What an option of the file chooser does.
#[derive(Clone, Copy, Debug, PartialEq, Eq, Structural)]
pub enum ChooserCommand {
    RenameEntry,
    PreviewEntry,
    ShowProperties,
    /// Delete the entries that the menu works on.
    DeleteEntries { permanent: bool },
    BeginNewFolder,
}

/// What an option of the file chooser does.
pub fn chooser_command(action: ChooserAction) -> (result: ChooserCommand)
    ensures
        result == match action {
            ChooserAction::Rename => ChooserCommand::RenameEntry,
            ChooserAction::Preview => ChooserCommand::PreviewEntry,
            ChooserAction::Properties => ChooserCommand::ShowProperties,
            ChooserAction::Trash => ChooserCommand::DeleteEntries { permanent: false },
            ChooserAction::PermanentDelete => ChooserCommand::DeleteEntries { permanent: true },
            ChooserAction::NewFolder => ChooserCommand::BeginNewFolder,
        },
{
    match action {
        ChooserAction::Rename => ChooserCommand::RenameEntry,
        ChooserAction::Preview => ChooserCommand::PreviewEntry,
        ChooserAction::Properties => ChooserCommand::ShowProperties,
        ChooserAction::Trash => ChooserCommand::DeleteEntries { permanent: false },
        ChooserAction::PermanentDelete => ChooserCommand::DeleteEntries { permanent: true },
        ChooserAction::NewFolder => ChooserCommand::BeginNewFolder,
    }
}

/// Where a menu opens, seen from the point that was pressed.
#[derive(Clone, Copy, Debug, PartialEq, Eq, Structural)]
pub enum MenuSide {
    Top,
    Bottom,
}

/// How far a menu stays from the edge of the window.
pub const MENU_EDGE_MARGIN: i32 = 24;

/// Where a menu opens and how tall it may be, in a window of the given height that was pressed at
/// `click_y`: to the side with more room.
pub fn context_menu_placement(anchor_height: i32, click_y: i32) -> (result: (MenuSide, i32))
    requires
        anchor_height >= 0,
    ensures
        ({
            let above = if click_y < 0 {
                0
            } else if click_y > anchor_height {
                anchor_height as int
            } else {
                click_y as int
            };
            let below = anchor_height - above;
            let room = if below >= above {
                below
            } else {
                above
            };
            &&& result.0 is Bottom <==> below >= above
            &&& result.1 == if room - MENU_EDGE_MARGIN >= 1 {
                room - MENU_EDGE_MARGIN
            } else {
                1
            }
        }),
{
    let above: i32 = if click_y < 0 {
        0
    } else if click_y > anchor_height {
        anchor_height
    } else {
        click_y
    };
    let below: i32 = anchor_height - above;
    let (side, room): (MenuSide, i32) = if below >= above {
        (MenuSide::Bottom, below)
    } else {
        (MenuSide::Top, above)
    };
    let height: i32 = room - MENU_EDGE_MARGIN;
    (
        side,
        if height >= 1 {
            height
        } else {
            1
        },
    )
}

/// Whether a terminal is offered for a folder.
pub fn folder_menu_facts(location: &Location, clipboard_has_files: bool, has_entries: bool) -> (result:
    FolderMenuFacts)
    ensures
        result == (FolderMenuFacts {
            clipboard_has_files,
            has_entries,
            terminal_available: location@ is Native && !location@.in_trash(),
        }),
{
    FolderMenuFacts {
        clipboard_has_files,
        has_entries,
        terminal_available: can_open_terminal(location),
    }
}

/// The deletion that an option leads to is for good exactly in the trash or where it says so.
pub proof fn law_trash_option_is_permanent_in_trash(facts: ItemCommandFacts)
    ensures
        command_of(ItemAction::Trash, facts) == (ItemCommand::DeleteSelected {
            permanent: facts.in_trash,
        }),
        command_of(ItemAction::PermanentDelete, facts) == (ItemCommand::DeleteSelected {
            permanent: true,
        }),
        facts.in_trash ==> command_of(ItemAction::Trash, facts) == command_of(
            ItemAction::PermanentDelete,
            facts,
        ),
{
}

/// In the trash the menu of entries offers exactly one way to delete, and
/// where nothing is known of a place they offer both.
pub proof fn law_delete_options(facts: ItemMenuFacts)
    ensures
        facts.in_trash ==> offers_trash(facts) && !offers_permanent_delete(facts),
        !facts.in_trash && facts.can_trash is None && facts.can_delete is None ==> offers_trash(facts)
            && offers_permanent_delete(facts),
{
}

/// Deleting is always offered in the trash, and there it is for good; elsewhere the trash is offered
/// unless it is known not to take the entries, and deleting for good unless that is known not to be
/// allowed.
pub proof fn law_deleting_is_offered_where_it_can_be(facts: ItemMenuFacts)
    ensures
        !facts.in_trash ==> (offers_trash(facts) <==> facts.can_trash != Some(false)),
        !facts.in_trash ==> (offers_permanent_delete(facts) <==> facts.can_delete != Some(false)),
        delete_rows(facts).len() == 2,
        delete_rows(facts)[0] == (ItemRow::Option {
            action: ItemAction::Trash,
            visible: offers_trash(facts),
            sensitive: true,
            danger: facts.in_trash,
        }),
        delete_rows(facts)[1] == (ItemRow::Option {
            action: ItemAction::PermanentDelete,
            visible: offers_permanent_delete(facts),
            sensitive: true,
            danger: true,
        }),
{
}

/// What an option of the menu of an entry looks like is decided by the entry and by where it is:
/// what cannot be done is not shown, a place that cannot be pinned is shown but cannot be chosen, and
/// only what deletes for good is marked as dangerous.
pub proof fn law_options_are_shown_where_they_apply(facts: ItemMenuFacts, i: int)
    requires
        0 <= i < item_rows(facts).len(),
    ensures
        item_rows(facts)[i] matches ItemRow::Option { action, visible, sensitive, danger } ==> {
            &&& visible == (match action {
                ItemAction::OpenTerminal => facts.is_directory && facts.is_native
                    && !facts.entry_in_trash,
                ItemAction::Preview => facts.supports_preview,
                ItemAction::Print => facts.supports_printing,
                ItemAction::Restore => facts.in_trash,
                ItemAction::Extract | ItemAction::ExtractTo => facts.is_archive,
                ItemAction::Pin => facts.is_directory && !facts.entry_in_trash,
                ItemAction::Customize => !facts.in_trash && facts.selected_count == 1
                    && facts.is_native,
                ItemAction::Trash => facts.in_trash || facts.can_trash != Some(false),
                ItemAction::PermanentDelete => !facts.in_trash && facts.can_delete != Some(false),
                _ => true,
            })
            &&& sensitive == (action !is Pin || facts.pin_status == Some(PinStatus::Available))
            &&& danger == (action is PermanentDelete || action is Trash && facts.in_trash)
        },
{
    assert(multiple_rows(facts).len() == 12);
    assert(single_rows(facts).len() == 24);
}

/// Every action has its place in the menu: that of a single entry offers all of them, and that of
/// several entries those that work on several. Deleting comes last, behind a separator.
pub proof fn law_menus_offer_their_actions(facts: ItemMenuFacts)
    ensures
        facts.selected_count > 1 ==> item_rows(facts).len() == 12,
        facts.selected_count <= 1 ==> item_rows(facts).len() == 24,
        item_rows(facts)[item_rows(facts).len() - 3] is Separator,
        item_rows(facts).skip(item_rows(facts).len() - 2) == delete_rows(facts),
        facts.selected_count > 1 ==> {
            let rows = item_rows(facts);
            &&& rows[0]->action is Restore && rows[1]->action is Cut && rows[2]->action is Copy
            &&& rows[3]->action is CopyPath && rows[4] is Separator && rows[5]->action is MoveTo
            &&& rows[6]->action is CopyTo && rows[7] is Separator && rows[8]->action is Compress
        },
        facts.selected_count <= 1 ==> {
            let rows = item_rows(facts);
            &&& rows[0]->action is Open && rows[1]->action is OpenTerminal
            &&& rows[2]->action is Preview && rows[3]->action is Print && rows[4]->action is Restore
            &&& rows[5]->action is Extract && rows[6]->action is ExtractTo && rows[7] is Separator
            &&& rows[8]->action is Pin && rows[9]->action is Cut && rows[10]->action is Copy
            &&& rows[11]->action is CopyPath && rows[12] is Separator && rows[13]->action is MoveTo
            &&& rows[14]->action is CopyTo && rows[15] is Separator && rows[16]->action is Rename
            &&& rows[17]->action is Compress && rows[18] is Separator
            &&& rows[19]->action is Customize && rows[20]->action is Properties
        },
{
    let rows = item_rows(facts);
    assert(multiple_rows(facts).len() == 12);
    assert(single_rows(facts).len() == 24);
    assert(rows.skip(rows.len() - 2) =~= delete_rows(facts));
}

/// Labels tell what an option does: only restoring and copying paths are told in the plural for
/// several entries, and only moving to the trash is told otherwise inside it, as deleting for good.
pub proof fn law_labels_tell_the_action(action: ItemAction, multiple: bool, in_trash: bool)
    ensures
        item_label_text(ItemAction::Trash, multiple, true) == item_label_text(
            ItemAction::PermanentDelete,
            multiple,
            in_trash,
        ),
        item_label_text(ItemAction::Trash, multiple, false) == "Move to Trash"@,
        item_label_text(ItemAction::PermanentDelete, multiple, in_trash) == "Permanently delete"@,
        item_label_text(ItemAction::Restore, true, in_trash) == item_label_text(
            ItemAction::Restore,
            false,
            in_trash,
        ) + " items"@,
        item_label_text(ItemAction::CopyPath, true, in_trash) == item_label_text(
            ItemAction::CopyPath,
            false,
            in_trash,
        ) + "s"@,
        action !is Restore && action !is CopyPath ==> item_label_text(action, true, in_trash)
            == item_label_text(action, false, in_trash),
        action !is Trash ==> item_label_text(action, multiple, true) == item_label_text(
            action,
            multiple,
            false,
        ),
        item_label_text(ItemAction::Restore, false, in_trash) == "Restore"@,
        item_label_text(ItemAction::CopyPath, false, in_trash) == "Copy path"@,
        item_label_text(ItemAction::Open, multiple, in_trash) == "Open"@,
        item_label_text(ItemAction::OpenTerminal, multiple, in_trash) == "Open in Terminal"@,
        item_label_text(ItemAction::Preview, multiple, in_trash) == "Quick preview"@,
        item_label_text(ItemAction::Print, multiple, in_trash) == "Print"@,
        item_label_text(ItemAction::Extract, multiple, in_trash) == "Extract here"@,
        item_label_text(ItemAction::ExtractTo, multiple, in_trash) == "Extract to…"@,
        item_label_text(ItemAction::Pin, multiple, in_trash) == "Pin to sidebar"@,
        item_label_text(ItemAction::Cut, multiple, in_trash) == "Cut"@,
        item_label_text(ItemAction::Copy, multiple, in_trash) == "Copy"@,
        item_label_text(ItemAction::MoveTo, multiple, in_trash) == "Move to…"@,
        item_label_text(ItemAction::CopyTo, multiple, in_trash) == "Copy to…"@,
        item_label_text(ItemAction::Rename, multiple, in_trash) == "Rename"@,
        item_label_text(ItemAction::Compress, multiple, in_trash) == "Compress…"@,
        item_label_text(ItemAction::Customize, multiple, in_trash) == "Customize…"@,
        item_label_text(ItemAction::Properties, multiple, in_trash) == "Properties"@,
{
    reveal_strlit("Restore items");
    reveal_strlit("Restore");
    reveal_strlit(" items");
    reveal_strlit("Copy paths");
    reveal_strlit("Copy path");
    reveal_strlit("s");
    assert("Restore items"@ =~= "Restore"@ + " items"@);
    assert("Copy paths"@ =~= "Copy path"@ + "s"@);
}

/// An option tells the keys that do the same, where there are any, and no two options the same keys.
pub proof fn law_accelerators_are_distinct(left: ItemAction, right: ItemAction)
    ensures
        item_accelerator_text(left) == item_accelerator_text(right) ==> left == right
            || item_accelerator_text(left).len() == 0,
        item_accelerator_text(left).len() == 0 <==> left is Print || left is Restore || left
            is Extract || left is ExtractTo || left is MoveTo || left is CopyTo || left is Compress
            || left is Customize,
        item_accelerator_text(ItemAction::PermanentDelete) == "Shift+"@ + item_accelerator_text(
            ItemAction::Trash,
        ),
        item_accelerator_text(ItemAction::Trash) == "Del"@,
        item_accelerator_text(ItemAction::Cut) == "Ctrl+X"@,
        item_accelerator_text(ItemAction::Copy) == "Ctrl+C"@,
        item_accelerator_text(ItemAction::OpenTerminal) == "Ctrl+T"@,
        item_accelerator_text(ItemAction::Open) == "↵"@,
        item_accelerator_text(ItemAction::Preview) == "Space"@,
        item_accelerator_text(ItemAction::Pin) == "P"@,
        item_accelerator_text(ItemAction::CopyPath) == "Y"@,
        item_accelerator_text(ItemAction::Rename) == "F2"@,
        item_accelerator_text(ItemAction::Properties) == "Alt+Enter"@,
{
    reveal_strlit("");
    reveal_strlit("↵");
    reveal_strlit("Ctrl+T");
    reveal_strlit("Space");
    reveal_strlit("P");
    reveal_strlit("Ctrl+X");
    reveal_strlit("Ctrl+C");
    reveal_strlit("Y");
    reveal_strlit("F2");
    reveal_strlit("Alt+Enter");
    reveal_strlit("Del");
    reveal_strlit("Shift+Del");
    reveal_strlit("Shift+");
    assert("Shift+Del"@ =~= "Shift+"@ + "Del"@);
    assert("↵"@[0] == '↵' && "P"@[0] == 'P' && "Y"@[0] == 'Y');
    assert("Ctrl+T"@[5] == 'T' && "Ctrl+X"@[5] == 'X' && "Ctrl+C"@[5] == 'C');
    assert("Alt+Enter"@[0] == 'A' && "Shift+Del"@[0] == 'S');
}

/// What works on the entry that was pressed does nothing without one, and what works on the selection
/// does not need it.
pub proof fn law_actions_need_their_entry(action: ItemAction, facts: ItemCommandFacts)
    ensures
        !facts.has_target && !(action is Restore || action is Cut || action is Copy || action
            is MoveTo || action is CopyTo || action is Compress || action is Trash || action
            is PermanentDelete || (action is CopyPath && facts.multiple)) ==> command_of(
            action,
            facts,
        ) is Nothing,
        action is Restore ==> command_of(action, facts) is RestoreSelected,
        action is Cut ==> command_of(action, facts) is CutSelected,
        action is Copy ==> command_of(action, facts) is CopySelected,
        action is Compress ==> command_of(action, facts) is CompressSelected,
        action is MoveTo ==> command_of(action, facts) == (ItemCommand::TransferSelected {
            move_sources: true,
        }),
        action is CopyTo ==> command_of(action, facts) == (ItemCommand::TransferSelected {
            move_sources: false,
        }),
        action is CopyPath && facts.multiple ==> command_of(action, facts) is CopyPaths,
        facts.has_target ==> {
            let command = command_of(action, facts);
            &&& action is Open ==> command == (ItemCommand::Activate {
                in_place: !(facts.mode is Columns),
            })
            &&& action is OpenTerminal ==> command is LaunchTerminal
            &&& action is Preview ==> (command is Preview <==> !facts.is_directory)
            &&& action is Print ==> (command is Print <==> facts.has_print_handler
                && facts.supports_printing)
            &&& action is Extract ==> command is Extract
            &&& action is ExtractTo ==> command is ExtractTo
            &&& action is Pin ==> (command is PinEntry <==> facts.is_directory
                && facts.has_pin_handler)
            &&& action is CopyPath && !facts.multiple ==> command is CopyPath
            &&& action is Rename ==> command is RenameEntry
            &&& action is Customize ==> (command is Customize <==> facts.is_native)
            &&& action is Properties ==> command is ShowProperties
        },
        command_of(action, facts) is Preview ==> action is Preview,
        command_of(action, facts) is Print ==> action is Print,
        command_of(action, facts) is PinEntry ==> action is Pin,
        command_of(action, facts) is Customize ==> action is Customize,
{
}

/// The menu of a folder offers its actions in order, and what cannot be done now cannot be chosen.
pub proof fn law_folder_options_can_be_chosen_where_they_apply(facts: FolderMenuFacts, i: int)
    requires
        0 <= i < folder_rows(facts).len(),
    ensures
        folder_rows(facts).len() == 10,
        folder_rows(facts)[i] is Separator <==> i == 3 || i == 8,
        folder_rows(facts)[i] matches FolderRow::Option { action, sensitive } ==> sensitive == (
        match action {
            FolderAction::OpenTerminal => facts.terminal_available,
            FolderAction::Paste => facts.clipboard_has_files,
            FolderAction::SelectAll => facts.has_entries,
            _ => true,
        }),
        folder_rows(facts)[0]->action is NewFolder,
        folder_rows(facts)[1]->action is NewFile,
        folder_rows(facts)[2]->action is OpenTerminal,
        folder_rows(facts)[4]->action is Paste,
        folder_rows(facts)[5]->action is SelectAll,
        folder_rows(facts)[6]->action is Refresh,
        folder_rows(facts)[7]->action is ToggleHidden,
        folder_rows(facts)[9]->action is Properties,
{
}

/// The option for hidden files tells what it does: hide them where they are shown, show them where
/// they are not. Every other is called the same either way.
pub proof fn law_hidden_files_option_tells_what_it_does(action: FolderAction)
    ensures
        folder_label_text(FolderAction::ToggleHidden, true) == "Hide"@ + " Hidden Files"@,
        folder_label_text(FolderAction::ToggleHidden, false) == "Show"@ + " Hidden Files"@,
        action !is ToggleHidden ==> folder_label_text(action, true) == folder_label_text(
            action,
            false,
        ),
        folder_label_text(FolderAction::NewFolder, true) == "New Folder"@,
        folder_label_text(FolderAction::NewFile, true) == "New File"@,
        folder_label_text(FolderAction::OpenTerminal, true) == "Open in Terminal"@,
        folder_label_text(FolderAction::Paste, true) == "Paste"@,
        folder_label_text(FolderAction::SelectAll, true) == "Select All"@,
        folder_label_text(FolderAction::Refresh, true) == "Refresh"@,
        folder_label_text(FolderAction::Properties, true) == "Properties"@,
{
    reveal_strlit("Hide Hidden Files");
    reveal_strlit("Show Hidden Files");
    reveal_strlit("Hide");
    reveal_strlit("Show");
    reveal_strlit(" Hidden Files");
    assert("Hide Hidden Files"@ =~= "Hide"@ + " Hidden Files"@);
    assert("Show Hidden Files"@ =~= "Show"@ + " Hidden Files"@);
}

/// The menu of a file chooser offers renaming first, then a preview of a single entry that has one, the
/// properties, and deleting as far as it is possible: in the trash for good only, elsewhere the trash
/// before deleting for good.
pub proof fn law_chooser_offers_what_is_possible(facts: ChooserMenuFacts)
    ensures
        ({
            let options = chooser_options(facts);
            let previews = facts.single && facts.supports_preview;
            let trashes = facts.in_trash || facts.can_trash != Some(false);
            let deletes = !facts.in_trash && facts.can_delete != Some(false);
            let properties = if previews {
                2int
            } else {
                1
            };
            &&& options.len() == properties + 1 + (if trashes {
                1int
            } else {
                0
            }) + (if deletes {
                1int
            } else {
                0
            })
            &&& options[0].action is Rename && options[0].enabled == facts.single
                && !options[0].danger && options[0].shortcut is RenameKeys
            &&& previews ==> options[1].action is Preview && options[1].enabled
                && !options[1].danger && options[1].shortcut is Space
            &&& options[properties].action is Properties && options[properties].enabled
                && !options[properties].danger && options[properties].shortcut is AltEnter
            &&& trashes ==> {
                let option = options[properties + 1];
                &&& option.action is PermanentDelete <==> facts.in_trash
                &&& option.action is Trash <==> !facts.in_trash
                &&& option.enabled && option.danger == facts.in_trash && option.shortcut is Delete
            }
            &&& deletes ==> options.last().action is PermanentDelete && options.last().enabled
                && options.last().danger && options.last().shortcut is ShiftDelete
        }),
{
}

} // verus!
