//! The view of the browser as a whole: its mode, its panes, the names that are being edited, and
//! what its commands ask of the listing behind it.

use crate::clipboard::TransferRequest;
use crate::columns::{Column, ColumnSnapshot, ColumnState, COLUMN_WIDTH};
use crate::cut::{entry_locations, locations_of};
use crate::entry::{
    can_pin_entry, duplicate_entries, rename_stem_end, selected_terminal_location, stem_length,
    update_basename_validation, BrowserMode, FileEntry, PinStatus,
};
use crate::input::Direction;
use crate::location::{is_trash_location, Location, LocationView};
use crate::mount::MountCredentials;
use crate::panes::{
    at_least_a_column, moved_on, new_folder_depth, new_folder_destination_depth, Panes,
};
use crate::paths::{resolve_destination_path, resolved_destination};
use crate::peek::{Peek, PeekBehavior};
use crate::rows::ClickActivation;
use crate::text::{same_text, views};
use crate::transfer::{
    all_in, arriving, arriving_names, duplicate_transfer, worded, ConfirmStep, OperationProgress,
    TransferDialog,
};
use crate::trash::{request_delete, DeleteStep};
use vstd::prelude::*;

verus! {

/// An entry whose name is being edited in its row.
#[derive(Debug)]
pub struct ActiveRename {
    pub entry: FileEntry,
    /// Whether the field takes input; not while the new name is being tried.
    pub sensitive: bool,
    pub error: Option<String>,
}

/// An entry that is being named before it is made.
#[derive(Debug)]
pub struct ActiveNewEntry {
    pub depth: usize,
    pub location: Location,
    pub is_directory: bool,
}

/// The names that are being edited in the panes.
#[derive(Debug)]
pub struct Edits {
    pub rename: Option<ActiveRename>,
    pub new_entry: Option<ActiveNewEntry>,
}

impl Edits {
    /// Whether a name is being edited.
    pub open spec fn is_editing(self) -> bool {
        self.rename is Some || self.new_entry is Some
    }

    /// Whether a name is being edited.
    pub fn editing(&self) -> (result: bool)
        ensures
            result == self.is_editing(),
    {
        self.rename.is_some() || self.new_entry.is_some()
    }
}

/// The file operation under way, and what waits for the end of one.
#[derive(Debug)]
pub struct Operations {
    pub progress: OperationProgress,
    /// The names to select once the active folder is read.
    pub pending_select: Vec<String>,
    /// Whether the properties of what is then selected are to be shown.
    pub select_properties: bool,
    /// The archive that is being unpacked, and where to, in case it needs a password.
    pub extract_retry: Option<(FileEntry, Location)>,
    /// The entries on their way to the trash, in case it cannot take them.
    pub pending_delete: Vec<FileEntry>,
    /// Where to go once the operation is done.
    pub pending_navigate: Option<Location>,
    /// What was typed along with a location.
    pub credentials: Option<MountCredentials>,
    /// Whether the trash is being measured, which the view shows.
    pub measuring_trash: bool,
    /// Whether the trash is being emptied.
    pub emptying_trash: bool,
}

/// What the operations are like.
#[verifier::ext_equal]
pub struct OperationsModel {
    pub progress: OperationProgress,
    pub pending_select: Seq<String>,
    pub select_properties: bool,
    pub extract_retry: Option<(FileEntry, Location)>,
    pub pending_delete: Seq<FileEntry>,
    pub pending_navigate: Option<Location>,
    pub credentials: Option<MountCredentials>,
    pub measuring_trash: bool,
    pub emptying_trash: bool,
}

impl View for Operations {
    type V = OperationsModel;

    open spec fn view(&self) -> OperationsModel {
        OperationsModel {
            progress: self.progress,
            pending_select: self.pending_select@,
            select_properties: self.select_properties,
            extract_retry: self.extract_retry,
            pending_delete: self.pending_delete@,
            pending_navigate: self.pending_navigate,
            credentials: self.credentials,
            measuring_trash: self.measuring_trash,
            emptying_trash: self.emptying_trash,
        }
    }
}

impl Operations {
    /// No operation, and nothing that waits.
    pub fn new() -> (result: Self)
        ensures
            result@ == (OperationsModel {
                progress: OperationProgress::ended(),
                pending_select: Seq::empty(),
                select_properties: false,
                extract_retry: None,
                pending_delete: Seq::empty(),
                pending_navigate: None,
                credentials: None,
                measuring_trash: false,
                emptying_trash: false,
            }),
    {
        let result: Operations = Operations {
            progress: OperationProgress::idle(),
            pending_select: Vec::new(),
            select_properties: false,
            extract_retry: None,
            pending_delete: Vec::new(),
            pending_navigate: None,
            credentials: None,
            measuring_trash: false,
            emptying_trash: false,
        };
        assert(result@.pending_select =~= Seq::empty());
        assert(result@.pending_delete =~= Seq::empty());
        result
    }
}

/// What navigated last.
#[derive(Clone, Copy, Debug, PartialEq, Eq, Structural)]
pub enum NavigationInput {
    Keyboard,
    Pointer,
}

/// What the view is set to.
#[derive(Clone, Copy, Debug, PartialEq, Eq, Structural)]
pub struct ViewSettings {
    pub mode: BrowserMode,
    /// Whether the view is that of a window rather than of a file chooser.
    pub interactive: bool,
    pub multiple_selection: bool,
    pub single_click_previews: bool,
    pub click_activation: ClickActivation,
    pub navigation: NavigationInput,
    /// Whether the location is being typed.
    pub editing_location: bool,
}

/// The view of the browser.
#[derive(Debug)]
pub struct BrowserView {
    pub settings: ViewSettings,
    pub panes: Panes,
    pub peek: Peek,
    pub edits: Edits,
    pub operations: Operations,
}

/// What a command asks of the listing behind the view.
#[derive(Debug)]
pub enum Command {
    Nothing,
    /// Open the focused entry, in a pane of its own or in place of the listing.
    ActivateFocused { in_place: bool },
    /// Go to the folder that holds the one in view.
    GoToParent,
    /// Move the focus to the pane before.
    FocusParent,
    Navigate(Location),
    CloseColumn(usize),
    SelectEntry { depth: usize, position: usize },
    /// Select up to the entry, in the order that is shown.
    ExtendSelection { depth: usize, target: usize },
    SetActiveColumn(usize),
    SetSelection { pane: usize, positions: Vec<usize>, focused: Option<usize> },
    /// Select all rows of a pane, which then has the focus.
    SelectAllRows(usize),
    /// Select all entries of a folder.
    SelectAllEntries(usize),
    RefreshAll,
    ReloadActive,
    PageSelection { direction: i32, items: usize },
}

/// What beginning to name a new entry leads to.
#[derive(Clone, Copy, Debug, PartialEq, Eq, Structural)]
pub enum NewEntryStep {
    /// There is no place for it.
    Nothing,
    /// The view that is shown in place of the panes names it.
    InOtherView { depth: usize, is_directory: bool },
    /// The field of the pane has the focus.
    Begun(usize),
}

/// What submitting the name of a new entry leads to.
#[derive(Debug)]
pub enum NewEntrySubmission {
    /// Nothing is being named.
    Ignored,
    /// The name cannot be used; the field keeps the focus.
    KeepEditing,
    Create { location: Location, name: String, is_directory: bool },
}

/// What beginning to rename an entry leads to.
#[derive(Clone, Copy, Debug, PartialEq, Eq, Structural)]
pub enum RenameStep {
    NotStarted,
    /// The view that is shown in place of the panes renames it.
    InOtherView,
    /// The field has the focus, with the name selected up to here.
    Started(i32),
}

/// What submitting a name leads to.
#[derive(Debug)]
pub enum RenameSubmission {
    /// Nothing is being renamed.
    Ignored,
    /// The name stays; the listing has the focus again.
    Unchanged,
    Rename { entry: FileEntry, name: String },
}

/// What another mode of the view leads to.
#[derive(Clone, Copy, Debug, PartialEq, Eq, Structural)]
pub struct ModeChange {
    /// Whether the panes have to be made anew.
    pub rebuild_columns: bool,
    /// The folder whose view takes the focus.
    pub focus_pane: Option<usize>,
    /// The view whose contents go.
    pub cleared: Option<BrowserMode>,
}

/// What showing a filter leads to.
#[derive(Clone, Copy, Debug, PartialEq, Eq, Structural)]
pub enum FilterStep {
    /// The view that is shown in place of the panes shows its own.
    InOtherView,
    NotShown,
    /// The field of the pane has the focus.
    Shown(usize),
}

/// What undoing leads to.
#[derive(Clone, Copy, Debug, PartialEq, Eq, Structural)]
pub enum UndoStep {
    Move,
    Trash,
}

/// The filter of a pane.
#[derive(Debug)]
pub struct ActivePaneFilter {
    pub query: String,
    pub revealed: bool,
}

/// How far apart the rows of a listing are.
#[derive(Clone, Copy, Debug, PartialEq, Eq, Structural)]
pub enum BrowserDensity {
    Compact,
    Airy,
}

/// The style of a density.
pub fn density_class(density: BrowserDensity) -> (result: &'static str)
    ensures
        result@ == match density {
            BrowserDensity::Compact => "density-compact"@,
            BrowserDensity::Airy => "density-airy"@,
        },
{
    match density {
        BrowserDensity::Compact => "density-compact",
        BrowserDensity::Airy => "density-airy",
    }
}

/// The mode whose page has a name; the panes where it has none of the other names.
pub fn mode_of_page(name: Option<&str>) -> (result: BrowserMode)
    ensures
        result == match name {
            Some(name) => if name@ == "icons"@ {
                BrowserMode::Icons
            } else if name@ == "list"@ {
                BrowserMode::List
            } else {
                BrowserMode::Columns
            },
            None => BrowserMode::Columns,
        },
{
    match name {
        Some(name) => {
            if same_text(name, "icons") {
                BrowserMode::Icons
            } else if same_text(name, "list") {
                BrowserMode::List
            } else {
                BrowserMode::Columns
            }
        },
        None => BrowserMode::Columns,
    }
}

/// How much of a single listing a preview takes up: half of it.
pub fn single_pane_preview_reservation(width: i32) -> (result: i32)
    ensures
        result == if width > 0 {
            width / 2
        } else {
            0
        },
{
    if width > 0 {
        width / 2
    } else {
        0
    }
}

/// The width of panes side by side, none of them narrower than a pane is.
pub open spec fn total_width(widths: Seq<i32>) -> i32
    decreases widths.len(),
{
    if widths.len() == 0 {
        0
    } else {
        let before = total_width(widths.drop_last());
        if before + at_least_a_column(widths.last()) > i32::MAX {
            i32::MAX
        } else {
            (before + at_least_a_column(widths.last())) as i32
        }
    }
}

/// The pane beside another one, in a direction.
pub open spec fn pane_beside(index: usize, count: nat, direction: Direction) -> Option<usize> {
    match direction {
        Direction::Left => if index > 0 {
            Some((index - 1) as usize)
        } else {
            None
        },
        Direction::Right => if index + 1 < count {
            Some((index + 1) as usize)
        } else {
            None
        },
        _ => None,
    }
}

/// The first of two places, if there is any.
pub open spec fn first_known(first: Option<usize>, second: Option<usize>) -> Option<usize> {
    match first {
        Some(depth) => Some(depth),
        None => second,
    }
}

fn or_else(first: Option<usize>, second: Option<usize>) -> (result: Option<usize>)
    ensures
        result == first_known(first, second),
{
    match first {
        Some(depth) => Some(depth),
        None => second,
    }
}

/// What the dialog that starts a transfer leads to.
#[derive(Debug)]
pub enum TransferStep {
    /// The dialog stays open.
    Stay,
    /// The folder at this path is made first.
    CreateFolder(String),
    /// The transfer starts, and the dialog closes.
    Start(TransferRequest),
}

impl TransferStep {
    /// What the dialog asked for.
    pub open spec fn asked(self) -> ConfirmStep {
        match self {
            TransferStep::Stay => ConfirmStep::Stay,
            TransferStep::CreateFolder(_) => ConfirmStep::CreateFolder,
            TransferStep::Start(_) => ConfirmStep::Transfer,
        }
    }
}

/// A pane that is to be made anew, with what is known of its folder.
#[derive(Debug)]
pub struct RebuiltColumn {
    pub location: Location,
    pub show_hidden: bool,
    pub snapshot: ColumnSnapshot,
    pub failure: Option<String>,
}

impl RebuiltColumn {
    /// The pane.
    pub open spec fn column(self) -> Column {
        Column {
            location: self.location,
            state: ColumnState::opened(self.location@, self.show_hidden).rebuilt(
                self.snapshot,
                self.failure is Some,
            ),
            failure: if !self.snapshot.loading {
                self.failure
            } else {
                None
            },
        }
    }
}

/// Whether a request transfers the entries into the folder at `path`, in their order.
pub open spec fn starts_transfer(
    request: TransferRequest,
    entries: Seq<FileEntry>,
    path: Seq<char>,
    move_sources: bool,
) -> bool {
    request matches TransferRequest::StartTransfer { destination, sources, move_sources: moves } && {
        &&& destination@ == LocationView::Native(path)
        &&& sources@ == locations_of(entries)
        &&& moves == move_sources
    }
}

impl BrowserView {
    /// A transfer of the entries into the folder at `path` has begun: the folder is gone to when
    /// it is done, and what arrives is then selected along with what was to be selected before.
    pub open spec fn transfer_begun(
        &self,
        entries: Seq<FileEntry>,
        path: Seq<char>,
        after: &BrowserView,
    ) -> bool {
        &&& after.only_operations(self)
        &&& after.operations@.pending_navigate matches Some(folder)
        &&& folder@ == LocationView::Native(path)
        &&& views(after.operations@.pending_select) == views(self.operations@.pending_select)
            + arriving(locations_of(entries))
        &&& after.operations@ == (OperationsModel {
            pending_navigate: after.operations@.pending_navigate,
            pending_select: after.operations@.pending_select,
            ..self.operations@
        })
    }

    /// What a step of the dialog that starts a transfer leads to: the folder at `path` is made, or
    /// the transfer of the dialog's entries into it begins.
    pub open spec fn led_on(
        &self,
        dialog: TransferDialog,
        path: Seq<char>,
        step: TransferStep,
        after: &BrowserView,
    ) -> bool {
        match step {
            TransferStep::Stay => *after == *self,
            TransferStep::CreateFolder(folder) => folder@ == path && *after == *self,
            TransferStep::Start(request) => {
                &&& self.transfer_begun(dialog.entries@, path, after)
                &&& starts_transfer(request, dialog.entries@, path, dialog.move_sources)
            },
        }
    }

    /// What else the view is stays.
    pub open spec fn same_but_edits(&self, other: &BrowserView) -> bool {
        self.settings == other.settings && self.panes == other.panes && self.peek == other.peek
            && self.operations == other.operations
    }

    /// Whether the panes are shown.
    pub open spec fn in_columns(&self) -> bool {
        self.settings.mode is Columns
    }

    /// A view of a window, with nothing in it.
    pub fn new(peek_behavior: PeekBehavior, activation: ClickActivation) -> (result: Self)
        ensures
            result.settings == (ViewSettings {
                mode: BrowserMode::Columns,
                interactive: true,
                multiple_selection: true,
                single_click_previews: true,
                click_activation: activation,
                navigation: NavigationInput::Keyboard,
                editing_location: false,
            }),
            result.is_fresh(peek_behavior),
    {
        BrowserView::with_options(peek_behavior, activation, true, true)
    }

    /// A view of a file chooser, with nothing in it.
    pub fn new_chooser(multiple: bool, activation: ClickActivation) -> (result: Self)
        ensures
            result.settings == (ViewSettings {
                mode: BrowserMode::Columns,
                interactive: false,
                multiple_selection: multiple,
                single_click_previews: true,
                click_activation: activation,
                navigation: NavigationInput::Keyboard,
                editing_location: false,
            }),
            result.is_fresh(
                PeekBehavior {
                    open_delay: 180,
                    close_delay: 80,
                    fade_duration: 150,
                    item_limit: 8,
                },
            ),
    {
        BrowserView::with_options(PeekBehavior::default(), activation, multiple, false)
    }

    /// Nothing is in the view yet.
    pub open spec fn is_fresh(&self, behavior: PeekBehavior) -> bool {
        &&& self.panes@.columns.len() == 0
        &&& self.panes@.hovered is None
        &&& self.panes@.menu_owner is None
        &&& !self.panes@.waiting
        &&& self.peek == (Peek {
            enabled: true,
            item_limit: behavior.item_limit,
            anchor: None,
            pending_open: None,
            pending_close: false,
            shown: None,
        })
        &&& !self.edits.is_editing()
        &&& self.operations@.progress == OperationProgress::ended()
        &&& self.operations@.pending_select.len() == 0
        &&& !self.operations@.select_properties
        &&& self.operations@.extract_retry is None
        &&& self.operations@.pending_delete.len() == 0
        &&& self.operations@.pending_navigate is None
        &&& self.operations@.credentials is None
        &&& !self.operations@.measuring_trash
        &&& !self.operations@.emptying_trash
    }

    fn with_options(
        peek_behavior: PeekBehavior,
        activation: ClickActivation,
        multiple: bool,
        interactive: bool,
    ) -> (result: Self)
        ensures
            result.settings == (ViewSettings {
                mode: BrowserMode::Columns,
                interactive,
                multiple_selection: multiple,
                single_click_previews: true,
                click_activation: activation,
                navigation: NavigationInput::Keyboard,
                editing_location: false,
            }),
            result.is_fresh(peek_behavior),
    {
        BrowserView {
            settings: ViewSettings {
                mode: BrowserMode::Columns,
                interactive,
                multiple_selection: multiple,
                single_click_previews: true,
                click_activation: activation,
                navigation: NavigationInput::Keyboard,
                editing_location: false,
            },
            panes: Panes::new(),
            peek: Peek::new(peek_behavior),
            edits: Edits { rename: None, new_entry: None },
            operations: Operations::new(),
        }
    }

    /// The mode of the view.
    pub fn view_mode(&self) -> (result: BrowserMode)
        ensures
            result == self.settings.mode,
    {
        self.settings.mode
    }

    /// Begins to transfer the entries into the folder at `path`: it is gone to once the transfer is
    /// done, and what arrives is then selected.
    pub fn begin_transfer(
        &mut self,
        entries: &Vec<FileEntry>,
        path: &str,
        move_sources: bool,
    ) -> (result: TransferRequest)
        ensures
            old(self).transfer_begun(entries@, path@, final(self)),
            starts_transfer(result, entries@, path@, move_sources),
    {
        let sources: Vec<Location> = entry_locations(entries);
        let names: Vec<String> = arriving_names(&sources);
        let properties: bool = self.operations.select_properties;
        let ghost before = self.operations.pending_select@;
        let ghost added = names@;
        self.select_after_load(names, properties);
        self.operations.pending_navigate = Some(Location::local(path));
        assert(views(before + added) =~= views(before) + views(added));
        TransferRequest::StartTransfer {
            destination: Location::local(path),
            sources,
            move_sources,
        }
    }

    /// Takes a press on the button of the dialog that starts a transfer: what is typed as the
    /// destination, seen from `base`, and what the file system says of the path that it stands for.
    /// The transfer begins where there is a folder.
    pub fn confirm_transfer(
        &mut self,
        dialog: &mut TransferDialog,
        typed: &str,
        base: &str,
        home: &str,
        exists: bool,
        is_directory: bool,
    ) -> (result: TransferStep)
        requires
            is_directory ==> exists,
        ensures
            old(dialog).pressed(
                resolved_destination(typed@, base@, home@),
                exists,
                is_directory,
                home@,
                final(dialog),
                result.asked(),
            ),
            old(self).led_on(
                *old(dialog),
                resolved_destination(typed@, base@, home@),
                result,
                final(self),
            ),
    {
        let path: String = resolve_destination_path(typed, base, home);
        match dialog.confirm(path.as_str(), exists, is_directory, home) {
            ConfirmStep::Stay => TransferStep::Stay,
            ConfirmStep::CreateFolder => TransferStep::CreateFolder(path),
            ConfirmStep::Transfer => TransferStep::Start(
                self.begin_transfer(&dialog.entries, path.as_str(), dialog.move_sources),
            ),
        }
    }

    /// Takes the end of the creation of the folder that a transfer goes to. The transfer begins,
    /// unless the folder could not be made.
    pub fn transfer_folder_created(
        &mut self,
        dialog: &mut TransferDialog,
        error: Option<Option<&str>>,
    ) -> (result: TransferStep)
        requires
            old(dialog).creating is Some,
        ensures
            old(dialog).created(worded(error), final(dialog), result.asked()),
            old(self).led_on(*old(dialog), old(dialog).creating->0@, result, final(self)),
    {
        match dialog.folder_created(error) {
            ConfirmStep::Transfer => match &dialog.creating {
                Some(folder) => TransferStep::Start(
                    self.begin_transfer(&dialog.entries, folder.as_str(), dialog.move_sources),
                ),
                None => TransferStep::Stay,
            },
            _ => TransferStep::Stay,
        }
    }

    /// Takes names to select in the active folder once it is read, and whether the properties of
    /// what is then selected are to be shown.
    pub fn select_after_load(&mut self, names: Vec<String>, properties: bool)
        ensures
            final(self).operations@ == (OperationsModel {
                pending_select: old(self).operations@.pending_select + names@,
                select_properties: properties,
                ..old(self).operations@
            }),
            final(self).settings == old(self).settings,
            final(self).panes == old(self).panes,
            final(self).peek == old(self).peek,
            final(self).edits == old(self).edits,
    {
        let ghost before = self.operations.pending_select@;
        let ghost whole = names@;
        for name in it: names
            invariant
                it.seq() == whole,
                self.operations@ == (OperationsModel {
                    pending_select: before + whole.take(it.index() as int),
                    ..old(self).operations@
                }),
                self.settings == old(self).settings,
                self.panes == old(self).panes,
                self.peek == old(self).peek,
                self.edits == old(self).edits,
        {
            self.operations.pending_select.push(name);
            assert(before + whole.take(it.index() + 1) =~= (before + whole.take(
                it.index() as int,
            )).push(whole[it.index() as int]));
        }
        assert(whole.take(whole.len() as int) == whole);
        self.operations.select_properties = properties;
    }

    /// Whether a name is being edited, in the panes or elsewhere.
    pub fn rename_is_active(&self, elsewhere: bool) -> (result: bool)
        ensures
            result == (self.edits.rename is Some || elsewhere),
    {
        self.edits.rename.is_some() || elsewhere
    }

    /// Whether a new entry is being named, in the panes or elsewhere.
    pub fn new_entry_is_active(&self, elsewhere: bool) -> (result: bool)
        ensures
            result == (self.edits.new_entry is Some || elsewhere),
    {
        self.edits.new_entry.is_some() || elsewhere
    }

    /// Ends the naming of a new entry. Gives whether there was any.
    pub fn cancel_new_entry(&mut self) -> (result: bool)
        ensures
            result == (old(self).edits.new_entry is Some),
            *final(self) == (BrowserView {
                edits: Edits { new_entry: None, ..old(self).edits },
                ..*old(self)
            }),
    {
        let was_active: bool = self.edits.new_entry.is_some();
        self.edits.new_entry = None;
        was_active
    }

    /// Ends the renaming of an entry. Gives whether there was any. `elsewhere` is whether one was
    /// ended in the view that is shown in place of the panes, which then is the only one.
    pub fn cancel_rename(&mut self, elsewhere: bool) -> (result: bool)
        ensures
            result == (elsewhere || old(self).edits.rename is Some),
            *final(self) == if elsewhere {
                *old(self)
            } else {
                BrowserView { edits: Edits { rename: None, ..old(self).edits }, ..*old(self) }
            },
    {
        if elsewhere {
            return true;
        }
        let was_active: bool = self.edits.rename.is_some();
        self.edits.rename = None;
        was_active
    }

    /// Begins to name a new entry in a folder.
    pub fn begin_new_entry(&mut self, depth: usize, location: Location, is_directory: bool) -> (result:
        NewEntryStep)
        ensures
            final(self).same_but_edits(old(self)),
            !old(self).in_columns() ==> result == (NewEntryStep::InOtherView {
                depth,
                is_directory,
            }) && final(self).edits == (Edits { new_entry: None, ..old(self).edits }),
            old(self).in_columns() && !old(self).panes@.has(depth) ==> result is Nothing
                && !final(self).edits.is_editing(),
            old(self).in_columns() && old(self).panes@.has(depth) ==> result == NewEntryStep::Begun(
                depth,
            ) && final(self).edits == (Edits {
                rename: None,
                new_entry: Some(ActiveNewEntry { depth, location, is_directory }),
            }),
    {
        self.cancel_new_entry();
        if self.settings.mode != BrowserMode::Columns {
            return NewEntryStep::InOtherView { depth, is_directory };
        }
        self.cancel_rename(false);
        if depth >= self.panes.columns.len() {
            return NewEntryStep::Nothing;
        }
        self.edits.new_entry = Some(ActiveNewEntry { depth, location, is_directory });
        NewEntryStep::Begun(depth)
    }

    /// Begins to name a new folder where the keyboard is. `active_location` is the active folder.
    pub fn create_new_folder(
        &mut self,
        focused_column: Option<usize>,
        active_depth: Option<usize>,
        active_location: Option<Location>,
    ) -> (result: NewEntryStep)
        ensures
            final(self).same_but_edits(old(self)),
            old(self).in_columns() ==> match new_folder_depth(
                focused_column,
                active_depth,
                old(self).panes@.columns.len() as usize,
            ) {
                Some(depth) => result == NewEntryStep::Begun(depth) && final(self).edits == (Edits {
                    rename: None,
                    new_entry: Some(
                        ActiveNewEntry {
                            depth,
                            location: old(self).panes@.columns[depth as int].location,
                            is_directory: true,
                        },
                    ),
                }),
                None => result is Nothing && final(self).edits == old(self).edits,
            },
            !old(self).in_columns() ==> match (active_depth, active_location) {
                (Some(depth), Some(_)) => result == (NewEntryStep::InOtherView {
                    depth,
                    is_directory: true,
                }) && final(self).edits == (Edits { new_entry: None, ..old(self).edits }),
                _ => result is Nothing && final(self).edits == old(self).edits,
            },
    {
        if self.settings.mode == BrowserMode::Columns {
            let depth: Option<usize> = new_folder_destination_depth(
                focused_column,
                active_depth,
                self.panes.columns.len(),
            );
            match depth {
                Some(depth) => {
                    let location: Location = self.panes.columns[depth].location.duplicate();
                    self.begin_new_entry(depth, location, true)
                },
                None => NewEntryStep::Nothing,
            }
        } else {
            match (active_depth, active_location) {
                (Some(depth), Some(location)) => self.begin_new_entry(depth, location, true),
                _ => NewEntryStep::Nothing,
            }
        }
    }

    /// Takes the name of a new entry; `verdict` is what is wrong with it as a file name. An entry is
    /// made only of a name that there is and that nothing is wrong with.
    pub fn submit_new_entry(&mut self, name: String, verdict: Option<&'static str>) -> (result:
        NewEntrySubmission)
        ensures
            final(self).same_but_edits(old(self)),
            final(self).edits.rename == old(self).edits.rename,
            match old(self).edits.new_entry {
                None => result is Ignored && final(self).edits.new_entry is None,
                Some(active) => if name@.len() > 0 && verdict is None {
                    result == (NewEntrySubmission::Create {
                        location: active.location,
                        name,
                        is_directory: active.is_directory,
                    }) && final(self).edits.new_entry is None
                } else {
                    result is KeepEditing && final(self).edits.new_entry == Some(active)
                },
            },
    {
        if self.edits.new_entry.is_none() {
            return NewEntrySubmission::Ignored;
        }
        if !update_basename_validation(name.as_str(), verdict).submittable {
            return NewEntrySubmission::KeepEditing;
        }
        match self.edits.new_entry.take() {
            Some(active) => NewEntrySubmission::Create {
                location: active.location,
                name,
                is_directory: active.is_directory,
            },
            None => NewEntrySubmission::Ignored,
        }
    }

    /// Begins to rename the entry that can be renamed, if there is any. `has_row` is whether its
    /// row is on the screen.
    pub fn begin_rename(&mut self, item: Option<(usize, FileEntry)>, has_row: bool) -> (result:
        RenameStep)
        ensures
            final(self).same_but_edits(old(self)),
            final(self).edits.new_entry is None,
            match item {
                None => result is NotStarted && final(self).edits.rename == old(self).edits.rename,
                Some((depth, entry)) => if !old(self).in_columns() {
                    result is InOtherView && final(self).edits.rename == old(self).edits.rename
                } else if old(self).panes@.has(depth) && has_row {
                    &&& result matches RenameStep::Started(end)
                    &&& end == if stem_length(entry.display_name@) <= i32::MAX {
                        stem_length(entry.display_name@) as int
                    } else {
                        i32::MAX as int
                    }
                    &&& final(self).edits.rename == Some(
                        ActiveRename { entry, sensitive: true, error: None },
                    )
                } else {
                    result is NotStarted && final(self).edits.rename is None
                },
            },
    {
        self.cancel_new_entry();
        match item {
            None => RenameStep::NotStarted,
            Some((depth, entry)) => {
                if self.settings.mode != BrowserMode::Columns {
                    return RenameStep::InOtherView;
                }
                self.cancel_rename(false);
                if depth >= self.panes.columns.len() || !has_row {
                    return RenameStep::NotStarted;
                }
                let end: i32 = rename_stem_end(entry.display_name.as_str());
                self.edits.rename = Some(ActiveRename { entry, sensitive: true, error: None });
                RenameStep::Started(end)
            },
        }
    }

    /// Takes the name that was typed for the entry being renamed.
    pub fn submit_rename(&mut self, name: String) -> (result: RenameSubmission)
        ensures
            final(self).same_but_edits(old(self)),
            final(self).edits.new_entry == old(self).edits.new_entry,
            match old(self).edits.rename {
                None => result is Ignored && final(self).edits.rename is None,
                Some(rename) => if name@ == rename.entry.display_name@ {
                    result is Unchanged && final(self).edits.rename is None
                } else {
                    result == (RenameSubmission::Rename { entry: rename.entry, name })
                        && final(self).edits.rename == Some(
                        ActiveRename { entry: rename.entry, sensitive: false, error: None },
                    )
                },
            },
    {
        match self.edits.rename.take() {
            None => RenameSubmission::Ignored,
            Some(rename) => {
                if same_text(name.as_str(), rename.entry.display_name.as_str()) {
                    return RenameSubmission::Unchanged;
                }
                let entry: FileEntry = rename.entry.duplicate();
                self.edits.rename = Some(
                    ActiveRename { entry: rename.entry, sensitive: false, error: None },
                );
                RenameSubmission::Rename { entry, name }
            },
        }
    }

    /// How much of the view is taken up beside a preview, from its width and those of its panes.
    pub fn preview_occupied_width(&self, width: i32, column_widths: &Vec<i32>) -> (result: i32)
        ensures
            result == if !self.in_columns() {
                if width > 0 {
                    width / 2
                } else {
                    0
                }
            } else {
                total_width(column_widths@) as int
            },
    {
        if self.settings.mode != BrowserMode::Columns {
            return single_pane_preview_reservation(width);
        }
        let mut total: i32 = 0;
        let mut i: usize = 0;
        while i < column_widths.len()
            invariant
                i <= column_widths@.len(),
                0 <= total,
                total == total_width(column_widths@.take(i as int)),
            decreases column_widths@.len() - i,
        {
            let column: i32 = if column_widths[i] > COLUMN_WIDTH {
                column_widths[i]
            } else {
                COLUMN_WIDTH
            };
            assert(column_widths@.take(i + 1).drop_last() == column_widths@.take(i as int));
            total = if column > i32::MAX - total {
                i32::MAX
            } else {
                total + column
            };
            i = i + 1;
        }
        assert(column_widths@.take(i as int) == column_widths@);
        total
    }

    /// Opens the focused entry: in a pane of its own where there are panes.
    pub fn activate_focused(&self) -> (result: Command)
        ensures
            result == (Command::ActivateFocused { in_place: !self.in_columns() }),
    {
        Command::ActivateFocused { in_place: self.settings.mode != BrowserMode::Columns }
    }

    /// Goes to the left: to the pane before, where there are panes.
    pub fn navigate_left(&self) -> (result: Command)
        ensures
            result == if self.in_columns() {
                Command::FocusParent
            } else {
                Command::GoToParent
            },
    {
        if self.settings.mode != BrowserMode::Columns {
            Command::GoToParent
        } else {
            Command::FocusParent
        }
    }

    /// Goes up: out of the first pane, or by closing the one that has the focus.
    pub fn navigate_up(
        &self,
        focused_column: Option<usize>,
        active_depth: Option<usize>,
        first_parent: Option<Location>,
    ) -> (result: Command)
        ensures
            result == if !self.in_columns() {
                Command::GoToParent
            } else {
                match first_known(focused_column, active_depth) {
                    Some(depth) => if depth == 0 {
                        match first_parent {
                            Some(parent) => Command::Navigate(parent),
                            None => Command::Nothing,
                        }
                    } else {
                        Command::CloseColumn(depth)
                    },
                    None => Command::Nothing,
                }
            },
    {
        if self.settings.mode != BrowserMode::Columns {
            return Command::GoToParent;
        }
        match or_else(focused_column, active_depth) {
            Some(depth) => {
                if depth == 0 {
                    match first_parent {
                        Some(parent) => Command::Navigate(parent),
                        None => Command::Nothing,
                    }
                } else {
                    Command::CloseColumn(depth)
                }
            },
            None => Command::Nothing,
        }
    }

    /// Selects the entry that the toolkit gave the focus, alone or with those up to it.
    pub fn synchronize_native_selection(&self, focused: Option<(usize, usize)>, extend: bool) -> (result:
        Command)
        ensures
            result == match focused {
                Some((depth, position)) => if extend {
                    Command::ExtendSelection { depth, target: position }
                } else {
                    Command::SelectEntry { depth, position }
                },
                None => Command::Nothing,
            },
    {
        match focused {
            Some((depth, position)) => if extend {
                Command::ExtendSelection { depth, target: position }
            } else {
                Command::SelectEntry { depth, position }
            },
            None => Command::Nothing,
        }
    }

    /// Crosses into the next group, where `target` is the entry there. Tells whether it did.
    pub fn cross_type_group(&self, target: Option<(usize, usize)>, extend: bool) -> (result: (
        Command,
        bool,
    ))
        ensures
            result.1 == (target is Some),
            result.0 == match target {
                Some((depth, position)) => if extend {
                    Command::ExtendSelection { depth, target: position }
                } else {
                    Command::SelectEntry { depth, position }
                },
                None => Command::Nothing,
            },
    {
        (self.synchronize_native_selection(target, extend), target.is_some())
    }

    /// Whether the first pane has the focus.
    pub fn first_column_has_focus(&self, focused_column: Option<usize>) -> (result: bool)
        ensures
            result == (self.in_columns() && focused_column == Some(0usize)),
    {
        let is_first: bool = match focused_column {
            Some(depth) => depth == 0,
            None => false,
        };
        self.settings.mode == BrowserMode::Columns && is_first
    }

    /// Whether the focus is next to the sidebar; `at_left_edge` is whether it is in the view that is
    /// shown in place of the panes.
    pub fn item_at_sidebar_edge(&self, focused_column: Option<usize>, at_left_edge: bool) -> (result:
        bool)
        ensures
            result == if self.in_columns() {
                focused_column == Some(0usize)
            } else {
                at_left_edge
            },
    {
        if self.settings.mode == BrowserMode::Columns {
            self.first_column_has_focus(focused_column)
        } else {
            at_left_edge
        }
    }

    /// The pane whose header takes the focus from its first row, if the focus is there.
    pub fn focus_header_from_top_item(&self, focused: Option<(usize, Option<u32>)>) -> (result:
        Option<usize>)
        ensures
            result == match focused {
                Some((depth, row)) => if self.panes@.has(depth) && row == Some(0u32) {
                    Some(depth)
                } else {
                    None
                },
                None => None,
            },
    {
        match focused {
            Some((depth, Some(row))) => {
                if depth < self.panes.columns.len() && row == 0 {
                    Some(depth)
                } else {
                    None
                }
            },
            _ => None,
        }
    }

    /// The pane whose header takes the focus from that of another, where that one has no place for
    /// it in the direction.
    pub fn move_header_focus(&self, header: usize, direction: Direction) -> (result: Option<usize>)
        ensures
            result == pane_beside(header, self.panes@.columns.len(), direction),
    {
        match direction {
            Direction::Left => if header > 0 {
                Some(header - 1)
            } else {
                None
            },
            Direction::Right => if header < self.panes.columns.len() && header
                < self.panes.columns.len() - 1 {
                Some(header + 1)
            } else {
                None
            },
            _ => None,
        }
    }

    /// Takes whether peeks are allowed. Gives whether the one under way is to end.
    pub fn set_peek_enabled(&mut self, enabled: bool) -> (result: bool)
        ensures
            result == !enabled,
            *final(self) == (BrowserView {
                peek: Peek {
                    enabled,
                    pending_open: if enabled {
                        old(self).peek.pending_open
                    } else {
                        None
                    },
                    ..old(self).peek
                },
                ..*old(self)
            }),
    {
        self.peek.set_enabled(enabled)
    }

    /// Takes whether a single click shows a preview.
    pub fn set_single_click_previews(&mut self, enabled: bool)
        ensures
            *final(self) == (BrowserView {
                settings: ViewSettings { single_click_previews: enabled, ..old(self).settings },
                ..*old(self)
            }),
    {
        self.settings.single_click_previews = enabled;
    }

    /// Takes how often a click opens entries in a mode. Gives whether that is one of another view
    /// than the panes.
    pub fn set_click_activation(&mut self, mode: BrowserMode, activation: ClickActivation) -> (result:
        bool)
        ensures
            result == (mode !is Columns),
            *final(self) == if mode is Columns {
                BrowserView {
                    settings: ViewSettings { click_activation: activation, ..old(self).settings },
                    ..*old(self)
                }
            } else {
                *old(self)
            },
    {
        if mode == BrowserMode::Columns {
            self.settings.click_activation = activation;
            false
        } else {
            true
        }
    }

    /// Begins to type a location.
    pub fn begin_location_edit(&mut self)
        ensures
            *final(self) == (BrowserView {
                settings: ViewSettings { editing_location: true, ..old(self).settings },
                ..*old(self)
            }),
    {
        self.settings.editing_location = true;
    }

    /// Stops typing a location; the field then says again where the view is, and the listing has the
    /// focus.
    pub fn cancel_location_edit(&mut self)
        ensures
            *final(self) == (BrowserView {
                settings: ViewSettings { editing_location: false, ..old(self).settings },
                ..*old(self)
            }),
    {
        self.settings.editing_location = false;
    }

    /// The view once the keyboard navigates: a peek that waits does not open.
    pub open spec fn by_keyboard(self) -> BrowserView {
        BrowserView {
            settings: ViewSettings { navigation: NavigationInput::Keyboard, ..self.settings },
            peek: Peek { pending_open: None, ..self.peek },
            ..self
        }
    }

    /// Takes that the keyboard navigates. A peek that waits does not open, and the one under way is
    /// to end.
    pub fn keyboard_navigation(&mut self)
        ensures
            *final(self) == old(self).by_keyboard(),
    {
        self.settings.navigation = NavigationInput::Keyboard;
        self.peek.cancel_open();
    }

    /// Takes that the pointer navigates.
    pub fn pointer_navigation(&mut self)
        ensures
            *final(self) == (BrowserView {
                settings: ViewSettings {
                    navigation: NavigationInput::Pointer,
                    ..old(self).settings
                },
                ..*old(self)
            }),
    {
        self.settings.navigation = NavigationInput::Pointer;
    }

    /// Whether the pane that files would be pasted into is the one under the pointer, because the
    /// pointer navigates.
    pub fn destination_by_pointer(&self, destination: Option<usize>) -> (result: bool)
        ensures
            result == (self.settings.navigation is Pointer && self.panes@.hovered == destination),
    {
        let is_hovered: bool = match (self.panes.hovered, destination) {
            (Some(hovered), Some(depth)) => hovered == depth,
            (None, None) => true,
            _ => false,
        };
        self.settings.navigation == NavigationInput::Pointer && is_hovered
    }

    /// Where the selection of the view stands, told to the listing before it acts on it. `other` is
    /// what is selected in the view that is shown in place of the panes.
    pub fn sync_mode_selection(
        &self,
        focused_column: Option<usize>,
        other: Option<(usize, Vec<usize>)>,
    ) -> (result: Command)
        ensures
            result == if self.in_columns() {
                match focused_column {
                    Some(depth) => Command::SetActiveColumn(depth),
                    None => Command::Nothing,
                }
            } else {
                match other {
                    Some((pane, positions)) => Command::SetSelection {
                        pane,
                        positions,
                        focused: if positions@.len() > 0 {
                            Some(positions@.last())
                        } else {
                            None
                        },
                    },
                    None => Command::Nothing,
                }
            },
    {
        if self.settings.mode == BrowserMode::Columns {
            return match focused_column {
                Some(depth) => Command::SetActiveColumn(depth),
                None => Command::Nothing,
            };
        }
        match other {
            Some((pane, positions)) => {
                let focused: Option<usize> = if positions.len() > 0 {
                    Some(positions[positions.len() - 1])
                } else {
                    None
                };
                Command::SetSelection { pane, positions, focused }
            },
            None => Command::Nothing,
        }
    }

    /// The folder of a pane, or the active one where there are no panes.
    pub open spec fn folder_at(&self, depth: Option<usize>, active: Option<Location>) -> Option<
        Location,
    > {
        if self.in_columns() {
            match depth {
                Some(depth) => if self.panes@.has(depth) {
                    Some(self.panes@.columns[depth as int].location)
                } else {
                    None
                },
                None => None,
            }
        } else {
            active
        }
    }

    fn folder_for(&self, depth: Option<usize>, active: Option<Location>) -> (result: Option<Location>)
        ensures
            result == self.folder_at(depth, active),
    {
        if self.settings.mode != BrowserMode::Columns {
            return active;
        }
        match depth {
            Some(depth) => if depth < self.panes.columns.len() {
                Some(self.panes.columns[depth].location.duplicate())
            } else {
                None
            },
            None => None,
        }
    }

    /// Where files are pasted: into the destination among the panes, or the active folder.
    pub fn paste(&self, destination: Option<usize>, active: Option<Location>) -> (result: Option<
        Location,
    >)
        ensures
            result == self.folder_at(destination, active),
    {
        self.folder_for(destination, active)
    }

    /// The entries whose paths are copied: those selected, or the one that has the focus.
    pub fn copy_path(&self, selected: &Vec<FileEntry>, focused: Option<FileEntry>) -> (result: Option<
        Vec<FileEntry>,
    >)
        ensures
            match result {
                Some(entries) => entries@ == if selected@.len() > 0 {
                    selected@
                } else {
                    seq![focused->0]
                } && (selected@.len() > 0 || focused is Some),
                None => selected@.len() == 0 && focused is None,
            },
    {
        if selected.len() > 0 {
            return Some(duplicate_entries(selected));
        }
        match focused {
            Some(entry) => {
                let mut entries: Vec<FileEntry> = Vec::new();
                entries.push(entry);
                assert(entries@ == seq![entry]);
                Some(entries)
            },
            None => None,
        }
    }

    /// The folder to pin, and its name: the one that has the focus, where it can be.
    pub fn pin_focused(
        &self,
        focused: Option<FileEntry>,
        status: Option<PinStatus>,
        has_handler: bool,
    ) -> (result: Option<(Location, String)>)
        ensures
            result == match focused {
                Some(entry) => if has_handler && entry.kind.is_directory()
                    && !entry.location@.in_trash() && status == Some(PinStatus::Available) {
                    Some((entry.location, entry.display_name))
                } else {
                    None
                },
                None => None,
            },
    {
        match focused {
            Some(entry) => {
                let known: PinStatus = match status {
                    Some(status) => status,
                    None => PinStatus::Unavailable,
                };
                if has_handler && can_pin_entry(&entry, known) {
                    Some((entry.location, entry.display_name))
                } else {
                    None
                }
            },
            None => None,
        }
    }

    /// Selects everything in the pane that has the focus, or in the active folder. The keyboard
    /// navigates then.
    pub fn select_all(&mut self, focused_column: Option<usize>, active_depth: Option<usize>) -> (result:
        Command)
        ensures
            *final(self) == old(self).by_keyboard(),
            result == if old(self).in_columns() {
                match first_known(focused_column, active_depth) {
                    Some(depth) => if old(self).panes@.has(depth) {
                        Command::SelectAllRows(depth)
                    } else {
                        Command::Nothing
                    },
                    None => Command::Nothing,
                }
            } else {
                match active_depth {
                    Some(depth) => Command::SelectAllEntries(depth),
                    None => Command::Nothing,
                }
            },
    {
        self.keyboard_navigation();
        if self.settings.mode == BrowserMode::Columns {
            match or_else(focused_column, active_depth) {
                Some(depth) => if depth < self.panes.columns.len() {
                    Command::SelectAllRows(depth)
                } else {
                    Command::Nothing
                },
                None => Command::Nothing,
            }
        } else {
            match active_depth {
                Some(depth) => Command::SelectAllEntries(depth),
                None => Command::Nothing,
            }
        }
    }

    /// Where a terminal opens: in the one folder that is selected, or where files would be pasted.
    pub fn open_terminal(
        &self,
        selected: &Vec<FileEntry>,
        destination: Option<usize>,
        active: Option<Location>,
    ) -> (result: Option<Location>)
        ensures
            result == if selected@.len() == 1 && selected@[0].kind.is_directory() {
                Some(selected@[0].location)
            } else {
                self.folder_at(destination, active)
            },
    {
        match selected_terminal_location(selected) {
            Some(location) => Some(location),
            None => self.folder_for(destination, active),
        }
    }

    /// Reads the folders in view again.
    pub fn refresh(&self) -> (result: Command)
        ensures
            result == if self.in_columns() {
                Command::RefreshAll
            } else {
                Command::ReloadActive
            },
    {
        if self.settings.mode == BrowserMode::Columns {
            Command::RefreshAll
        } else {
            Command::ReloadActive
        }
    }

    /// Takes that the time to refresh has come, which waits while a name is being edited, in the
    /// panes or elsewhere.
    pub fn auto_refresh(&self, editing_elsewhere: bool) -> (result: Command)
        ensures
            result == if self.edits.is_editing() || editing_elsewhere {
                Command::Nothing
            } else if self.in_columns() {
                Command::RefreshAll
            } else {
                Command::ReloadActive
            },
    {
        if self.edits.editing() || editing_elsewhere {
            Command::Nothing
        } else {
            self.refresh()
        }
    }

    /// Takes entries to delete. Those that go to the trash are remembered, in case it cannot take
    /// them.
    pub fn request_delete(&mut self, entries: Vec<FileEntry>, permanent: bool) -> (result: DeleteStep)
        ensures
            result == if permanent {
                DeleteStep::Confirm(entries)
            } else {
                DeleteStep::MoveToTrash(entries)
            },
            final(self).operations@ == if permanent {
                old(self).operations@
            } else {
                OperationsModel { pending_delete: entries@, ..old(self).operations@ }
            },
            final(self).settings == old(self).settings,
            final(self).panes == old(self).panes,
            final(self).peek == old(self).peek,
            final(self).edits == old(self).edits,
    {
        if !permanent {
            self.operations.pending_delete = duplicate_entries(&entries);
        }
        request_delete(entries, permanent)
    }

    /// Where the view deletes: in the folder of the pane that has the focus, or in the active one.
    pub open spec fn deletes_in(&self, focused_column: Option<usize>, active: Option<Location>) -> Option<
        Location,
    > {
        match focused_column {
            Some(depth) => if self.panes@.has(depth) {
                Some(self.panes@.columns[depth as int].location)
            } else {
                active
            },
            None => active,
        }
    }

    /// Takes that entries are to be deleted: those selected in the panes, and those that can be
    /// deleted in a view that is shown in place of them. Gives nothing where there are none. In the
    /// trash they are deleted for good.
    pub fn confirm_delete(
        &mut self,
        selected: Vec<FileEntry>,
        deletable: Vec<FileEntry>,
        focused_column: Option<usize>,
        active: Option<Location>,
        permanent: bool,
    ) -> (result: Option<DeleteStep>)
        ensures
            ({
                let entries = if old(self).in_columns() {
                    selected
                } else {
                    deletable
                };
                let place = old(self).deletes_in(focused_column, active);
                let for_good = permanent || (place matches Some(folder) && folder@.in_trash());
                &&& result == if entries@.len() == 0 {
                    None
                } else if for_good {
                    Some(DeleteStep::Confirm(entries))
                } else {
                    Some(DeleteStep::MoveToTrash(entries))
                }
                &&& final(self).operations@ == if entries@.len() == 0 || for_good {
                    old(self).operations@
                } else {
                    OperationsModel { pending_delete: entries@, ..old(self).operations@ }
                }
            }),
            final(self).only_operations(old(self)),
    {
        let entries: Vec<FileEntry> = if self.settings.mode == BrowserMode::Columns {
            selected
        } else {
            deletable
        };
        if entries.len() == 0 {
            return None;
        }
        let depth: usize = match focused_column {
            Some(depth) => depth,
            None => self.panes.columns.len(),
        };
        let in_trash: bool = if depth < self.panes.columns.len() {
            is_trash_location(&self.panes.columns[depth].location)
        } else {
            match &active {
                Some(folder) => is_trash_location(folder),
                None => false,
            }
        };
        Some(self.request_delete(entries, permanent || in_trash))
    }

    /// Shows the filter of the pane that has the focus.
    pub fn show_filter(&mut self, focused_column: Option<usize>, active_depth: Option<usize>) -> (result:
        FilterStep)
        ensures
            result == if !old(self).in_columns() {
                FilterStep::InOtherView
            } else {
                match first_known(focused_column, active_depth) {
                    Some(depth) => if old(self).panes@.has(depth) {
                        FilterStep::Shown(depth)
                    } else {
                        FilterStep::NotShown
                    },
                    None => FilterStep::NotShown,
                }
            },
            final(self).panes@ == match result {
                FilterStep::Shown(depth) => old(self).panes@.filtering(depth, true),
                _ => old(self).panes@,
            },
            final(self).settings == old(self).settings,
            final(self).peek == old(self).peek,
            final(self).edits == old(self).edits,
            final(self).operations == old(self).operations,
    {
        if self.settings.mode != BrowserMode::Columns {
            return FilterStep::InOtherView;
        }
        match or_else(focused_column, active_depth) {
            Some(depth) => {
                if depth < self.panes.columns.len() {
                    self.panes.filter_toggled(depth, true);
                    FilterStep::Shown(depth)
                } else {
                    FilterStep::NotShown
                }
            },
            None => FilterStep::NotShown,
        }
    }

    /// Closes the filter that has the focus; the list of its pane then has it. `elsewhere` is whether
    /// one was closed in the view that is shown in place of the panes. Tells whether any was.
    pub fn dismiss_focused_filter(&mut self, focused_filter: Option<usize>, elsewhere: bool) -> (result:
        bool)
        ensures
            result == (elsewhere || (focused_filter matches Some(depth) && old(self).panes@.has(
                depth,
            ))),
            final(self).panes@ == if !elsewhere && result {
                old(self).panes@.filtering(focused_filter->0, false)
            } else {
                old(self).panes@
            },
            final(self).settings == old(self).settings,
            final(self).peek == old(self).peek,
            final(self).edits == old(self).edits,
            final(self).operations == old(self).operations,
    {
        if elsewhere {
            return true;
        }
        match focused_filter {
            Some(depth) => {
                if depth < self.panes.columns.len() {
                    self.panes.filter_toggled(depth, false);
                    true
                } else {
                    false
                }
            },
            None => false,
        }
    }

    /// Closes the filter that has the focus, if it holds no text. `empty_elsewhere` is whether the one
    /// of the view that is shown in place of the panes has the focus and holds none. Tells whether
    /// any was closed.
    pub fn dismiss_empty_focused_filter(
        &mut self,
        focused_filter: Option<usize>,
        is_empty: bool,
        empty_elsewhere: bool,
        elsewhere: bool,
    ) -> (result: bool)
        ensures
            ({
                let closes = empty_elsewhere || (focused_filter is Some && is_empty);
                let is_there = focused_filter matches Some(depth) && old(self).panes@.has(depth);
                &&& result == (closes && (elsewhere || is_there))
                &&& final(self).panes@ == if closes && !elsewhere && is_there {
                    old(self).panes@.filtering(focused_filter->0, false)
                } else {
                    old(self).panes@
                }
            }),
            final(self).settings == old(self).settings,
            final(self).peek == old(self).peek,
            final(self).edits == old(self).edits,
            final(self).operations == old(self).operations,
    {
        if empty_elsewhere || (focused_filter.is_some() && is_empty) {
            self.dismiss_focused_filter(focused_filter, elsewhere)
        } else {
            false
        }
    }

    /// The files to put on the clipboard, where any are selected.
    pub fn copy_selection(&self, selected: &Vec<FileEntry>) -> (result: Option<Vec<Location>>)
        ensures
            match result {
                Some(files) => files@ == locations_of(selected@) && selected@.len() > 0,
                None => selected@.len() == 0,
            },
    {
        if selected.len() == 0 {
            None
        } else {
            Some(entry_locations(selected))
        }
    }

    /// The files to put on the clipboard in order to move them, where any are selected.
    pub fn cut_selection(&self, selected: &Vec<FileEntry>) -> (result: Option<Vec<Location>>)
        ensures
            match result {
                Some(files) => files@ == locations_of(selected@) && selected@.len() > 0,
                None => selected@.len() == 0,
            },
    {
        self.copy_selection(selected)
    }

    /// The copies to make beside what is selected: into which folder, and of which files. `parents`
    /// are the folders of the entries.
    pub fn duplicate_selection(&self, selected: &Vec<FileEntry>, parents: &Vec<Option<Location>>) -> (result:
        Option<(Location, Vec<Location>)>)
        requires
            parents@.len() == selected@.len(),
        ensures
            match result {
                Some((destination, sources)) => selected@.len() > 0 && parents@[0] == Some(
                    destination,
                ) && all_in(parents@, destination@.place()) && sources@ == locations_of(selected@),
                None => selected@.len() == 0 || parents@[0] is None || !all_in(
                    parents@,
                    parents@[0]->0@.place(),
                ),
            },
    {
        duplicate_transfer(selected, parents)
    }

    /// What undoing leads to: a move is taken back first, and otherwise what went to the trash.
    pub fn undo_last_operation(&self, has_move: bool) -> (result: UndoStep)
        ensures
            result == if has_move {
                UndoStep::Move
            } else {
                UndoStep::Trash
            },
    {
        if has_move {
            UndoStep::Move
        } else {
            UndoStep::Trash
        }
    }

    /// The filter of the active pane, to be kept while its pane is made anew: its text, and whether
    /// it is open.
    pub fn capture_active_column_filter(&self, active_depth: Option<usize>, text: String) -> (result:
        Option<ActivePaneFilter>)
        ensures
            result == match active_depth {
                Some(depth) => if self.panes@.has(depth) {
                    Some(
                        ActivePaneFilter {
                            query: text,
                            revealed: self.panes@.state(depth).filter_open,
                        },
                    )
                } else {
                    None
                },
                None => None,
            },
    {
        match active_depth {
            Some(depth) => if depth < self.panes.columns.len() {
                Some(
                    ActivePaneFilter {
                        query: text,
                        revealed: self.panes.columns[depth].state.filter_open,
                    },
                )
            } else {
                None
            },
            None => None,
        }
    }

    /// Moves the focus by a page of the view that has it, or to its end. Gives nothing where no
    /// listing has the focus.
    pub fn page_selection(&self, direction: i32, page: Option<usize>) -> (result: Command)
        ensures
            result == match page {
                Some(items) => Command::PageSelection { direction, items },
                None => Command::Nothing,
            },
    {
        match page {
            Some(items) => Command::PageSelection { direction, items },
            None => Command::Nothing,
        }
    }

    /// Moves the focus to the first or the last entry of the listing that has it.
    pub fn jump_selection(&self, direction: i32, has_focus: bool) -> (result: Command)
        ensures
            result == if has_focus {
                Command::PageSelection { direction, items: usize::MAX }
            } else {
                Command::Nothing
            },
    {
        if has_focus {
            Command::PageSelection { direction, items: usize::MAX }
        } else {
            Command::Nothing
        }
    }

    /// The view with only its first panes: nothing is edited or peeked into, and nothing waits to be.
    pub open spec fn is_truncated(&self, before: &BrowserView, len: usize) -> bool {
        &&& self.settings == before.settings
        &&& self.operations == before.operations
        &&& self.panes@ == before.panes@.truncated(len)
        &&& self.peek == before.peek.dropped()
        &&& !self.edits.is_editing()
    }

    /// Takes that only the first panes stay.
    pub fn truncate(&mut self, len: usize)
        ensures
            final(self).is_truncated(old(self), len),
    {
        self.peek.anchor = None;
        self.peek.close_visual();
        self.edits = Edits { rename: None, new_entry: None };
        self.panes.truncate(len);
    }

    /// Takes that the panes are made anew from a depth on.
    pub fn rebuild_columns_from(&mut self, from_depth: usize, rebuilt: Vec<RebuiltColumn>)
        ensures
            final(self).settings == old(self).settings,
            final(self).operations == old(self).operations,
            !final(self).edits.is_editing(),
            final(self).peek == old(self).peek.dropped(),
            final(self).panes@.columns == old(self).panes@.truncated(from_depth).columns
                + rebuilt@.map_values(|column: RebuiltColumn| column.column()),
            final(self).panes@.hovered == old(self).panes@.truncated(from_depth).hovered,
            final(self).panes@.menu_owner == old(self).panes@.truncated(from_depth).menu_owner,
            final(self).panes@.waiting == old(self).panes@.waiting,
            final(self).panes@.source_number == moved_on(
                old(self).panes@.source_number,
                rebuilt@.len(),
            ),
            final(self).panes@.scroll_number == moved_on(
                old(self).panes@.truncated(from_depth).scroll_number,
                rebuilt@.len(),
            ),
    {
        self.truncate(from_depth);
        let ghost whole = rebuilt@;
        let ghost start = self.panes@;
        let ghost made = |column: RebuiltColumn| column.column();
        for column in it: rebuilt
            invariant
                it.seq() == whole,
                made == (|column: RebuiltColumn| column.column()),
                start == old(self).panes@.truncated(from_depth),
                self.settings == old(self).settings,
                self.operations == old(self).operations,
                !self.edits.is_editing(),
                self.peek == old(self).peek.dropped(),
                self.panes@.columns == start.columns + whole.take(it.index() as int).map_values(
                    made,
                ),
                self.panes@.hovered == start.hovered,
                self.panes@.menu_owner == start.menu_owner,
                self.panes@.waiting == start.waiting,
                self.panes@.source_number == moved_on(start.source_number, it.index() as nat),
                self.panes@.scroll_number == moved_on(start.scroll_number, it.index() as nat),
        {
            let ghost before = self.panes@.columns;
            assert(whole.take(it.index() + 1).map_values(made) =~= whole.take(
                it.index() as int,
            ).map_values(made).push(made(column)));
            let RebuiltColumn { location, show_hidden, snapshot, failure } = column;
            self.panes.append_column(location, show_hidden);
            let depth: usize = self.panes.columns.len() - 1;
            self.panes.rebuild_column(depth, snapshot, failure);
            assert(self.panes@.columns =~= before.push(made(column)));
            assert(self.panes@.columns =~= start.columns + whole.take(it.index() + 1).map_values(
                made,
            ));
        }
        assert(whole.take(whole.len() as int) == whole);
    }

    /// Takes another mode of the view. Gives nothing where it is the one it has. The panes go with
    /// their mode, and have to be made anew when they come back.
    pub fn set_view_mode(&mut self, mode: BrowserMode, active_depth: Option<usize>) -> (result: Option<
        ModeChange,
    >)
        ensures
            old(self).settings.mode == mode ==> result is None && *final(self) == *old(self),
            old(self).settings.mode != mode ==> {
                let previous = old(self).settings.mode;
                &&& result == Some(
                    ModeChange {
                        rebuild_columns: mode is Columns,
                        focus_pane: if mode is Columns {
                            None
                        } else {
                            active_depth
                        },
                        cleared: if previous is Columns {
                            None
                        } else {
                            Some(previous)
                        },
                    },
                )
                &&& final(self).settings == (ViewSettings { mode, ..old(self).settings })
                &&& final(self).operations == old(self).operations
                &&& previous is Columns ==> final(self).panes@ == old(self).panes@.truncated(0)
                    && !final(self).edits.is_editing() && final(self).peek == old(self).peek.dropped()
                &&& previous !is Columns ==> final(self).panes == old(self).panes
                    && final(self).edits == old(self).edits && final(self).peek == old(self).peek
            },
    {
        let previous: BrowserMode = self.settings.mode;
        if mode == previous {
            return None;
        }
        self.settings.mode = mode;
        if previous == BrowserMode::Columns {
            self.truncate(0);
        }
        Some(
            ModeChange {
                rebuild_columns: mode == BrowserMode::Columns,
                focus_pane: if mode == BrowserMode::Columns {
                    None
                } else {
                    active_depth
                },
                cleared: if previous == BrowserMode::Columns {
                    None
                } else {
                    Some(previous)
                },
            },
        )
    }
}

/// Nothing is edited in a pane that is gone, and no peek outlives the pane it opened from.
pub proof fn law_truncation_ends_edits(before: BrowserView, after: BrowserView, len: usize)
    requires
        after.is_truncated(&before, len),
    ensures
        !after.edits.is_editing(),
        after.peek.shown is None && after.peek.pending_open is None && after.peek.anchor is None,
        after.panes@.columns.len() <= len,
{
}

/// Panes take up their widths together, none less than a column.
pub proof fn law_widths_add_up(widths: Seq<i32>, width: i32)
    ensures
        total_width(Seq::empty()) == 0,
        0 <= total_width(widths),
        width <= 300 && total_width(widths) + 300 <= i32::MAX ==> total_width(widths.push(width))
            == total_width(widths) + 300,
        width > 300 && total_width(widths) + width <= i32::MAX ==> total_width(widths.push(width))
            == total_width(widths) + width,
        width > 300 && total_width(widths) + width > i32::MAX ==> total_width(widths.push(width))
            == i32::MAX,
        width <= 300 && total_width(widths) + 300 > i32::MAX ==> total_width(widths.push(width))
            == i32::MAX,
        total_width(widths) <= total_width(widths.push(width)),
    decreases widths.len(),
{
    assert(widths.push(width).drop_last() =~= widths);
    if widths.len() > 0 {
        law_widths_add_up(widths.drop_last(), widths.last());
        assert(widths.drop_last().push(widths.last()) =~= widths);
    }
}

/// The pane to the left is the one before, the pane to the right the one behind; going there and back
/// leads to the same pane, and nothing lies above or below.
pub proof fn law_panes_lie_side_by_side(index: usize, count: nat)
    requires
        index < count,
        count <= usize::MAX,
    ensures
        index > 0 ==> pane_beside(index, count, Direction::Left) == Some((index - 1) as usize),
        index + 1 < count ==> pane_beside(index, count, Direction::Right) == Some(
            (index + 1) as usize,
        ),
        pane_beside(0, count, Direction::Left) is None,
        index + 1 == count ==> pane_beside(index, count, Direction::Right) is None,
        pane_beside(index, count, Direction::Up) is None,
        pane_beside(index, count, Direction::Down) is None,
{
}

/// The first of two panes counts where it is known, and the second only where it is not.
pub proof fn law_first_known_pane_counts(first: Option<usize>, second: Option<usize>)
    ensures
        first is Some ==> first_known(first, second) == first,
        first is None ==> first_known(first, second) == second,
{
}

/// Something is being edited while a name is: that of an entry or of a new one.
pub proof fn law_naming_is_editing(edits: Edits)
    ensures
        !edits.is_editing() <==> edits.rename is None && edits.new_entry is None,
{
}

/// A transfer that begins is of the entries of the dialog, moved or copied as it says, into the folder
/// it was pressed for. The view goes there once it is done, and selects what arrives besides what it
/// was to select before; all else stays.
pub proof fn law_transfers_lead_to_their_folder(
    before: BrowserView,
    dialog: TransferDialog,
    path: Seq<char>,
    request: TransferRequest,
    after: BrowserView,
    i: int,
)
    requires
        before.led_on(dialog, path, TransferStep::Start(request), &after),
    ensures
        request is StartTransfer,
        request->StartTransfer_destination@ == LocationView::Native(path),
        request->StartTransfer_sources@.len() == dialog.entries@.len(),
        0 <= i < dialog.entries@.len() ==> request->StartTransfer_sources@[i]
            == dialog.entries@[i].location,
        request->move_sources == dialog.move_sources,
        after.operations@.pending_navigate is Some,
        after.operations@.pending_navigate->0@ == LocationView::Native(path),
        views(after.operations@.pending_select) == views(before.operations@.pending_select)
            + arriving(locations_of(dialog.entries@)),
        after.settings == before.settings && after.panes == before.panes && after.peek
            == before.peek && after.edits == before.edits,
        after.operations@.progress == before.operations@.progress,
        after.operations@.select_properties == before.operations@.select_properties,
        after.operations@.extract_retry == before.operations@.extract_retry,
        after.operations@.pending_delete == before.operations@.pending_delete,
        after.operations@.credentials == before.operations@.credentials,
        after.operations@.measuring_trash == before.operations@.measuring_trash,
        after.operations@.emptying_trash == before.operations@.emptying_trash,
{
}

/// A dialog that stays open, or first has a folder made, changes nothing of the view, and the folder
/// made is the one it was pressed for. What the view does is what the dialog asks for.
pub proof fn law_open_dialogs_change_nothing(
    before: BrowserView,
    dialog: TransferDialog,
    path: Seq<char>,
    folder: String,
    request: TransferRequest,
    after: BrowserView,
)
    ensures
        before.led_on(dialog, path, TransferStep::Stay, &after) ==> after == before,
        before.led_on(dialog, path, TransferStep::CreateFolder(folder), &after) ==> after == before
            && folder@ == path,
        TransferStep::Stay.asked() is Stay,
        TransferStep::CreateFolder(folder).asked() is CreateFolder,
        TransferStep::Start(request).asked() is Transfer,
{
}

/// A pane that is made anew shows its folder as far as it is known, and a failure only once nothing
/// more is read.
pub proof fn law_rebuilt_columns_show_their_folder(rebuilt: RebuiltColumn)
    ensures
        rebuilt.column().location == rebuilt.location,
        rebuilt.snapshot.loading ==> rebuilt.column().failure is None,
        !rebuilt.snapshot.loading ==> rebuilt.column().failure == rebuilt.failure,
        rebuilt.column().state.show_hidden == rebuilt.show_hidden,
        rebuilt.column().state.entry_count == rebuilt.snapshot.count,
        rebuilt.column().state.truncated == rebuilt.snapshot.truncated,
        rebuilt.column().state.page is Failed <==> !rebuilt.snapshot.loading && rebuilt.failure
            is Some,
        rebuilt.column().state.spinner.spinning == rebuilt.snapshot.loading,
        rebuilt.column().state.empty_trash is Some <==> rebuilt.location@.is_trash_root(),
{
}

/// Using the keyboard is remembered, and no peek opens any more from where the pointer rests; nothing
/// else changes.
pub proof fn law_keyboard_takes_over(view: BrowserView)
    ensures
        view.by_keyboard().settings.navigation is Keyboard,
        view.by_keyboard().peek.pending_open is None,
        view.by_keyboard().settings == (ViewSettings {
            navigation: NavigationInput::Keyboard,
            ..view.settings
        }),
        view.by_keyboard().peek == (Peek { pending_open: None, ..view.peek }),
        view.by_keyboard().panes == view.panes,
        view.by_keyboard().edits == view.edits,
        view.by_keyboard().operations == view.operations,
        view.in_columns() <==> view.settings.mode is Columns,
{
}

/// A folder is found in its pane where panes are shown, and is the active one where they are not.
/// Entries are deleted from the pane that has the focus, or from the active folder.
pub proof fn law_folders_are_found_in_their_pane(
    view: BrowserView,
    depth: usize,
    active: Option<Location>,
)
    ensures
        !(view.settings.mode is Columns) ==> view.folder_at(Some(depth), active) == active
            && view.folder_at(None, active) == active,
        view.settings.mode is Columns ==> view.folder_at(None, active) is None,
        view.settings.mode is Columns && depth < view.panes.columns@.len() ==> view.folder_at(
            Some(depth),
            active,
        ) == Some(view.panes.columns@[depth as int].location),
        view.settings.mode is Columns && depth >= view.panes.columns@.len() ==> view.folder_at(
            Some(depth),
            active,
        ) is None,
        view.deletes_in(None, active) == active,
        depth < view.panes.columns@.len() ==> view.deletes_in(Some(depth), active) == Some(
            view.panes.columns@[depth as int].location,
        ),
        depth >= view.panes.columns@.len() ==> view.deletes_in(Some(depth), active) == active,
{
}

/// Closing panes keeps what the view works on and how it is set.
pub proof fn law_closing_panes_keeps_the_rest(before: BrowserView, after: BrowserView, len: usize)
    requires
        after.is_truncated(&before, len),
    ensures
        after.settings == before.settings,
        after.operations == before.operations,
        after.panes@ == before.panes@.truncated(len),
        after.peek.enabled == before.peek.enabled,
        after.peek.item_limit == before.peek.item_limit,
        !after.peek.pending_close,
{
}

/// Edits alone change where only they may.
pub proof fn law_edits_change_alone(view: BrowserView, other: BrowserView)
    ensures
        view.same_but_edits(&other) <==> view.settings == other.settings && view.panes == other.panes
            && view.peek == other.peek && view.operations == other.operations,
{
}

/// A fresh view holds no panes and does nothing yet; it is ready to peek.
pub proof fn law_fresh_views_do_nothing(view: BrowserView, behavior: PeekBehavior)
    requires
        view.is_fresh(behavior),
    ensures
        view.panes.columns@.len() == 0,
        view.panes.hovered is None && view.panes.menu_owner is None && !view.panes.waiting,
        view.peek.enabled && view.peek.item_limit == behavior.item_limit,
        view.peek.anchor is None && view.peek.pending_open is None && !view.peek.pending_close
            && view.peek.shown is None,
        view.edits.rename is None && view.edits.new_entry is None,
        view.operations.progress.shown is Nothing && !view.operations.progress.pending,
        view.operations.pending_select@.len() == 0 && !view.operations.select_properties,
        view.operations.extract_retry is None && view.operations.pending_delete@.len() == 0,
        view.operations.pending_navigate is None && view.operations.credentials is None,
        !view.operations.measuring_trash && !view.operations.emptying_trash,
{
}

/// The operations of a view are known by what each of them holds.
pub proof fn law_operations_are_known_by_their_state(operations: Operations)
    ensures
        operations@.progress == operations.progress,
        operations@.pending_select == operations.pending_select@,
        operations@.select_properties == operations.select_properties,
        operations@.extract_retry == operations.extract_retry,
        operations@.pending_delete == operations.pending_delete@,
        operations@.pending_navigate == operations.pending_navigate,
        operations@.credentials == operations.credentials,
        operations@.measuring_trash == operations.measuring_trash,
        operations@.emptying_trash == operations.emptying_trash,
{
}

} // verus!
