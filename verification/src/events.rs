//! What the listing behind the view tells, and how the view answers.

use crate::columns::{Column, ColumnState, Page};
use crate::entry::{item_count_label, items_label, retryable_delete_entries, BrowserMode, FileEntry};
use crate::location::{places, Location};
use crate::mount::{
    rejected_navigation, LocationValidationError, MountCredentials, MountStrategy, OpeningStep,
};
use crate::panes::{inserted_count, splice_sizes, RowSplice};
use crate::peek::{peeked, Peek, ShownPeek};
use crate::text::{concat_text, contains_text, lowercase, lowercase_text, occurs_in};
use crate::transfer::OperationProgress;
use crate::view::{ActiveRename, BrowserView, Edits, OperationsModel};
use vstd::prelude::*;

verus! {

/// Something that the listing behind the view tells.
#[derive(Debug)]
pub enum BrowserEvent {
    Reset,
    ColumnsTruncated { len: usize },
    ColumnAdded { depth: usize, location: Location },
    /// Of each insertion, its place and how many entries it adds.
    EntriesInserted { depth: usize, insertions: Vec<(usize, usize)> },
    EntriesReplaced { depth: usize, count: usize },
    EntriesPublished { depth: usize, position: usize, count: usize },
    MetadataFilled { depth: usize, updates: Vec<(usize, FileEntry)> },
    SortingStarted { depth: usize },
    SortingFinished { depth: usize },
    EntriesSpliced { depth: usize, splices: Vec<RowSplice>, selected: Option<usize> },
    ColumnReloaded { depth: usize },
    HiddenToggled { show_hidden: bool },
    LoadFinished { depth: usize, truncated: bool },
    LoadFailed { depth: usize, message: String },
    PeekStarted { location: Location },
    PeekEntriesAdded { entries: Vec<FileEntry> },
    PeekFinished,
    PeekFailed { message: String },
    PeekClosed,
    SelectionSetChanged { depth: usize, positions: Vec<usize>, focused: usize, take_focus: bool },
    FocusChanged { depth: usize, focus: Option<usize> },
    PreviewRequested,
    OpenRequested { location: Location },
    RenameCompleted,
    RenameFailed { message: String },
    TransferStarted { total: usize, moving: bool },
    TransferProgress { completed: usize, transferred_bytes: u64, total_bytes: Option<u64> },
    TransferFinished { moved_locations: Vec<Location> },
    DeletionStarted { total: usize },
    DeletionProgress { completed: usize, total: usize },
    DeletionFinished,
    RestorationStarted { total: usize },
    RestorationProgress { completed: usize, total: usize },
    RestorationFinished,
    OperationFailed { message: String },
    OperationCompletedWithErrors {
        message: String,
        retryable_locations: Vec<Location>,
        has_non_retryable_failures: bool,
    },
    OperationCancelled {
        completed: usize,
        failed: usize,
        not_attempted: usize,
        affected_locations: Vec<Location>,
    },
    NavigationRejected { parent_depth: usize, error: LocationValidationError },
    EmptyTrashRequested,
    LocationNavigationRejected { error: LocationValidationError },
    ArchiveStarted { total: usize },
    ArchiveProgress { completed: usize, total: usize },
    ArchiveCompleted { select_name: String },
    TransferCompleted,
}

/// What the view asks for before it answers an event.
#[derive(Debug)]
pub struct EventFacts {
    /// Whether a pane that is opened shows hidden entries.
    pub show_hidden: bool,
    pub active_depth: Option<usize>,
    /// The pane that has the focus.
    pub focused_column: Option<usize>,
    /// The rows of the entries that are selected according to the event.
    pub selected_rows: Vec<u32>,
    /// The row of the entry that the event puts the focus on or selects.
    pub focused_row: Option<u32>,
    /// Whether there is a place for a peek beside what it opens from.
    pub peek_has_room: bool,
}

/// What kind of operation is under way.
#[derive(Clone, Copy, Debug, PartialEq, Eq, Structural)]
pub enum OperationKind {
    Moving,
    Copying,
    Deleting,
    Restoring,
    Archiving,
}

/// What the progress of an operation is headed by.
pub fn operation_title(kind: OperationKind) -> (result: &'static str)
    ensures
        result@ == match kind {
            OperationKind::Moving => "Moving items"@,
            OperationKind::Copying => "Copying items"@,
            OperationKind::Deleting => "Deleting items"@,
            OperationKind::Restoring => "Restoring items"@,
            OperationKind::Archiving => "Working"@,
        },
{
    match kind {
        OperationKind::Moving => "Moving items",
        OperationKind::Copying => "Copying items",
        OperationKind::Deleting => "Deleting items",
        OperationKind::Restoring => "Restoring items",
        OperationKind::Archiving => "Working",
    }
}

/// What the toolkit and the listing are asked to do in answer to an event.
#[derive(Debug)]
pub enum Reaction {
    Nothing,
    /// Show where the active folder is.
    ShowActiveLocation,
    /// Show where a folder is; a pane may have been opened for it.
    ShowLocation { place: Location, opened: bool },
    /// Change the rows of a pane as the event says.
    ChangeRows(usize),
    /// Change the rows of a pane as the event says, and select one or none.
    SpliceRows { pane: usize, select: Option<u32> },
    /// Show the sizes that the event tells in the rows of a pane.
    FillSizes(usize),
    /// Take the rows of a pane, what its search found, and the text of its filter away.
    ClearRows(usize),
    /// Filter the rows of all panes anew.
    FilterRows,
    /// Select entries by their names, and maybe show the properties of the one that has the focus.
    SelectByName { names: Vec<String>, properties: bool },
    /// Select rows of a pane, scroll to one, and give the pane the focus.
    SelectRows { column: usize, rows: Option<Vec<u32>>, scroll_to: Option<u32>, grab_focus: bool },
    /// Put the peek on the screen.
    ShowPeek,
    /// End the peek.
    EndPeek,
    /// Tell in the peek why its folder could not be read.
    ShowPeekError(String),
    OpenLocation(Location),
    /// Give the listing the focus.
    FocusListing,
    /// Show what is wrong with the name that was tried.
    ShowRenameError,
    /// Show the progress of an operation, at once or after a while.
    ShowProgress { kind: OperationKind, at_once: bool },
    /// Show how far the operation has come.
    UpdateProgress,
    /// Take the progress away, and what was moved from the clipboard.
    EndTransfer(Vec<Location>),
    /// Take the progress away.
    EndOperation,
    /// Ask for the password of an archive.
    AskPassword { archive: FileEntry, destination: Location },
    ShowError { title: &'static str, detail: String },
    /// Tell an error, and offer to delete the entries for good.
    OfferPermanentDelete { reason: String, entries: Vec<FileEntry> },
    /// Ask before deleting the entries for good.
    ConfirmDelete(Vec<FileEntry>),
    /// Tell that the operation was cancelled, and read what it changed again afterwards.
    ShowCancelled { told: String, affected: Vec<Location> },
    /// Mount a place, and then enter it from a pane or go to it.
    Mount {
        parent: Option<usize>,
        target: Location,
        strategy: MountStrategy,
        credentials: Option<MountCredentials>,
    },
    /// Measure the trash before asking whether to empty it.
    MeasureTrash,
    Navigate(Location),
    ReloadActive,
}

/// How the view answers an event.
#[derive(Debug)]
pub struct Handled {
    pub reaction: Reaction,
    /// Whether the marks of the way to the active folder are drawn anew.
    pub refreshes_path: bool,
    /// Whether the view that is shown in place of the panes hears of the event as well.
    pub forwarded: bool,
}

/// Whether an event may change the way to the active folder.
pub open spec fn changes_path(event: BrowserEvent) -> bool {
    event is Reset || event is ColumnAdded || event is ColumnsTruncated || event is FocusChanged
        || event is SelectionSetChanged || event is EntriesInserted || event is EntriesPublished
        || event is EntriesSpliced || event is EntriesReplaced
}

/// Whether an event may change the way to the active folder.
pub fn event_refreshes_active_path(event: &BrowserEvent) -> (result: bool)
    ensures
        result == changes_path(*event),
{
    match event {
        BrowserEvent::Reset
        | BrowserEvent::ColumnAdded { .. }
        | BrowserEvent::ColumnsTruncated { .. }
        | BrowserEvent::FocusChanged { .. }
        | BrowserEvent::SelectionSetChanged { .. }
        | BrowserEvent::EntriesInserted { .. }
        | BrowserEvent::EntriesPublished { .. }
        | BrowserEvent::EntriesSpliced { .. }
        | BrowserEvent::EntriesReplaced { .. } => true,
        _ => false,
    }
}

/// Whether an error asks for a password.
pub open spec fn asks_for_password(message: Seq<char>) -> bool {
    occurs_in(lowercase(message), "password"@) || occurs_in(lowercase(message), "encrypt"@)
}

fn needs_password(message: &str) -> (result: bool)
    ensures
        result == asks_for_password(message@),
{
    let lower: String = lowercase_text(message);
    contains_text(lower.as_str(), "password") || contains_text(lower.as_str(), "encrypt")
}

/// What is told of an operation that was cancelled.
pub open spec fn cancelled_text(completed: nat, failed: nat, not_attempted: nat) -> Seq<char> {
    items_label(completed) + " completed, "@ + items_label(failed) + " failed, and "@ + items_label(
        not_attempted,
    ) + " not attempted.\n\nCompleted changes were not reverted."@
}

/// What is told of an operation that was cancelled.
pub fn cancelled_message(completed: usize, failed: usize, not_attempted: usize) -> (result: String)
    ensures
        result@ == cancelled_text(completed as nat, failed as nat, not_attempted as nat),
{
    let mut text: String = item_count_label(completed);
    text.append(" completed, ");
    let failures: String = item_count_label(failed);
    text.append(failures.as_str());
    text.append(" failed, and ");
    let rest: String = item_count_label(not_attempted);
    text.append(rest.as_str());
    text.append(" not attempted.\n\nCompleted changes were not reverted.");
    text
}

/// The entries of a deletion that can be deleted for good instead.
pub open spec fn retryable(entries: Seq<FileEntry>, locations: Seq<Location>) -> Seq<FileEntry> {
    entries.filter(|entry: FileEntry| places(locations).contains(entry.location@.place()))
}

impl BrowserView {
    /// Nothing but the panes is another.
    pub open spec fn only_panes(&self, before: &BrowserView) -> bool {
        self.settings == before.settings && self.peek == before.peek && self.edits == before.edits
            && self.operations == before.operations
    }

    /// Nothing but the peek is another.
    pub open spec fn only_peek(&self, before: &BrowserView) -> bool {
        self.settings == before.settings && self.panes == before.panes && self.edits == before.edits
            && self.operations == before.operations
    }

    /// Nothing but the operations is another.
    pub open spec fn only_operations(&self, before: &BrowserView) -> bool {
        self.settings == before.settings && self.panes == before.panes && self.peek == before.peek
            && self.edits == before.edits
    }

    /// Nothing but the progress of the operation is another.
    pub open spec fn only_progress(&self, before: &BrowserView, progress: OperationProgress) -> bool {
        self.only_operations(before) && self.operations@ == (OperationsModel {
            progress,
            ..before.operations@
        })
    }

    /// The view is as the invariant of its parts asks.
    pub open spec fn well_formed(&self) -> bool {
        self.peek.well_formed()
    }
}

/// What an operation that begins asks for: its progress is shown at once, or after a while.
pub open spec fn begins(kind: OperationKind, total: usize) -> Reaction {
    Reaction::ShowProgress { kind, at_once: OperationProgress::started(total).shown !is Nothing }
}

/// How the view answers an event that is about its panes.
pub open spec fn answers_in_panes(
    before: &BrowserView,
    event: BrowserEvent,
    facts: EventFacts,
    after: &BrowserView,
    reaction: Reaction,
) -> bool {
    match event {
        BrowserEvent::EntriesInserted { depth, insertions } => {
            &&& after.only_panes(before)
            &&& after.panes@ == before.panes@.with_state(
                depth,
                before.panes@.state(depth).added(inserted_count(insertions@)),
                insertions@.len(),
            )
            &&& reaction == if before.panes@.has(depth) {
                Reaction::ChangeRows(depth)
            } else {
                Reaction::Nothing
            }
        },
        BrowserEvent::EntriesReplaced { depth, count } => {
            &&& after.only_panes(before)
            &&& after.panes@ == before.panes@.with_state(
                depth,
                before.panes@.state(depth).replaced(count),
                1,
            )
            &&& reaction == if before.panes@.has(depth) {
                Reaction::ChangeRows(depth)
            } else {
                Reaction::Nothing
            }
        },
        BrowserEvent::EntriesPublished { depth, position, count } => {
            &&& after.only_panes(before)
            &&& after.panes@ == before.panes@.with_state(
                depth,
                before.panes@.state(depth).added(count),
                1,
            )
            &&& reaction == if before.panes@.has(depth) {
                Reaction::ChangeRows(depth)
            } else {
                Reaction::Nothing
            }
        },
        BrowserEvent::MetadataFilled { depth, updates } => {
            &&& *after == *before
            &&& reaction == if before.in_columns() && before.panes@.has(depth) && updates@.len()
                > 0 {
                Reaction::FillSizes(depth)
            } else {
                Reaction::Nothing
            }
        },
        BrowserEvent::SortingStarted { depth } => {
            &&& after.only_panes(before)
            &&& after.panes@ == before.panes@.sorted(depth, true)
            &&& reaction is Nothing
        },
        BrowserEvent::SortingFinished { depth } => {
            &&& after.only_panes(before)
            &&& after.panes@ == before.panes@.sorted(depth, false)
            &&& reaction is Nothing
        },
        BrowserEvent::EntriesSpliced { depth, splices, selected } => {
            &&& after.only_panes(before)
            &&& after.panes@ == before.panes@.with_state(
                depth,
                before.panes@.state(depth).spliced(splice_sizes(splices@)),
                splices@.len(),
            )
            &&& reaction == if before.panes@.has(depth) {
                Reaction::SpliceRows {
                    pane: depth,
                    select: if selected is Some {
                        facts.focused_row
                    } else {
                        None
                    },
                }
            } else {
                Reaction::Nothing
            }
        },
        BrowserEvent::ColumnReloaded { depth } => {
            &&& after.only_panes(before)
            &&& after.panes@ == before.panes@.with_state(
                depth,
                before.panes@.state(depth).reloaded(),
                1,
            )
            &&& reaction == if before.panes@.has(depth) {
                Reaction::ClearRows(depth)
            } else {
                Reaction::Nothing
            }
        },
        BrowserEvent::HiddenToggled { show_hidden } => {
            &&& after.only_panes(before)
            &&& after.panes@ == before.panes@.hiding(show_hidden)
            &&& reaction is FilterRows
        },
        BrowserEvent::LoadFinished { depth, truncated } => {
            let selects = facts.active_depth == Some(depth);
            &&& after.settings == before.settings && after.peek == before.peek && after.edits
                == before.edits
            &&& after.panes@ == before.panes@.with_state(
                depth,
                before.panes@.state(depth).loaded(truncated),
                0,
            )
            &&& after.operations@ == if selects {
                OperationsModel {
                    pending_select: Seq::empty(),
                    select_properties: false,
                    ..before.operations@
                }
            } else {
                before.operations@
            }
            &&& if selects && before.operations@.pending_select.len() > 0 {
                reaction matches Reaction::SelectByName { names, properties } && names@
                    == before.operations@.pending_select && properties
                    == before.operations@.select_properties
            } else {
                reaction is Nothing
            }
        },
        BrowserEvent::LoadFailed { depth, message } => {
            &&& after.only_panes(before)
            &&& after.panes@ == before.panes@.failed(depth, message)
            &&& reaction is Nothing
        },
        BrowserEvent::SelectionSetChanged { depth, positions, focused, take_focus } => {
            let settles = !before.edits.is_editing();
            &&& *after == *before
            &&& if before.panes@.has(depth) {
                reaction matches Reaction::SelectRows {
                    column,
                    rows,
                    scroll_to,
                    grab_focus,
                } && column == depth && rows == Some(facts.selected_rows) && scroll_to == (
                if settles && (take_focus || facts.focused_column == Some(depth)) {
                    facts.focused_row
                } else {
                    None
                }) && grab_focus == (settles && take_focus && before.in_columns())
            } else {
                reaction is Nothing
            }
        },
        BrowserEvent::FocusChanged { depth, focus } => {
            let settles = !before.edits.is_editing();
            let row = if focus is Some {
                facts.focused_row
            } else {
                None
            };
            &&& *after == *before
            &&& if before.panes@.has(depth) {
                reaction matches Reaction::SelectRows {
                    column,
                    rows,
                    scroll_to,
                    grab_focus,
                } && column == depth && rows == (if row is Some {
                    Some(facts.selected_rows)
                } else {
                    None
                }) && scroll_to == (if settles {
                    row
                } else {
                    None
                }) && grab_focus == (settles && before.in_columns())
            } else {
                reaction is Nothing
            }
        },
        _ => false,
    }
}

/// How the view answers an event that is about a peek.
pub open spec fn answers_in_peek(
    before: &BrowserView,
    event: BrowserEvent,
    facts: EventFacts,
    after: &BrowserView,
    reaction: Reaction,
) -> bool {
    match event {
        BrowserEvent::PeekStarted { location } => {
            let goes_on = before.peek.anchor is Some && facts.peek_has_room;
            &&& after.only_peek(before)
            &&& reaction == if goes_on {
                Reaction::ShowPeek
            } else {
                Reaction::EndPeek
            }
            &&& after.peek.same_settings(&before.peek)
            &&& after.peek.anchor is None && after.peek.pending_open is None
            &&& !after.peek.pending_close
            &&& after.peek.shown is Some <==> goes_on
            &&& after.peek.shown matches Some(shown) ==> shown.location == location
                && shown.entries@.len() == 0 && shown.page is Loading && shown.spinning
        },
        BrowserEvent::PeekEntriesAdded { entries } => {
            &&& reaction is Nothing
            &&& after.only_peek(before)
            &&& after.peek.same_settings(&before.peek)
            &&& after.peek.anchor == before.peek.anchor && after.peek.pending_open
                == before.peek.pending_open && after.peek.pending_close
                == before.peek.pending_close
            &&& match (before.peek.shown, after.peek.shown) {
                (Some(old_peek), Some(new_peek)) => {
                    &&& new_peek.location == old_peek.location
                    &&& new_peek.spinning == old_peek.spinning
                    &&& new_peek.page == if entries@.len() > 0 {
                        Page::Content
                    } else {
                        old_peek.page
                    }
                    &&& new_peek.entries@ == peeked(
                        old_peek.entries@,
                        entries@,
                        before.peek.item_limit,
                    )
                },
                (None, None) => true,
                _ => false,
            }
        },
        BrowserEvent::PeekFinished => {
            &&& reaction is Nothing
            &&& after.only_peek(before)
            &&& after.peek == (Peek {
                shown: match before.peek.shown {
                    Some(shown) => Some(
                        ShownPeek {
                            spinning: false,
                            page: if shown.entries@.len() == 0 {
                                Page::Empty
                            } else {
                                Page::Content
                            },
                            ..shown
                        },
                    ),
                    None => None,
                },
                ..before.peek
            })
        },
        BrowserEvent::PeekFailed { message } => {
            &&& if before.peek.shown is Some {
                reaction matches Reaction::ShowPeekError(text) && text@
                    == "Unable to read this directory\n"@ + message@
            } else {
                reaction is Nothing
            }
            &&& after.only_peek(before)
            &&& after.peek == (Peek {
                shown: match before.peek.shown {
                    Some(shown) => Some(
                        ShownPeek { spinning: false, page: Page::Failed, ..shown },
                    ),
                    None => None,
                },
                ..before.peek
            })
        },
        BrowserEvent::PeekClosed => {
            &&& reaction is Nothing
            &&& after.only_peek(before)
            &&& after.peek == (Peek {
                pending_open: None,
                pending_close: false,
                shown: None,
                ..before.peek
            })
        },
        _ => false,
    }
}

/// How the view answers an event that is about where it is.
pub open spec fn answers_in_place(
    before: &BrowserView,
    event: BrowserEvent,
    facts: EventFacts,
    after: &BrowserView,
    reaction: Reaction,
) -> bool {
    match event {
        BrowserEvent::Reset => {
            &&& reaction is Nothing
            &&& after.settings == before.settings
            &&& after.operations@ == (OperationsModel { credentials: None, ..before.operations@ })
            &&& after.panes@ == before.panes@.truncated(0)
            &&& after.peek == before.peek.dropped()
            &&& !after.edits.is_editing()
        },
        BrowserEvent::ColumnsTruncated { len } => {
            &&& reaction is ShowActiveLocation
            &&& after.is_truncated(before, len)
        },
        BrowserEvent::ColumnAdded { depth, location } => {
            &&& reaction == (Reaction::ShowLocation {
                place: location,
                opened: before.in_columns(),
            })
            &&& after.only_panes(before)
            &&& after.panes@ == if before.in_columns() {
                before.panes@.appended(
                    Column {
                        location,
                        state: ColumnState::opened(location@, facts.show_hidden),
                        failure: None,
                    },
                )
            } else {
                before.panes@
            }
        },
        BrowserEvent::PreviewRequested => *after == *before && reaction is Nothing,
        BrowserEvent::OpenRequested { location } => {
            &&& *after == *before
            &&& reaction == if before.settings.interactive {
                Reaction::OpenLocation(location)
            } else {
                Reaction::Nothing
            }
        },
        BrowserEvent::NavigationRejected { parent_depth, error } => {
            &&& *after == *before
            &&& match error {
                LocationValidationError::NotMounted(location) => reaction == (Reaction::Mount {
                    parent: Some(parent_depth),
                    target: location,
                    strategy: MountStrategy::EnclosingVolume,
                    credentials: None,
                }),
                LocationValidationError::Mountable(location) => reaction == (Reaction::Mount {
                    parent: Some(parent_depth),
                    target: location,
                    strategy: MountStrategy::Mountable,
                    credentials: None,
                }),
                LocationValidationError::Other(message) => reaction matches Reaction::ShowError {
                    title,
                    detail,
                } && title@ == "Unable to open directory"@ && detail == message,
            }
        },
        BrowserEvent::LocationNavigationRejected { error } => {
            &&& after.only_operations(before)
            &&& after.operations@ == (OperationsModel { credentials: None, ..before.operations@ })
            &&& match error {
                LocationValidationError::NotMounted(location) => reaction == (Reaction::Mount {
                    parent: None,
                    target: location,
                    strategy: MountStrategy::EnclosingVolume,
                    credentials: before.operations@.credentials,
                }),
                LocationValidationError::Mountable(location) => reaction == (Reaction::Mount {
                    parent: None,
                    target: location,
                    strategy: MountStrategy::Mountable,
                    credentials: before.operations@.credentials,
                }),
                LocationValidationError::Other(message) => reaction matches Reaction::ShowError {
                    title,
                    detail,
                } && title@ == "Unable to open location"@ && detail == message,
            }
        },
        BrowserEvent::EmptyTrashRequested => *after == *before && reaction is MeasureTrash,
        _ => false,
    }
}

/// How the view answers an event that is about how far an operation on files has come.
pub open spec fn answers_in_progress(
    before: &BrowserView,
    event: BrowserEvent,
    after: &BrowserView,
    reaction: Reaction,
) -> bool {
    match event {
        BrowserEvent::TransferStarted { total, moving } => {
            &&& after.only_progress(
                before,
                OperationProgress::started(total).after_transfer(0, 0, None),
            )
            &&& reaction == begins(
                if moving {
                    OperationKind::Moving
                } else {
                    OperationKind::Copying
                },
                total,
            )
        },
        BrowserEvent::TransferProgress { completed, transferred_bytes, total_bytes } => {
            &&& after.only_progress(
                before,
                before.operations@.progress.after_transfer(
                    completed,
                    transferred_bytes,
                    total_bytes,
                ),
            )
            &&& reaction is UpdateProgress
        },
        BrowserEvent::TransferFinished { moved_locations } => {
            &&& after.only_progress(before, OperationProgress::ended())
            &&& reaction == if moved_locations@.len() > 0 {
                Reaction::EndTransfer(moved_locations)
            } else {
                Reaction::EndOperation
            }
        },
        BrowserEvent::DeletionStarted { total } => {
            &&& after.only_progress(before, OperationProgress::started(total))
            &&& reaction == begins(OperationKind::Deleting, total)
        },
        BrowserEvent::RestorationStarted { total } => {
            &&& after.only_progress(before, OperationProgress::started(total))
            &&& reaction == begins(OperationKind::Restoring, total)
        },
        BrowserEvent::ArchiveStarted { total } => {
            &&& after.only_progress(before, OperationProgress::started(total))
            &&& reaction == begins(OperationKind::Archiving, total)
        },
        BrowserEvent::DeletionProgress { completed, total }
        | BrowserEvent::RestorationProgress { completed, total } => {
            &&& after.only_progress(
                before,
                before.operations@.progress.after_items(completed, total),
            )
            &&& reaction is UpdateProgress
        },
        BrowserEvent::DeletionFinished | BrowserEvent::RestorationFinished => {
            &&& after.only_progress(before, OperationProgress::ended())
            &&& reaction is EndOperation
        },
        BrowserEvent::ArchiveProgress { completed, total } => {
            &&& after.only_progress(
                before,
                before.operations@.progress.after_archive(completed, total),
            )
            &&& reaction is UpdateProgress
        },
        _ => false,
    }
}

/// How the view answers an event that is about what became of an operation on files.
pub open spec fn answers_in_operation(
    before: &BrowserView,
    event: BrowserEvent,
    after: &BrowserView,
    reaction: Reaction,
) -> bool {
    match event {
        BrowserEvent::RenameCompleted => {
            &&& reaction is FocusListing
            &&& *after == (BrowserView {
                edits: Edits { rename: None, ..before.edits },
                ..*before
            })
        },
        BrowserEvent::RenameFailed { message } => match before.edits.rename {
            Some(rename) => {
                &&& reaction is ShowRenameError
                &&& *after == (BrowserView {
                    edits: Edits {
                        rename: Some(
                            ActiveRename {
                                entry: rename.entry,
                                sensitive: true,
                                error: Some(message),
                            },
                        ),
                        ..before.edits
                    },
                    ..*before
                })
            },
            None => reaction is Nothing && *after == *before,
        },
        BrowserEvent::OperationFailed { message } => {
            let retry = before.operations@.extract_retry;
            &&& after.only_operations(before)
            &&& after.operations@ == (OperationsModel {
                progress: OperationProgress::ended(),
                extract_retry: None,
                ..before.operations@
            })
            &&& if retry is Some && asks_for_password(message@) {
                reaction matches Reaction::AskPassword { archive, destination } && retry == Some(
                    (archive, destination),
                )
            } else {
                reaction matches Reaction::ShowError { title, detail } && title@
                    == "Unable to complete operation"@ && detail == message
            }
        },
        BrowserEvent::OperationCompletedWithErrors {
            message,
            retryable_locations,
            has_non_retryable_failures,
        } => {
            let again = retryable(before.operations@.pending_delete, retryable_locations@);
            &&& after.only_operations(before)
            &&& after.operations@ == (OperationsModel {
                pending_delete: Seq::empty(),
                ..before.operations@
            })
            &&& if again.len() == 0 {
                reaction matches Reaction::ShowError { title, detail } && title@
                    == "Completed with errors"@ && detail == message
            } else if has_non_retryable_failures {
                reaction matches Reaction::OfferPermanentDelete { reason, entries } && reason
                    == message && entries@ == again
            } else {
                reaction matches Reaction::ConfirmDelete(entries) && entries@ == again
            }
        },
        BrowserEvent::OperationCancelled {
            completed,
            failed,
            not_attempted,
            affected_locations,
        } => {
            &&& *after == *before
            &&& reaction matches Reaction::ShowCancelled { told, affected } && told@
                == cancelled_text(completed as nat, failed as nat, not_attempted as nat)
                && affected == affected_locations
        },
        BrowserEvent::ArchiveCompleted { select_name } => {
            &&& after.only_operations(before)
            &&& after.operations@ == (OperationsModel {
                progress: OperationProgress::ended(),
                extract_retry: None,
                pending_select: if select_name@.len() > 0 {
                    before.operations@.pending_select.push(select_name)
                } else {
                    before.operations@.pending_select
                },
                pending_navigate: None,
                ..before.operations@
            })
            &&& reaction == match before.operations@.pending_navigate {
                Some(destination) => Reaction::Navigate(destination),
                None => Reaction::ReloadActive,
            }
        },
        BrowserEvent::TransferCompleted => {
            &&& after.only_operations(before)
            &&& after.operations@ == (OperationsModel {
                pending_navigate: None,
                ..before.operations@
            })
            &&& reaction == match before.operations@.pending_navigate {
                Some(destination) => Reaction::Navigate(destination),
                None => Reaction::Nothing,
            }
        },
        _ => false,
    }
}

/// Whether an event is about the panes.
pub open spec fn is_in_panes(event: BrowserEvent) -> bool {
    event is EntriesInserted || event is EntriesReplaced || event is EntriesPublished
        || event is MetadataFilled || event is SortingStarted || event is SortingFinished
        || event is EntriesSpliced || event is ColumnReloaded || event is HiddenToggled
        || event is LoadFinished || event is LoadFailed || event is SelectionSetChanged
        || event is FocusChanged
}

/// Whether an event is about a peek.
pub open spec fn is_in_peek(event: BrowserEvent) -> bool {
    event is PeekStarted || event is PeekEntriesAdded || event is PeekFinished
        || event is PeekFailed || event is PeekClosed
}

/// Whether an event is about how far an operation on files has come.
pub open spec fn is_in_progress(event: BrowserEvent) -> bool {
    event is TransferStarted || event is TransferProgress || event is TransferFinished
        || event is DeletionStarted || event is DeletionProgress || event is DeletionFinished
        || event is RestorationStarted || event is RestorationProgress
        || event is RestorationFinished || event is ArchiveStarted || event is ArchiveProgress
}

/// Whether an event is about where the view is.
pub open spec fn is_in_place(event: BrowserEvent) -> bool {
    event is Reset || event is ColumnsTruncated || event is ColumnAdded
        || event is PreviewRequested || event is OpenRequested || event is NavigationRejected
        || event is LocationNavigationRejected || event is EmptyTrashRequested
}

/// How the view answers an event.
pub open spec fn answers(
    before: &BrowserView,
    event: BrowserEvent,
    facts: EventFacts,
    after: &BrowserView,
    reaction: Reaction,
) -> bool {
    if is_in_panes(event) {
        answers_in_panes(before, event, facts, after, reaction)
    } else if is_in_peek(event) {
        answers_in_peek(before, event, facts, after, reaction)
    } else if is_in_place(event) {
        answers_in_place(before, event, facts, after, reaction)
    } else if is_in_progress(event) {
        answers_in_progress(before, event, after, reaction)
    } else {
        answers_in_operation(before, event, after, reaction)
    }
}

impl BrowserView {
    fn begin_operation(&mut self, total: usize, kind: OperationKind) -> (result: Reaction)
        ensures
            final(self).only_progress(old(self), OperationProgress::started(total)),
            result == begins(kind, total),
    {
        let at_once: bool = self.operations.progress.begin(total);
        Reaction::ShowProgress { kind, at_once }
    }

    #[verifier::rlimit(40)]
    fn handle_in_panes(&mut self, event: BrowserEvent, facts: EventFacts) -> (result: Reaction)
        requires
            is_in_panes(event),
        ensures
            answers_in_panes(old(self), event, facts, final(self), result),
    {
        let settles: bool = !self.edits.editing();
        let in_columns: bool = self.settings.mode == BrowserMode::Columns;
        match event {
            BrowserEvent::EntriesInserted { depth, insertions } => {
                let is_there: bool = depth < self.panes.columns.len();
                self.panes.entries_inserted(depth, &insertions);
                if is_there {
                    Reaction::ChangeRows(depth)
                } else {
                    Reaction::Nothing
                }
            },
            BrowserEvent::EntriesReplaced { depth, count } => {
                let is_there: bool = depth < self.panes.columns.len();
                self.panes.entries_replaced(depth, count);
                if is_there {
                    Reaction::ChangeRows(depth)
                } else {
                    Reaction::Nothing
                }
            },
            BrowserEvent::EntriesPublished { depth, count, .. } => {
                let is_there: bool = depth < self.panes.columns.len();
                self.panes.entries_published(depth, count);
                if is_there {
                    Reaction::ChangeRows(depth)
                } else {
                    Reaction::Nothing
                }
            },
            BrowserEvent::MetadataFilled { depth, updates } => {
                if in_columns && depth < self.panes.columns.len() && updates.len() > 0 {
                    Reaction::FillSizes(depth)
                } else {
                    Reaction::Nothing
                }
            },
            BrowserEvent::SortingStarted { depth } => {
                self.panes.sorting_started(depth);
                Reaction::Nothing
            },
            BrowserEvent::SortingFinished { depth } => {
                self.panes.sorting_finished(depth);
                Reaction::Nothing
            },
            BrowserEvent::EntriesSpliced { depth, splices, selected } => {
                let is_there: bool = depth < self.panes.columns.len();
                self.panes.entries_spliced(depth, &splices);
                if is_there {
                    Reaction::SpliceRows {
                        pane: depth,
                        select: if selected.is_some() {
                            facts.focused_row
                        } else {
                            None
                        },
                    }
                } else {
                    Reaction::Nothing
                }
            },
            BrowserEvent::ColumnReloaded { depth } => {
                let is_there: bool = depth < self.panes.columns.len();
                self.panes.column_reloaded(depth);
                if is_there {
                    Reaction::ClearRows(depth)
                } else {
                    Reaction::Nothing
                }
            },
            BrowserEvent::HiddenToggled { show_hidden } => {
                self.panes.hidden_toggled(show_hidden);
                Reaction::FilterRows
            },
            BrowserEvent::LoadFinished { depth, truncated } => {
                self.panes.load_finished(depth, truncated);
                let selects: bool = match facts.active_depth {
                    Some(active) => active == depth,
                    None => false,
                };
                if !selects {
                    return Reaction::Nothing;
                }
                let mut names: Vec<String> = Vec::new();
                std::mem::swap(&mut names, &mut self.operations.pending_select);
                let properties: bool = self.operations.select_properties;
                self.operations.select_properties = false;
                assert(self.operations@.pending_select =~= Seq::empty());
                if names.len() > 0 {
                    Reaction::SelectByName { names, properties }
                } else {
                    Reaction::Nothing
                }
            },
            BrowserEvent::LoadFailed { depth, message } => {
                self.panes.load_failed(depth, message);
                Reaction::Nothing
            },
            BrowserEvent::SelectionSetChanged { depth, take_focus, .. } => {
                if depth >= self.panes.columns.len() {
                    return Reaction::Nothing;
                }
                let is_focused: bool = match facts.focused_column {
                    Some(column) => column == depth,
                    None => false,
                };
                Reaction::SelectRows {
                    column: depth,
                    rows: Some(facts.selected_rows),
                    scroll_to: if settles && (take_focus || is_focused) {
                        facts.focused_row
                    } else {
                        None
                    },
                    grab_focus: settles && take_focus && in_columns,
                }
            },
            BrowserEvent::FocusChanged { depth, focus } => {
                if depth >= self.panes.columns.len() {
                    return Reaction::Nothing;
                }
                let row: Option<u32> = if focus.is_some() {
                    facts.focused_row
                } else {
                    None
                };
                Reaction::SelectRows {
                    column: depth,
                    rows: if row.is_some() {
                        Some(facts.selected_rows)
                    } else {
                        None
                    },
                    scroll_to: if settles {
                        row
                    } else {
                        None
                    },
                    grab_focus: settles && in_columns,
                }
            },
            _ => Reaction::Nothing,
        }
    }

    #[verifier::rlimit(40)]
    fn handle_in_peek(&mut self, event: BrowserEvent, facts: EventFacts) -> (result: Reaction)
        requires
            is_in_peek(event),
            old(self).well_formed(),
        ensures
            final(self).well_formed(),
            answers_in_peek(old(self), event, facts, final(self), result),
    {
        match event {
            BrowserEvent::PeekStarted { location } => {
                if self.peek.append(location, facts.peek_has_room) {
                    Reaction::ShowPeek
                } else {
                    Reaction::EndPeek
                }
            },
            BrowserEvent::PeekEntriesAdded { entries } => {
                self.peek.entries_added(entries);
                Reaction::Nothing
            },
            BrowserEvent::PeekFinished => {
                self.peek.finished();
                Reaction::Nothing
            },
            BrowserEvent::PeekFailed { message } => {
                self.peek.failed();
                if self.peek.shown.is_some() {
                    Reaction::ShowPeekError(
                        concat_text("Unable to read this directory\n", message.as_str()),
                    )
                } else {
                    Reaction::Nothing
                }
            },
            BrowserEvent::PeekClosed => {
                self.peek.close_visual();
                Reaction::Nothing
            },
            _ => Reaction::Nothing,
        }
    }

    #[verifier::rlimit(40)]
    fn handle_in_place(&mut self, event: BrowserEvent, facts: EventFacts) -> (result: Reaction)
        requires
            is_in_place(event),
            old(self).well_formed(),
        ensures
            final(self).well_formed(),
            answers_in_place(old(self), event, facts, final(self), result),
    {
        match event {
            BrowserEvent::Reset => {
                self.operations.credentials = None;
                self.truncate(0);
                Reaction::Nothing
            },
            BrowserEvent::ColumnsTruncated { len } => {
                self.truncate(len);
                Reaction::ShowActiveLocation
            },
            BrowserEvent::ColumnAdded { location, .. } => {
                let opened: bool = self.settings.mode == BrowserMode::Columns;
                if opened {
                    self.panes.append_column(location.duplicate(), facts.show_hidden);
                }
                Reaction::ShowLocation { place: location, opened }
            },
            BrowserEvent::OpenRequested { location } => {
                if self.settings.interactive {
                    Reaction::OpenLocation(location)
                } else {
                    Reaction::Nothing
                }
            },
            BrowserEvent::NavigationRejected { parent_depth, error } => {
                match rejected_navigation(error) {
                    OpeningStep::Mount { location, strategy, credentials } => Reaction::Mount {
                        parent: Some(parent_depth),
                        target: location,
                        strategy,
                        credentials,
                    },
                    OpeningStep::Reject(message) => Reaction::ShowError {
                        title: "Unable to open directory",
                        detail: message,
                    },
                    OpeningStep::Opened => Reaction::Nothing,
                }
            },
            BrowserEvent::LocationNavigationRejected { error } => {
                let given: Option<MountCredentials> = self.operations.credentials.take();
                match error {
                    LocationValidationError::NotMounted(location) => Reaction::Mount {
                        parent: None,
                        target: location,
                        strategy: MountStrategy::EnclosingVolume,
                        credentials: given,
                    },
                    LocationValidationError::Mountable(location) => Reaction::Mount {
                        parent: None,
                        target: location,
                        strategy: MountStrategy::Mountable,
                        credentials: given,
                    },
                    LocationValidationError::Other(message) => Reaction::ShowError {
                        title: "Unable to open location",
                        detail: message,
                    },
                }
            },
            BrowserEvent::EmptyTrashRequested => Reaction::MeasureTrash,
            _ => Reaction::Nothing,
        }
    }

    #[verifier::rlimit(40)]
    fn handle_in_progress(&mut self, event: BrowserEvent) -> (result: Reaction)
        requires
            is_in_progress(event),
        ensures
            final(self).peek == old(self).peek,
            answers_in_progress(old(self), event, final(self), result),
    {
        match event {
            BrowserEvent::TransferStarted { total, moving } => {
                let reaction: Reaction = self.begin_operation(
                    total,
                    if moving {
                        OperationKind::Moving
                    } else {
                        OperationKind::Copying
                    },
                );
                self.operations.progress.update_transfer(0, 0, None);
                reaction
            },
            BrowserEvent::TransferProgress { completed, transferred_bytes, total_bytes } => {
                self.operations.progress.update_transfer(completed, transferred_bytes, total_bytes);
                Reaction::UpdateProgress
            },
            BrowserEvent::TransferFinished { moved_locations } => {
                self.operations.progress.dismiss();
                if moved_locations.len() > 0 {
                    Reaction::EndTransfer(moved_locations)
                } else {
                    Reaction::EndOperation
                }
            },
            BrowserEvent::DeletionStarted { total } => self.begin_operation(
                total,
                OperationKind::Deleting,
            ),
            BrowserEvent::RestorationStarted { total } => self.begin_operation(
                total,
                OperationKind::Restoring,
            ),
            BrowserEvent::ArchiveStarted { total } => self.begin_operation(
                total,
                OperationKind::Archiving,
            ),
            BrowserEvent::DeletionProgress { completed, total } => {
                self.operations.progress.update_items(completed, total);
                Reaction::UpdateProgress
            },
            BrowserEvent::RestorationProgress { completed, total } => {
                self.operations.progress.update_items(completed, total);
                Reaction::UpdateProgress
            },
            BrowserEvent::DeletionFinished => {
                self.operations.progress.dismiss();
                Reaction::EndOperation
            },
            BrowserEvent::RestorationFinished => {
                self.operations.progress.dismiss();
                Reaction::EndOperation
            },
            BrowserEvent::ArchiveProgress { completed, total } => {
                self.operations.progress.update_archive(completed, total);
                Reaction::UpdateProgress
            },
            _ => Reaction::Nothing,
        }
    }

    #[verifier::rlimit(40)]
    fn handle_in_operation(&mut self, event: BrowserEvent) -> (result: Reaction)
        requires
            !is_in_panes(event),
            !is_in_peek(event),
            !is_in_place(event),
            !is_in_progress(event),
        ensures
            final(self).peek == old(self).peek,
            answers_in_operation(old(self), event, final(self), result),
    {
        match event {
            BrowserEvent::RenameCompleted => {
                self.cancel_rename(false);
                Reaction::FocusListing
            },
            BrowserEvent::RenameFailed { message } => {
                match self.edits.rename.take() {
                    Some(rename) => {
                        self.edits.rename = Some(
                            ActiveRename {
                                entry: rename.entry,
                                sensitive: true,
                                error: Some(message),
                            },
                        );
                        Reaction::ShowRenameError
                    },
                    None => Reaction::Nothing,
                }
            },
            BrowserEvent::OperationFailed { message } => {
                self.operations.progress.dismiss();
                match self.operations.extract_retry.take() {
                    Some((archive, destination)) => {
                        if needs_password(message.as_str()) {
                            return Reaction::AskPassword { archive, destination };
                        }
                    },
                    None => {},
                }
                Reaction::ShowError { title: "Unable to complete operation", detail: message }
            },
            BrowserEvent::OperationCompletedWithErrors {
                message,
                retryable_locations,
                has_non_retryable_failures,
            } => {
                let mut pending: Vec<FileEntry> = Vec::new();
                std::mem::swap(&mut pending, &mut self.operations.pending_delete);
                assert(self.operations@.pending_delete =~= Seq::empty());
                let entries: Vec<FileEntry> = retryable_delete_entries(
                    &pending,
                    &retryable_locations,
                );
                if entries.len() == 0 {
                    Reaction::ShowError { title: "Completed with errors", detail: message }
                } else if has_non_retryable_failures {
                    Reaction::OfferPermanentDelete { reason: message, entries }
                } else {
                    Reaction::ConfirmDelete(entries)
                }
            },
            BrowserEvent::OperationCancelled {
                completed,
                failed,
                not_attempted,
                affected_locations,
            } => Reaction::ShowCancelled {
                told: cancelled_message(completed, failed, not_attempted),
                affected: affected_locations,
            },
            BrowserEvent::ArchiveCompleted { select_name } => {
                self.operations.progress.dismiss();
                self.operations.extract_retry = None;
                if !select_name.as_str().is_empty() {
                    self.operations.pending_select.push(select_name);
                }
                match self.operations.pending_navigate.take() {
                    Some(destination) => Reaction::Navigate(destination),
                    None => Reaction::ReloadActive,
                }
            },
            BrowserEvent::TransferCompleted => {
                match self.operations.pending_navigate.take() {
                    Some(destination) => Reaction::Navigate(destination),
                    None => Reaction::Nothing,
                }
            },
            _ => Reaction::Nothing,
        }
    }

    /// Takes an event of the listing behind the view.
    pub fn handle(&mut self, event: BrowserEvent, facts: EventFacts) -> (result: Handled)
        requires
            old(self).well_formed(),
        ensures
            final(self).well_formed(),
            answers(old(self), event, facts, final(self), result.reaction),
            result.refreshes_path == changes_path(event),
            result.forwarded == (result.reaction !is AskPassword),
    {
        let refreshes_path: bool = event_refreshes_active_path(&event);
        let reaction: Reaction = match event {
            BrowserEvent::EntriesInserted { .. }
            | BrowserEvent::EntriesReplaced { .. }
            | BrowserEvent::EntriesPublished { .. }
            | BrowserEvent::MetadataFilled { .. }
            | BrowserEvent::SortingStarted { .. }
            | BrowserEvent::SortingFinished { .. }
            | BrowserEvent::EntriesSpliced { .. }
            | BrowserEvent::ColumnReloaded { .. }
            | BrowserEvent::HiddenToggled { .. }
            | BrowserEvent::LoadFinished { .. }
            | BrowserEvent::LoadFailed { .. }
            | BrowserEvent::SelectionSetChanged { .. }
            | BrowserEvent::FocusChanged { .. } => self.handle_in_panes(event, facts),
            BrowserEvent::PeekStarted { .. }
            | BrowserEvent::PeekEntriesAdded { .. }
            | BrowserEvent::PeekFinished
            | BrowserEvent::PeekFailed { .. }
            | BrowserEvent::PeekClosed => self.handle_in_peek(event, facts),
            BrowserEvent::Reset
            | BrowserEvent::ColumnsTruncated { .. }
            | BrowserEvent::ColumnAdded { .. }
            | BrowserEvent::PreviewRequested
            | BrowserEvent::OpenRequested { .. }
            | BrowserEvent::NavigationRejected { .. }
            | BrowserEvent::LocationNavigationRejected { .. }
            | BrowserEvent::EmptyTrashRequested => self.handle_in_place(event, facts),
            BrowserEvent::TransferStarted { .. }
            | BrowserEvent::TransferProgress { .. }
            | BrowserEvent::TransferFinished { .. }
            | BrowserEvent::DeletionStarted { .. }
            | BrowserEvent::DeletionProgress { .. }
            | BrowserEvent::DeletionFinished
            | BrowserEvent::RestorationStarted { .. }
            | BrowserEvent::RestorationProgress { .. }
            | BrowserEvent::RestorationFinished
            | BrowserEvent::ArchiveStarted { .. }
            | BrowserEvent::ArchiveProgress { .. } => self.handle_in_progress(event),
            _ => self.handle_in_operation(event),
        };
        let forwarded: bool = match &reaction {
            Reaction::AskPassword { .. } => false,
            _ => true,
        };
        Handled { reaction, refreshes_path, forwarded }
    }
}

/// A listing that comes in the background never takes the focus from a name that is being edited.
pub proof fn law_editing_keeps_the_focus(
    before: BrowserView,
    event: BrowserEvent,
    facts: EventFacts,
    after: BrowserView,
    reaction: Reaction,
)
    requires
        answers(&before, event, facts, &after, reaction),
        before.edits.is_editing(),
        is_in_panes(event),
    ensures
        after.edits == before.edits,
        reaction matches Reaction::SelectRows { scroll_to, grab_focus, .. } ==> scroll_to is None
            && !grab_focus,
{
}

/// An operation that came to its end or failed takes its progress away, so that none is left on the
/// screen, even where its delay passes afterwards.
pub proof fn law_operations_end(
    before: BrowserView,
    event: BrowserEvent,
    facts: EventFacts,
    after: BrowserView,
    reaction: Reaction,
)
    requires
        answers(&before, event, facts, &after, reaction),
        event is TransferFinished || event is DeletionFinished || event is RestorationFinished
            || event is OperationFailed || event is ArchiveCompleted,
    ensures
        after.operations@.progress.shown is Nothing,
        after.operations@.progress.after_delay().shown is Nothing,
{
}

/// Credentials that were typed are used for one location at most.
pub proof fn law_credentials_are_used_once(
    before: BrowserView,
    event: BrowserEvent,
    facts: EventFacts,
    after: BrowserView,
    reaction: Reaction,
)
    requires
        answers(&before, event, facts, &after, reaction),
        event is Reset || event is LocationNavigationRejected,
    ensures
        after.operations@.credentials is None,
{
}

/// The marks of the way are drawn anew where the panes, what they hold, or what is selected changes.
pub proof fn law_marks_follow_the_panes(event: BrowserEvent)
    ensures
        event is Reset || event is ColumnAdded || event is ColumnsTruncated || event is FocusChanged
            || event is SelectionSetChanged || event is EntriesInserted || event
            is EntriesPublished || event is EntriesSpliced || event is EntriesReplaced
            <==> changes_path(event),
        is_in_peek(event) || is_in_progress(event) ==> !changes_path(event),
{
}

/// A failure asks for a password where its words, in lowercase, speak of one or of encryption.
pub proof fn law_passwords_are_asked_for_by_the_words(message: Seq<char>)
    ensures
        asks_for_password(message) <==> exists|before: Seq<char>, word: Seq<char>, after: Seq<char>|
            lowercase(message) == #[trigger] ((before + word) + after) && (word == "password"@ || word
                == "encrypt"@),
{
    crate::text::law_part_stands_between(lowercase(message), "password"@);
    crate::text::law_part_stands_between(lowercase(message), "encrypt"@);
}

/// A cancelled operation tells how much was done, failed and was left, in this order.
pub proof fn law_cancelled_operations_tell_what_was_done(
    completed: nat,
    failed: nat,
    not_attempted: nat,
)
    ensures
        cancelled_text(completed, failed, not_attempted) == items_label(completed)
            + " completed, "@ + items_label(failed) + " failed, and "@ + items_label(not_attempted)
            + " not attempted."@ + "\n\n"@ + "Completed changes were not reverted."@,
{
    reveal_strlit(" not attempted.\n\nCompleted changes were not reverted.");
    reveal_strlit(" not attempted.");
    reveal_strlit("\n\n");
    reveal_strlit("Completed changes were not reverted.");
    assert(" not attempted.\n\nCompleted changes were not reverted."@ =~= " not attempted."@
        + "\n\n"@ + "Completed changes were not reverted."@);
    assert(cancelled_text(completed, failed, not_attempted) =~= items_label(completed)
        + " completed, "@ + items_label(failed) + " failed, and "@ + items_label(not_attempted)
        + " not attempted."@ + "\n\n"@ + "Completed changes were not reverted."@);
}

/// The entries that can be tried again are those at the places told, in their order, found one by one.
pub proof fn law_entries_are_tried_again_by_place(
    left: Seq<FileEntry>,
    right: Seq<FileEntry>,
    entry: FileEntry,
    locations: Seq<Location>,
)
    ensures
        retryable(left + right, locations) == retryable(left, locations) + retryable(
            right,
            locations,
        ),
        retryable(seq![entry], locations) == if exists|j: int|
            0 <= j < locations.len() && (#[trigger] locations[j])@.place()
                == entry.location@.place() {
            seq![entry]
        } else {
            Seq::empty()
        },
{
    let tried = |entry: FileEntry| places(locations).contains(entry.location@.place());
    Seq::filter_distributes_over_add(left, right, tried);
    reveal_with_fuel(Seq::filter, 2);
    assert(seq![entry].drop_last() =~= Seq::<FileEntry>::empty());
    if exists|j: int|
        0 <= j < locations.len() && (#[trigger] locations[j])@.place() == entry.location@.place() {
        let j = choose|j: int|
            0 <= j < locations.len() && (#[trigger] locations[j])@.place()
                == entry.location@.place();
        assert(places(locations)[j] == entry.location@.place());
        assert(tried(entry));
        assert(retryable(seq![entry], locations) =~= seq![entry]);
    } else {
        assert forall|j: int| 0 <= j < places(locations).len() implies places(locations)[j]
            != entry.location@.place() by {
            assert(locations[j]@.place() != entry.location@.place());
        }
        assert(!tried(entry));
        assert(retryable(seq![entry], locations) =~= Seq::empty());
    }
}

/// An operation that begins shows its progress at once for many items or an unknown number, and
/// otherwise after a while.
pub proof fn law_operations_begin_with_their_progress(kind: OperationKind, total: usize)
    ensures
        begins(kind, total) == (Reaction::ShowProgress { kind, at_once: total == 0 || total >= 16 }),
{
}

/// Entries that come, go or are replaced are counted in their pane and in no other, which changes its
/// rows. Nothing else of the view changes, and without the pane nothing at all.
pub proof fn law_entries_change_their_pane_only(
    before: BrowserView,
    event: BrowserEvent,
    facts: EventFacts,
    after: BrowserView,
    reaction: Reaction,
    depth: usize,
    other: int,
)
    requires
        answers(&before, event, facts, &after, reaction),
        (event matches BrowserEvent::EntriesInserted { depth: at, .. } && at == depth) || (
        event matches BrowserEvent::EntriesReplaced { depth: at, .. } && at == depth) || (
        event matches BrowserEvent::EntriesPublished { depth: at, .. } && at == depth) || (
        event matches BrowserEvent::EntriesSpliced { depth: at, .. } && at == depth) || (
        event matches BrowserEvent::ColumnReloaded { depth: at } && at == depth),
    ensures
        after.settings == before.settings && after.peek == before.peek && after.edits
            == before.edits && after.operations == before.operations,
        after.panes.columns@.len() == before.panes.columns@.len(),
        0 <= other < before.panes.columns@.len() && other != depth ==> after.panes.columns@[other]
            == before.panes.columns@[other],
        depth >= before.panes.columns@.len() ==> reaction is Nothing && after.panes@
            == before.panes@,
        depth < before.panes.columns@.len() ==> {
            let counted = before.panes.columns@[depth as int].state.entry_count;
            let now = after.panes.columns@[depth as int].state.entry_count;
            &&& event matches BrowserEvent::EntriesPublished { count, .. } ==> now == if counted
                + count > usize::MAX {
                usize::MAX as int
            } else {
                counted + count
            } && reaction == Reaction::ChangeRows(depth)
            &&& event matches BrowserEvent::EntriesInserted { insertions, .. } ==> now == if counted
                + inserted_count(insertions@) > usize::MAX {
                usize::MAX as int
            } else {
                counted + inserted_count(insertions@)
            } && reaction == Reaction::ChangeRows(depth)
            &&& event matches BrowserEvent::EntriesReplaced { count, .. } ==> now == count
                && reaction == Reaction::ChangeRows(depth)
            &&& event matches BrowserEvent::EntriesSpliced { splices, selected, .. } ==> now
                == crate::columns::spliced_count(counted, splice_sizes(splices@)) && reaction == (
            Reaction::SpliceRows {
                pane: depth,
                select: if selected is None {
                    None
                } else {
                    facts.focused_row
                },
            })
            &&& event is ColumnReloaded ==> now == 0 && reaction == Reaction::ClearRows(depth)
        },
{
}

/// A folder that was read shows so in its pane. Where it is the active one, what waited to be selected
/// is selected by name, once; a folder that could not be read tells why in its pane.
pub proof fn law_read_folders_select_what_waited(
    before: BrowserView,
    event: BrowserEvent,
    facts: EventFacts,
    after: BrowserView,
    reaction: Reaction,
    depth: usize,
)
    requires
        answers(&before, event, facts, &after, reaction),
        depth < before.panes.columns@.len(),
    ensures
        event matches BrowserEvent::LoadFinished { depth: at, truncated } ==> at == depth ==> {
            let column = after.panes.columns@[depth as int];
            &&& column.location == before.panes.columns@[depth as int].location
            &&& !column.state.busy && column.state.truncated == truncated
                && !column.state.spinner.spinning
            &&& facts.active_depth == Some(depth) ==> after.operations.pending_select@.len() == 0
                && !after.operations.select_properties
            &&& facts.active_depth != Some(depth) ==> after.operations@ == before.operations@
            &&& facts.active_depth == Some(depth) && before.operations.pending_select@.len() > 0
                ==> (reaction matches Reaction::SelectByName { names, properties } && names@
                == before.operations.pending_select@ && properties
                == before.operations.select_properties)
            &&& !(facts.active_depth == Some(depth) && before.operations.pending_select@.len() > 0)
                ==> reaction is Nothing
            &&& after.operations.progress == before.operations.progress
                && after.operations.pending_delete@ == before.operations.pending_delete@
                && after.operations.pending_navigate == before.operations.pending_navigate
        },
        event matches BrowserEvent::LoadFailed { depth: at, message } ==> at == depth ==> {
            let column = after.panes.columns@[depth as int];
            &&& column.failure == Some(message) && column.state.page is Failed
            &&& column.location == before.panes.columns@[depth as int].location
            &&& reaction is Nothing && after.operations == before.operations
        },
        event matches BrowserEvent::HiddenToggled { show_hidden } ==> reaction is FilterRows
            && after.panes.columns@[depth as int].state.show_hidden == show_hidden,
        event matches BrowserEvent::SortingStarted { depth: at } ==> at == depth
            ==> after.panes.columns@[depth as int].state.busy && after.panes.waiting,
        event matches BrowserEvent::SortingFinished { depth: at } ==> at == depth
            ==> !after.panes.columns@[depth as int].state.busy && !after.panes.waiting,
        event is MetadataFilled ==> after == before,
        event matches BrowserEvent::MetadataFilled { depth: at, updates } ==> at == depth
            ==> reaction == if before.settings.mode is Columns && updates@.len() > 0 {
            Reaction::FillSizes(depth)
        } else {
            Reaction::Nothing
        },
{
}

/// What is selected elsewhere is selected in the rows of its pane. The list scrolls to the row with the
/// focus and takes the focus itself only where it is meant to, and while nothing is being named.
pub proof fn law_selections_reach_their_pane(
    before: BrowserView,
    event: BrowserEvent,
    facts: EventFacts,
    after: BrowserView,
    reaction: Reaction,
)
    requires
        answers(&before, event, facts, &after, reaction),
        event is SelectionSetChanged || event is FocusChanged,
    ensures
        after == before,
        event matches BrowserEvent::SelectionSetChanged { depth, positions, focused, take_focus } ==> {
            let naming = before.edits.rename is Some || before.edits.new_entry is Some;
            &&& depth >= before.panes.columns@.len() ==> reaction is Nothing
            &&& depth < before.panes.columns@.len() ==> reaction == (Reaction::SelectRows {
                column: depth,
                rows: Some(facts.selected_rows),
                scroll_to: if !naming && (take_focus || facts.focused_column == Some(depth)) {
                    facts.focused_row
                } else {
                    None
                },
                grab_focus: !naming && take_focus && before.settings.mode is Columns,
            })
        },
        event matches BrowserEvent::FocusChanged { depth, focus } ==> {
            let naming = before.edits.rename is Some || before.edits.new_entry is Some;
            &&& depth >= before.panes.columns@.len() ==> reaction is Nothing
            &&& depth < before.panes.columns@.len() ==> (reaction matches Reaction::SelectRows {
                column,
                rows,
                scroll_to,
                grab_focus,
            } && column == depth && grab_focus == (!naming && before.settings.mode is Columns)
                && rows == (if focus is Some && facts.focused_row is Some {
                Some(facts.selected_rows)
            } else {
                None
            }) && scroll_to == (if focus is Some && !naming {
                facts.focused_row
            } else {
                None
            }))
        },
{
}

/// A peek opens where it was waited for and has room, empty and loading, fills with what comes as far
/// as it fits, and tells how its folder was read. It touches nothing else of the view.
pub proof fn law_peeks_open_fill_and_close(
    before: BrowserView,
    event: BrowserEvent,
    facts: EventFacts,
    after: BrowserView,
    reaction: Reaction,
)
    requires
        answers(&before, event, facts, &after, reaction),
        event is PeekStarted || event is PeekEntriesAdded || event is PeekFinished || event
            is PeekFailed || event is PeekClosed,
    ensures
        after.settings == before.settings && after.panes == before.panes && after.edits
            == before.edits && after.operations == before.operations,
        after.peek.enabled == before.peek.enabled && after.peek.item_limit == before.peek.item_limit,
        event matches BrowserEvent::PeekStarted { location } ==> {
            let opens = before.peek.anchor is Some && facts.peek_has_room;
            &&& opens ==> reaction is ShowPeek && after.peek.shown is Some
                && after.peek.shown->0.location == location && after.peek.shown->0.entries@.len()
                == 0 && after.peek.shown->0.page is Loading && after.peek.shown->0.spinning
            &&& !opens ==> reaction is EndPeek && after.peek.shown is None
            &&& after.peek.anchor is None && after.peek.pending_open is None
                && !after.peek.pending_close
        },
        event matches BrowserEvent::PeekEntriesAdded { entries } ==> {
            &&& reaction is Nothing
            &&& before.peek.shown is None <==> after.peek.shown is None
            &&& before.peek.shown is Some ==> {
                &&& after.peek.shown->0.entries@ == peeked(
                    before.peek.shown->0.entries@,
                    entries@,
                    before.peek.item_limit,
                )
                &&& after.peek.shown->0.location == before.peek.shown->0.location
                &&& entries@.len() > 0 ==> after.peek.shown->0.page is Content
                &&& entries@.len() == 0 ==> after.peek.shown->0.page == before.peek.shown->0.page
                &&& after.peek.shown->0.spinning == before.peek.shown->0.spinning
            }
        },
        event is PeekFinished && before.peek.shown is Some ==> after.peek.shown is Some
            && !after.peek.shown->0.spinning && after.peek.shown->0.entries
            == before.peek.shown->0.entries && (after.peek.shown->0.page is Empty
            <==> before.peek.shown->0.entries@.len() == 0) && (after.peek.shown->0.page is Content
            <==> before.peek.shown->0.entries@.len() > 0) && reaction is Nothing,
        event matches BrowserEvent::PeekFailed { message } ==> before.peek.shown is Some
            ==> after.peek.shown is Some && !after.peek.shown->0.spinning
            && after.peek.shown->0.page is Failed && (reaction matches Reaction::ShowPeekError(text)
            && text@ == "Unable to read this directory\n"@ + message@),
        event is PeekFinished || event is PeekFailed ==> (before.peek.shown is None
            ==> after.peek.shown is None && reaction is Nothing) && after.peek.anchor
            == before.peek.anchor && after.peek.pending_open == before.peek.pending_open,
        event is PeekClosed ==> after.peek.shown is None && after.peek.pending_open is None
            && !after.peek.pending_close && after.peek.anchor == before.peek.anchor && reaction
            is Nothing,
{
}

/// Starting anew closes all panes and forgets credentials; a pane that is added comes last, loading,
/// where panes are shown. What is opened or has to be mounted is handed on as it is told.
pub proof fn law_navigation_opens_and_closes_panes(
    before: BrowserView,
    event: BrowserEvent,
    facts: EventFacts,
    after: BrowserView,
    reaction: Reaction,
)
    requires
        answers(&before, event, facts, &after, reaction),
    ensures
        event is Reset ==> after.panes.columns@.len() == 0 && after.operations.credentials is None
            && after.peek.shown is None && after.edits.rename is None && after.edits.new_entry
            is None && reaction is Nothing && after.settings == before.settings
            && after.operations.progress == before.operations.progress
            && after.operations.pending_select@ == before.operations.pending_select@,
        event matches BrowserEvent::ColumnsTruncated { len } ==> reaction is ShowActiveLocation
            && after.panes.columns@.len() <= len && after.operations == before.operations,
        event matches BrowserEvent::ColumnAdded { depth, location } ==> reaction == (
        Reaction::ShowLocation { place: location, opened: before.settings.mode is Columns }),
        event matches BrowserEvent::ColumnAdded { depth, location } ==> before.settings.mode
            is Columns ==> {
            let columns = after.panes.columns@;
            &&& columns.len() == before.panes.columns@.len() + 1
            &&& columns.drop_last() == before.panes.columns@
            &&& columns.last().location == location && columns.last().failure is None
            &&& columns.last().state.page is Loading && columns.last().state.entry_count == 0
                && columns.last().state.show_hidden == facts.show_hidden
        },
        event is ColumnAdded && !(before.settings.mode is Columns) ==> after.panes@
            == before.panes@,
        event is ColumnAdded ==> after.operations == before.operations && after.edits
            == before.edits && after.peek == before.peek && after.settings == before.settings,
        event is PreviewRequested ==> after == before && reaction is Nothing,
        event matches BrowserEvent::OpenRequested { location } ==> after == before && reaction
            == if before.settings.interactive {
            Reaction::OpenLocation(location)
        } else {
            Reaction::Nothing
        },
        event is EmptyTrashRequested ==> after == before && reaction is MeasureTrash,
{
    if let BrowserEvent::ColumnAdded { depth, location } = event {
        if before.settings.mode is Columns {
            assert(after.panes.columns@.drop_last() =~= before.panes.columns@);
        }
    }
}

/// A place that has to be mounted before it is entered is, from the pane it was asked for or from none,
/// in the way its error tells; credentials that were typed along go with a location that was typed,
/// once. Any other error is told.
pub proof fn law_unreachable_places_are_mounted_or_told(
    before: BrowserView,
    event: BrowserEvent,
    facts: EventFacts,
    after: BrowserView,
    reaction: Reaction,
)
    requires
        answers(&before, event, facts, &after, reaction),
    ensures
        event matches BrowserEvent::NavigationRejected { parent_depth, error } ==> after == before
            && match error {
            LocationValidationError::NotMounted(location) => reaction == (Reaction::Mount {
                parent: Some(parent_depth),
                target: location,
                strategy: MountStrategy::EnclosingVolume,
                credentials: None,
            }),
            LocationValidationError::Mountable(location) => reaction == (Reaction::Mount {
                parent: Some(parent_depth),
                target: location,
                strategy: MountStrategy::Mountable,
                credentials: None,
            }),
            LocationValidationError::Other(message) => reaction is ShowError && reaction->title@
                == "Unable to open directory"@ && reaction->detail == message,
        },
        event matches BrowserEvent::LocationNavigationRejected { error } ==> after.settings
            == before.settings && after.panes == before.panes && match error {
            LocationValidationError::NotMounted(location) => reaction == (Reaction::Mount {
                parent: None,
                target: location,
                strategy: MountStrategy::EnclosingVolume,
                credentials: before.operations.credentials,
            }),
            LocationValidationError::Mountable(location) => reaction == (Reaction::Mount {
                parent: None,
                target: location,
                strategy: MountStrategy::Mountable,
                credentials: before.operations.credentials,
            }),
            LocationValidationError::Other(message) => reaction is ShowError && reaction->title@
                == "Unable to open location"@ && reaction->detail == message,
        },
{
}

/// The progress of an operation is told as it goes on: bytes and items of a transfer, items of anything
/// else. It appears with the operation, and nothing but the progress changes.
pub proof fn law_progress_is_told_as_it_goes_on(
    before: BrowserView,
    event: BrowserEvent,
    facts: EventFacts,
    after: BrowserView,
    reaction: Reaction,
)
    requires
        answers(&before, event, facts, &after, reaction),
        is_in_progress(event),
    ensures
        after.settings == before.settings && after.panes == before.panes && after.peek
            == before.peek && after.edits == before.edits,
        after.operations@ == (OperationsModel {
            progress: after.operations.progress,
            ..before.operations@
        }),
        event matches BrowserEvent::TransferStarted { total, moving } ==> reaction == (
        Reaction::ShowProgress {
            kind: if moving {
                OperationKind::Moving
            } else {
                OperationKind::Copying
            },
            at_once: total == 0 || total >= 16,
        }) && after.operations.progress.total == total && after.operations.progress.transfer == Some(
            (0usize, 0u64, None::<u64>),
        ),
        event matches BrowserEvent::DeletionStarted { total } ==> reaction == (
        Reaction::ShowProgress { kind: OperationKind::Deleting, at_once: total == 0 || total >= 16 })
            && after.operations.progress == OperationProgress::started(total),
        event matches BrowserEvent::RestorationStarted { total } ==> reaction == (
        Reaction::ShowProgress { kind: OperationKind::Restoring, at_once: total == 0 || total >= 16 })
            && after.operations.progress == OperationProgress::started(total),
        event matches BrowserEvent::ArchiveStarted { total } ==> reaction == (
        Reaction::ShowProgress { kind: OperationKind::Archiving, at_once: total == 0 || total >= 16 })
            && after.operations.progress == OperationProgress::started(total),
        event matches BrowserEvent::TransferProgress { completed, transferred_bytes, total_bytes }
            ==> reaction is UpdateProgress && after.operations.progress.transfer == Some(
            (completed, transferred_bytes, total_bytes),
        ) && after.operations.progress.total == before.operations.progress.total,
        event matches BrowserEvent::DeletionProgress { completed, total } ==> reaction
            is UpdateProgress && after.operations.progress.completed == completed
            && after.operations.progress.total == total,
        event matches BrowserEvent::RestorationProgress { completed, total } ==> reaction
            is UpdateProgress && after.operations.progress.completed == completed
            && after.operations.progress.total == total,
        event matches BrowserEvent::ArchiveProgress { completed, total } ==> reaction
            is UpdateProgress && after.operations.progress
            == before.operations.progress.after_archive(completed, total),
        event matches BrowserEvent::TransferFinished { moved_locations } ==> reaction
            == if moved_locations@.len() > 0 {
            Reaction::EndTransfer(moved_locations)
        } else {
            Reaction::EndOperation
        },
        event is DeletionFinished || event is RestorationFinished ==> reaction is EndOperation,
{
}

/// Renaming ends the edit and gives the listing the focus. A name that was turned away stays to be
/// changed, with what is wrong with it.
pub proof fn law_renaming_ends_or_goes_on(
    before: BrowserView,
    event: BrowserEvent,
    facts: EventFacts,
    after: BrowserView,
    reaction: Reaction,
)
    requires
        answers(&before, event, facts, &after, reaction),
        event is RenameCompleted || event is RenameFailed,
    ensures
        after.settings == before.settings && after.panes == before.panes && after.peek
            == before.peek && after.operations == before.operations,
        after.edits.new_entry == before.edits.new_entry,
        event is RenameCompleted ==> after.edits.rename is None && reaction is FocusListing,
        event matches BrowserEvent::RenameFailed { message } ==> before.edits.rename is Some
            ==> reaction is ShowRenameError && after.edits.rename is Some
            && after.edits.rename->0.entry == before.edits.rename->0.entry
            && after.edits.rename->0.sensitive && after.edits.rename->0.error == Some(message),
        event is RenameFailed && before.edits.rename is None ==> reaction is Nothing && after
            == before,
{
}

/// An operation that failed tells why, unless an archive only wants its password, which is then asked
/// for. One that left entries behind offers to delete for good exactly those that could be, at once
/// where nothing else went wrong. One that was cancelled tells how far it came.
pub proof fn law_failed_operations_are_told(
    before: BrowserView,
    event: BrowserEvent,
    facts: EventFacts,
    after: BrowserView,
    reaction: Reaction,
)
    requires
        answers(&before, event, facts, &after, reaction),
    ensures
        event matches BrowserEvent::OperationFailed { message } ==> {
            let asks = before.operations.extract_retry is Some && asks_for_password(message@);
            &&& asks ==> (reaction matches Reaction::AskPassword { archive, destination }
                && before.operations.extract_retry == Some((archive, destination)))
            &&& !asks ==> reaction is ShowError && reaction->title@
                == "Unable to complete operation"@ && reaction->detail == message
            &&& after.operations.extract_retry is None
            &&& after.operations.pending_delete@ == before.operations.pending_delete@
                && after.operations.pending_select@ == before.operations.pending_select@
                && after.operations.pending_navigate == before.operations.pending_navigate
        },
        event matches BrowserEvent::OperationCompletedWithErrors {
            message,
            retryable_locations,
            has_non_retryable_failures,
        } ==> {
            let again = retryable(before.operations.pending_delete@, retryable_locations@);
            &&& again.len() == 0 ==> reaction is ShowError && reaction->title@
                == "Completed with errors"@ && reaction->detail == message
            &&& again.len() > 0 && has_non_retryable_failures ==> reaction is OfferPermanentDelete
                && reaction->reason == message && reaction->entries@ == again
            &&& again.len() > 0 && !has_non_retryable_failures ==> reaction is ConfirmDelete
                && reaction->ConfirmDelete_0@ == again
            &&& after.operations.pending_delete@.len() == 0
            &&& after.operations.progress == before.operations.progress
        },
        event matches BrowserEvent::OperationCancelled {
            completed,
            failed,
            not_attempted,
            affected_locations,
        } ==> after == before && reaction is ShowCancelled && reaction->told@ == cancelled_text(
            completed as nat,
            failed as nat,
            not_attempted as nat,
        ) && reaction->affected == affected_locations,
{
}

/// Once an operation is done, the view goes where it was to go, once; an archive that was made is
/// selected by its name, and the folder in view is read again where it was to go nowhere.
pub proof fn law_finished_operations_lead_on(
    before: BrowserView,
    event: BrowserEvent,
    facts: EventFacts,
    after: BrowserView,
    reaction: Reaction,
)
    requires
        answers(&before, event, facts, &after, reaction),
        event is ArchiveCompleted || event is TransferCompleted,
    ensures
        after.operations.pending_navigate is None,
        before.operations.pending_navigate is Some ==> reaction == Reaction::Navigate(
            before.operations.pending_navigate->0,
        ),
        before.operations.pending_navigate is None ==> (event is ArchiveCompleted ==> reaction
            is ReloadActive) && (event is TransferCompleted ==> reaction is Nothing),
        event matches BrowserEvent::ArchiveCompleted { select_name } ==> after.operations.pending_select@
            == if select_name@.len() == 0 {
            before.operations.pending_select@
        } else {
            before.operations.pending_select@.push(select_name)
        } && after.operations.extract_retry is None,
        event is TransferCompleted ==> after.operations.pending_select@
            == before.operations.pending_select@ && after.operations.progress
            == before.operations.progress,
        after.settings == before.settings && after.panes == before.panes && after.peek
            == before.peek && after.edits == before.edits,
        after.operations.credentials == before.operations.credentials,
        after.operations.pending_delete@ == before.operations.pending_delete@,
{
}

/// What may change alone does: where only the panes, the peek, the operations or their progress may,
/// every other part of the view stays as it was.
pub proof fn law_parts_of_the_view_change_alone(
    view: BrowserView,
    before: BrowserView,
    progress: OperationProgress,
)
    ensures
        view.only_panes(&before) <==> view == (BrowserView { panes: view.panes, ..before }),
        view.only_peek(&before) <==> view == (BrowserView { peek: view.peek, ..before }),
        view.only_operations(&before) <==> view == (BrowserView {
            operations: view.operations,
            ..before
        }),
        view.only_progress(&before, progress) ==> view == (BrowserView {
            operations: view.operations,
            ..before
        }) && view.operations@ == (OperationsModel { progress, ..before.operations@ }),
        view.well_formed() <==> view.peek.well_formed(),
{
}

} // verus!
