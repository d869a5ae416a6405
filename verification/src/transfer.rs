//! Moving and copying: what is done about names that are taken, where a transfer goes, and how far
//! it has come.

use crate::cut::flagged;
use crate::entry::{item_count_label, items_label, FileEntry};
use crate::location::{location_views, Location, LocationView, Place};
use crate::paths::{
    compact_native_path, compacted, file_name_of, optional_view, path_equal, path_file_name,
    path_parts, same_path,
};
use crate::text::{concat_text, count_text, decimal, views};
use vstd::prelude::*;

verus! {

/// What is done where the name is taken.
#[derive(Clone, Copy, Debug, PartialEq, Eq, Structural)]
pub enum TransferConflict {
    FailIfExists,
    ReplaceExisting,
}

/// What is chosen for an item whose name is taken.
#[derive(Clone, Copy, Debug, PartialEq, Eq, Structural)]
pub enum ConflictChoice {
    Replace,
    Skip,
}

/// An item that goes along, and what is done where its name is taken.
#[derive(Debug)]
pub struct Accepted<T> {
    pub item: T,
    pub conflict: TransferConflict,
}

/// A transfer in preparation: what goes along, and what is still to be decided.
#[derive(Debug)]
pub struct Preparation<T> {
    pub accepted: Vec<Accepted<T>>,
    pub collisions: Vec<T>,
}

/// The items that go along, each with what is done where its name is taken.
pub open spec fn accepted_all<T>(items: Seq<T>, conflict: TransferConflict) -> Seq<Accepted<T>> {
    items.map_values(|item: T| Accepted { item, conflict })
}

/// The flags turned over.
pub open spec fn negated(flags: Seq<bool>) -> Seq<bool> {
    flags.map_values(|flag: bool| !flag)
}

/// What a preparation does next.
#[derive(Clone, Copy, Debug, PartialEq, Eq, Structural)]
pub enum PreparationStep {
    /// Everything is decided.
    Ready,
    /// Ask about the first item whose name is taken; others may follow.
    Ask { has_more: bool },
}

impl<T> Preparation<T> {
    /// What is accepted once a choice was made for the first item whose name is taken, and maybe
    /// for all the others.
    pub open spec fn accepted_after(
        &self,
        choice: ConflictChoice,
        apply_to_all: bool,
    ) -> Seq<Accepted<T>> {
        match choice {
            ConflictChoice::Skip => self.accepted@,
            ConflictChoice::Replace => self.accepted@ + accepted_all(
                if apply_to_all {
                    self.collisions@
                } else {
                    self.collisions@.take(1)
                },
                TransferConflict::ReplaceExisting,
            ),
        }
    }

    /// What is still to be decided after a choice.
    pub open spec fn collisions_after(&self, apply_to_all: bool) -> Seq<T> {
        if apply_to_all {
            Seq::empty()
        } else {
            self.collisions@.skip(1)
        }
    }

    /// What comes next.
    pub fn next_step(&self) -> (result: PreparationStep)
        ensures
            result == if self.collisions@.len() == 0 {
                PreparationStep::Ready
            } else {
                PreparationStep::Ask { has_more: self.collisions@.len() > 1 }
            },
    {
        if self.collisions.len() == 0 {
            PreparationStep::Ready
        } else {
            PreparationStep::Ask { has_more: self.collisions.len() > 1 }
        }
    }

    /// Takes the choice made for the first item whose name is taken.
    pub fn decide(self, choice: ConflictChoice, apply_to_all: bool) -> (result: Self)
        requires
            self.collisions@.len() > 0,
        ensures
            result.accepted@ == self.accepted_after(choice, apply_to_all),
            result.collisions@ == self.collisions_after(apply_to_all),
    {
        let ghost given = self.collisions@;
        let ghost kept = self.accepted@;
        let mut accepted: Vec<Accepted<T>> = self.accepted;
        let mut waiting: Vec<T> = self.collisions;
        if apply_to_all {
            match choice {
                ConflictChoice::Skip => {},
                ConflictChoice::Replace => {
                    for item in it: waiting
                        invariant
                            it.seq() == given,
                            accepted@ == kept + accepted_all(
                                given.take(it.index()),
                                TransferConflict::ReplaceExisting,
                            ),
                    {
                        let ghost before = given.take(it.index());
                        let ghost after = given.take(it.index() + 1);
                        proof {
                            assert(after == before.push(given[it.index()]));
                            assert(accepted_all(after, TransferConflict::ReplaceExisting)
                                == accepted_all(before, TransferConflict::ReplaceExisting).push(
                                Accepted { item, conflict: TransferConflict::ReplaceExisting },
                            ));
                        }
                        accepted.push(
                            Accepted { item, conflict: TransferConflict::ReplaceExisting },
                        );
                    }
                    assert(given.take(given.len() as int) == given);
                },
            }
            return Preparation { accepted, collisions: Vec::new() };
        }
        let first: T = waiting.remove(0);
        assert(waiting@ == given.skip(1));
        match choice {
            ConflictChoice::Skip => {},
            ConflictChoice::Replace => {
                accepted.push(
                    Accepted { item: first, conflict: TransferConflict::ReplaceExisting },
                );
                assert(accepted@ == kept + accepted_all(
                    given.take(1),
                    TransferConflict::ReplaceExisting,
                ));
            },
        }
        Preparation { accepted, collisions: waiting }
    }
}

/// What is done to the prompt about a name that is taken.
#[derive(Clone, Copy, Debug, PartialEq, Eq, Structural)]
pub enum PromptInput {
    Cancel,
    Escape,
    /// A press beside the prompt.
    Backdrop,
    Enter,
    Replace,
    Skip,
}

/// What is chosen by what is done to the prompt; nothing where the prompt is only closed.
pub open spec fn prompt_choice(input: PromptInput) -> Option<ConflictChoice> {
    match input {
        PromptInput::Cancel | PromptInput::Escape | PromptInput::Backdrop => None,
        PromptInput::Enter | PromptInput::Replace => Some(ConflictChoice::Replace),
        PromptInput::Skip => Some(ConflictChoice::Skip),
    }
}

impl<T> Preparation<T> {
    /// Takes what is done to the prompt about the first item whose name is taken: replacing or
    /// skipping it goes on to the next, and closing the prompt gives the whole transfer up.
    pub fn answer_prompt(self, input: PromptInput, apply_to_all: bool) -> (result: Option<Self>)
        requires
            self.collisions@.len() > 0,
        ensures
            match prompt_choice(input) {
                None => result is None,
                Some(choice) => {
                    &&& result matches Some(next)
                    &&& next.accepted@ == self.accepted_after(choice, apply_to_all)
                    &&& next.collisions@ == self.collisions_after(apply_to_all)
                },
            },
    {
        match input {
            PromptInput::Cancel | PromptInput::Escape | PromptInput::Backdrop => None,
            PromptInput::Enter | PromptInput::Replace => Some(
                self.decide(ConflictChoice::Replace, apply_to_all),
            ),
            PromptInput::Skip => Some(self.decide(ConflictChoice::Skip, apply_to_all)),
        }
    }
}

/// A transfer on its way: where it goes, whether its sources are moved, and what is decided.
#[derive(Debug)]
pub struct PendingTransfer {
    pub destination: Location,
    pub move_sources: bool,
    pub items: Preparation<Location>,
}

/// What a transfer on its way does next.
#[derive(Debug)]
pub enum PendingTransferStep {
    /// Transfer the items, each as it was decided.
    Transfer { destination: Location, items: Vec<Accepted<Location>>, move_sources: bool },
    /// Ask about the first item whose name is taken; others may follow.
    Ask { transfer: PendingTransfer, has_more: bool },
}

impl PendingTransfer {
    /// What comes next: the transfer once everything is decided.
    pub fn next_step(self) -> (result: PendingTransferStep)
        ensures
            self.items.collisions@.len() == 0 ==> result == (PendingTransferStep::Transfer {
                destination: self.destination,
                items: self.items.accepted,
                move_sources: self.move_sources,
            }),
            self.items.collisions@.len() > 0 ==> result == (PendingTransferStep::Ask {
                transfer: self,
                has_more: self.items.collisions@.len() > 1,
            }),
    {
        match self.items.next_step() {
            PreparationStep::Ready => PendingTransferStep::Transfer {
                destination: self.destination,
                items: self.items.accepted,
                move_sources: self.move_sources,
            },
            PreparationStep::Ask { has_more } => PendingTransferStep::Ask {
                transfer: self,
                has_more,
            },
        }
    }

    /// Takes what is done to the prompt about the first item whose name is taken. The destination
    /// and the kind of the transfer stay; nothing is left of it where the prompt is closed.
    pub fn answer_prompt(self, input: PromptInput, apply_to_all: bool) -> (result: Option<Self>)
        requires
            self.items.collisions@.len() > 0,
        ensures
            match prompt_choice(input) {
                None => result is None,
                Some(choice) => {
                    &&& result matches Some(next)
                    &&& next.destination == self.destination
                    &&& next.move_sources == self.move_sources
                    &&& next.items.accepted@ == self.items.accepted_after(choice, apply_to_all)
                    &&& next.items.collisions@ == self.items.collisions_after(apply_to_all)
                },
            },
    {
        match self.items.answer_prompt(input, apply_to_all) {
            Some(items) => Some(
                PendingTransfer {
                    destination: self.destination,
                    move_sources: self.move_sources,
                    items,
                },
            ),
            None => None,
        }
    }
}

/// Starts a transfer of the sources to the destination, at which `collides` tells whose name is
/// taken.
pub fn start_transfer(
    destination: Location,
    sources: &Vec<Location>,
    move_sources: bool,
    collides: &Vec<bool>,
) -> (result: PendingTransfer)
    requires
        collides@.len() == sources@.len(),
    ensures
        result.destination == destination,
        result.move_sources == move_sources,
        result.items.accepted@ == accepted_all(
            flagged(sources@, negated(collides@)),
            TransferConflict::FailIfExists,
        ),
        result.items.collisions@ == flagged(sources@, collides@),
{
    let mut accepted: Vec<Accepted<Location>> = Vec::new();
    let mut collisions: Vec<Location> = Vec::new();
    let mut i: usize = 0;
    assert(accepted@ == accepted_all(
        flagged(sources@.take(0), negated(collides@)),
        TransferConflict::FailIfExists,
    ));
    while i < sources.len()
        invariant
            collides@.len() == sources@.len(),
            i <= sources@.len(),
            accepted@ == accepted_all(
                flagged(sources@.take(i as int), negated(collides@)),
                TransferConflict::FailIfExists,
            ),
            collisions@ == flagged(sources@.take(i as int), collides@),
        decreases sources@.len() - i,
    {
        assert(sources@.take(i + 1).drop_last() == sources@.take(i as int));
        let ghost before = accepted@;
        if collides[i] {
            collisions.push(sources[i].duplicate());
        } else {
            accepted.push(
                Accepted { item: sources[i].duplicate(), conflict: TransferConflict::FailIfExists },
            );
        }
        i = i + 1;
        assert(accepted@ == accepted_all(
            flagged(sources@.take(i as int), negated(collides@)),
            TransferConflict::FailIfExists,
        ));
    }
    assert(sources@.take(i as int) == sources@);
    PendingTransfer { destination, move_sources, items: Preparation { accepted, collisions } }
}

/// A move that was made: where the item was, and where it is.
#[derive(Debug)]
pub struct MoveRecord {
    pub original: Location,
    pub current: Location,
}

impl MoveRecord {
    /// The same record once more.
    pub fn duplicate(&self) -> (result: Self)
        ensures
            result == *self,
    {
        MoveRecord { original: self.original.duplicate(), current: self.current.duplicate() }
    }
}

/// The flags of what is still where it was moved to while its old place is free.
pub open spec fn free_to_return(current_exists: Seq<bool>, original_exists: Seq<bool>) -> Seq<bool> {
    Seq::new(current_exists.len(), |i: int| current_exists[i] && !original_exists[i])
}

/// The flags of what is still where it was moved to while its old place is taken.
pub open spec fn hindered(current_exists: Seq<bool>, original_exists: Seq<bool>) -> Seq<bool> {
    Seq::new(current_exists.len(), |i: int| current_exists[i] && original_exists[i])
}

/// A move on its way back: which move it was, and what is decided.
#[derive(Debug)]
pub struct PendingUndo {
    pub generation: u64,
    pub items: Preparation<MoveRecord>,
}

/// What a move on its way back does next.
#[derive(Debug)]
pub enum PendingUndoStep {
    /// Nothing goes back, and the move can no longer be undone.
    Discard(u64),
    /// Move the items back, each as it was decided.
    Undo { generation: u64, items: Vec<Accepted<MoveRecord>> },
    /// Ask about the first item whose old place is taken; others may follow.
    Ask { undo: PendingUndo, has_more: bool },
}

impl PendingUndo {
    /// What comes next, once more or for the first time.
    pub open spec fn continued(self) -> PendingUndoStep {
        if self.items.collisions@.len() > 0 {
            PendingUndoStep::Ask { undo: self, has_more: self.items.collisions@.len() > 1 }
        } else if self.items.accepted@.len() == 0 {
            PendingUndoStep::Discard(self.generation)
        } else {
            PendingUndoStep::Undo { generation: self.generation, items: self.items.accepted }
        }
    }

    /// What comes next: the items go back once everything is decided, if any is left.
    pub fn next_step(self) -> (result: PendingUndoStep)
        ensures
            result == self.continued(),
    {
        match self.items.next_step() {
            PreparationStep::Ask { has_more } => PendingUndoStep::Ask { undo: self, has_more },
            PreparationStep::Ready => {
                if self.items.accepted.len() == 0 {
                    PendingUndoStep::Discard(self.generation)
                } else {
                    PendingUndoStep::Undo {
                        generation: self.generation,
                        items: self.items.accepted,
                    }
                }
            },
        }
    }

    /// Takes what is done to the prompt about the first item whose old place is taken. Closing it
    /// gives the undo up, and the move can still be undone later.
    pub fn answer_prompt(self, input: PromptInput, apply_to_all: bool) -> (result: Option<Self>)
        requires
            self.items.collisions@.len() > 0,
        ensures
            match prompt_choice(input) {
                None => result is None,
                Some(choice) => {
                    &&& result matches Some(next)
                    &&& next.generation == self.generation
                    &&& next.items.accepted@ == self.items.accepted_after(choice, apply_to_all)
                    &&& next.items.collisions@ == self.items.collisions_after(apply_to_all)
                },
            },
    {
        match self.items.answer_prompt(input, apply_to_all) {
            Some(items) => Some(PendingUndo { generation: self.generation, items }),
            None => None,
        }
    }
}

/// Begins to move the items of a transfer back. What is no longer where it was moved to is left
/// out.
pub fn undo_move(
    generation: u64,
    records: &Vec<MoveRecord>,
    current_exists: &Vec<bool>,
    original_exists: &Vec<bool>,
) -> (result: PendingUndo)
    requires
        current_exists@.len() == records@.len(),
        original_exists@.len() == records@.len(),
    ensures
        result.generation == generation,
        result.items.accepted@ == accepted_all(
            flagged(records@, free_to_return(current_exists@, original_exists@)),
            TransferConflict::FailIfExists,
        ),
        result.items.collisions@ == flagged(
            records@,
            hindered(current_exists@, original_exists@),
        ),
{
    let ghost free = free_to_return(current_exists@, original_exists@);
    let ghost taken = hindered(current_exists@, original_exists@);
    let mut accepted: Vec<Accepted<MoveRecord>> = Vec::new();
    let mut collisions: Vec<MoveRecord> = Vec::new();
    let mut i: usize = 0;
    assert(accepted@ == accepted_all(
        flagged(records@.take(0), free),
        TransferConflict::FailIfExists,
    ));
    while i < records.len()
        invariant
            current_exists@.len() == records@.len(),
            original_exists@.len() == records@.len(),
            free == free_to_return(current_exists@, original_exists@),
            taken == hindered(current_exists@, original_exists@),
            i <= records@.len(),
            accepted@ == accepted_all(
                flagged(records@.take(i as int), free),
                TransferConflict::FailIfExists,
            ),
            collisions@ == flagged(records@.take(i as int), taken),
        decreases records@.len() - i,
    {
        assert(records@.take(i + 1).drop_last() == records@.take(i as int));
        if current_exists[i] {
            if original_exists[i] {
                collisions.push(records[i].duplicate());
            } else {
                accepted.push(
                    Accepted {
                        item: records[i].duplicate(),
                        conflict: TransferConflict::FailIfExists,
                    },
                );
            }
        }
        i = i + 1;
        assert(accepted@ == accepted_all(
            flagged(records@.take(i as int), free),
            TransferConflict::FailIfExists,
        ));
    }
    assert(records@.take(i as int) == records@);
    PendingUndo { generation, items: Preparation { accepted, collisions } }
}

/// The question about a name that is taken.
pub open spec fn conflict_text(name: Seq<char>, place: Seq<char>, consequence: Seq<char>) -> Seq<
    char,
> {
    "An item named \u{201c}"@ + name + "\u{201d} already exists in "@ + place + consequence
}

/// The question about a name that is taken, as far as both kinds of it agree.
fn conflict_explanation(name: &str, place: &str, consequence: &str) -> (result: String)
    ensures
        result@ == conflict_text(name@, place@, consequence@),
{
    let mut text: String = concat_text("An item named \u{201c}", name);
    text.append("\u{201d} already exists in ");
    text.append(place);
    text.append(consequence);
    text
}

/// The question about a name that is taken at the destination of a transfer.
pub fn transfer_conflict_explanation(name: &str, place: &str) -> (result: String)
    ensures
        result@ == conflict_text(
            name@,
            place@,
            ". Replacing it will overwrite its contents."@,
        ),
{
    conflict_explanation(name, place, ". Replacing it will overwrite its contents.")
}

/// The question about a name that is taken where an undone move would go back to.
pub fn undo_conflict_explanation(name: &str, place: &str) -> (result: String)
    ensures
        result@ == conflict_text(
            name@,
            place@,
            ". Undoing the move will overwrite its contents."@,
        ),
{
    conflict_explanation(name, place, ". Undoing the move will overwrite its contents.")
}

/// Whether a transfer finds its name taken. A transfer onto itself, or of a folder into itself,
/// finds no name taken: it is refused later.
pub fn transfer_has_collision(
    has_name: bool,
    target_is_source: bool,
    destination_is_source: bool,
    destination_is_inside_source: bool,
    target_exists: bool,
) -> (result: bool)
    ensures
        result == (has_name && !target_is_source && !destination_is_source
            && !destination_is_inside_source && target_exists),
{
    if !has_name {
        return false;
    }
    if target_is_source || destination_is_source || destination_is_inside_source {
        return false;
    }
    target_exists
}

/// What duplicating entries does: they are copied into the folder that all of them are in, given
/// the folder of each.
pub fn duplicate_transfer(entries: &Vec<FileEntry>, parents: &Vec<Option<Location>>) -> (result: Option<
    (Location, Vec<Location>),
>)
    requires
        parents@.len() == entries@.len(),
    ensures
        match result {
            Some((destination, sources)) => {
                &&& entries@.len() > 0
                &&& parents@[0] == Some(destination)
                &&& all_in(parents@, destination@.place())
                &&& sources@ == crate::cut::locations_of(entries@)
            },
            None => entries@.len() == 0 || parents@[0] is None || !all_in(
                parents@,
                parents@[0]->0@.place(),
            ),
        },
{
    if entries.len() == 0 {
        return None;
    }
    match &parents[0] {
        None => None,
        Some(destination) => {
            let mut i: usize = 0;
            while i < parents.len()
                invariant
                    i <= parents@.len(),
                    parents@[0] == Some(*destination),
                    forall|k: int|
                        0 <= k < i ==> (#[trigger] parents@[k] matches Some(parent) && parent@.place()
                            == destination@.place()),
                decreases parents@.len() - i,
            {
                let inside: bool = match &parents[i] {
                    Some(parent) => parent.same_as(destination),
                    None => false,
                };
                if !inside {
                    assert(!all_in(parents@, destination@.place()));
                    return None;
                }
                i = i + 1;
            }
            Some((destination.duplicate(), crate::cut::entry_locations(entries)))
        },
    }
}

/// Whether all the folders are the given one.
pub open spec fn all_in(parents: Seq<Option<Location>>, folder: Place) -> bool {
    forall|i: int|
        0 <= i < parents.len() ==> (#[trigger] parents[i] matches Some(parent) && parent@.place() == folder)
}

/// The message below the destination field.
#[derive(Debug)]
pub enum FieldMessage {
    Nothing,
    Error(String),
    Warning(String),
}

/// The label of the button that starts a transfer.
#[derive(Clone, Copy, Debug, PartialEq, Eq, Structural)]
pub enum ConfirmLabel {
    TransferHere,
    CreateAndTransfer,
    Creating,
}

/// What a dialog is asked for.
#[derive(Clone, Copy, Debug, PartialEq, Eq, Structural)]
pub enum ConfirmStep {
    /// Stay open.
    Stay,
    /// Start the transfer and close.
    Transfer,
    /// Create the folder first.
    CreateFolder,
}

/// The dialog that asks where entries are moved or copied to. A folder that does not exist is
/// created on a second confirmation, and nothing closes the dialog meanwhile.
#[derive(Debug)]
pub struct TransferDialog {
    pub entries: Vec<FileEntry>,
    pub move_sources: bool,
    /// The path that is created if it is confirmed once more.
    pub pending_creation: Option<String>,
    /// The path that is being created.
    pub creating: Option<String>,
    pub message: FieldMessage,
    pub label: ConfirmLabel,
}

/// The label of the button that starts a transfer.
pub open spec fn label_text(label: ConfirmLabel, move_sources: bool) -> Seq<char> {
    match label {
        ConfirmLabel::TransferHere => if move_sources {
            "Move here"@
        } else {
            "Copy here"@
        },
        ConfirmLabel::CreateAndTransfer => if move_sources {
            "Create and move"@
        } else {
            "Create and copy"@
        },
        ConfirmLabel::Creating => "Creating folder…"@,
    }
}

impl TransferDialog {
    /// Whether confirming `path` again creates it.
    pub open spec fn was_announced(&self, path: Seq<char>) -> bool {
        self.pending_creation matches Some(pending) && path_equal(pending@, path)
    }

    /// What it moves or copies stays.
    pub open spec fn same_transfer(&self, other: &TransferDialog) -> bool {
        self.entries == other.entries && self.move_sources == other.move_sources
    }

    /// What a press on the button that starts the transfer makes of the dialog, and asks for. A
    /// path that is no folder is refused. One that does not exist is announced first, and created
    /// once it is confirmed again.
    pub open spec fn pressed(
        &self,
        path: Seq<char>,
        exists: bool,
        is_directory: bool,
        home: Seq<char>,
        after: &TransferDialog,
        step: ConfirmStep,
    ) -> bool {
        &&& after.same_transfer(self)
        &&& exists && !is_directory ==> {
            &&& step is Stay
            &&& after.message matches FieldMessage::Error(text)
            &&& text@ == "The destination exists, but it is not a folder."@
            &&& after.pending_creation == self.pending_creation
            &&& after.creating == self.creating
            &&& after.label == self.label
        }
        &&& !exists && !self.was_announced(path) ==> {
            &&& step is Stay
            &&& after.message matches FieldMessage::Warning(text)
            &&& text@ == compacted(path, home)
                + " does not exist. It will be created before the items are transferred."@
            &&& optional_view(after.pending_creation) == Some(path)
            &&& after.creating == self.creating
            &&& after.label is CreateAndTransfer
        }
        &&& !exists && self.was_announced(path) ==> {
            &&& step is CreateFolder
            &&& optional_view(after.creating) == Some(path)
            &&& after.label is Creating
            &&& after.message == self.message
            &&& after.pending_creation == self.pending_creation
        }
        &&& is_directory ==> step is Transfer && *after == *self
    }

    /// What the end of the creation of the folder makes of the dialog, and asks for: the transfer
    /// into the folder, or another try.
    pub open spec fn created(
        &self,
        error: Option<Option<Seq<char>>>,
        after: &TransferDialog,
        step: ConfirmStep,
    ) -> bool {
        &&& after.same_transfer(self)
        &&& after.pending_creation == self.pending_creation
        &&& match error {
            None => step is Transfer && *after == *self,
            Some(reason) => {
                &&& step is Stay
                &&& after.creating is None
                &&& after.label is TransferHere
                &&& after.message matches FieldMessage::Error(text)
                &&& text@ == match reason {
                    Some(reason) => "Unable to create that folder: "@ + reason,
                    None => "Unable to create that folder."@,
                }
            },
        }
    }

    /// The dialog as it opens, or nothing where there is nothing to transfer.
    pub fn open(entries: Vec<FileEntry>, move_sources: bool) -> (result: Option<Self>)
        ensures
            entries@.len() == 0 ==> result is None,
            entries@.len() > 0 ==> result == Some(
                TransferDialog {
                    entries,
                    move_sources,
                    pending_creation: None,
                    creating: None,
                    message: FieldMessage::Nothing,
                    label: ConfirmLabel::TransferHere,
                },
            ),
    {
        if entries.len() == 0 {
            return None;
        }
        Some(
            TransferDialog {
                entries,
                move_sources,
                pending_creation: None,
                creating: None,
                message: FieldMessage::Nothing,
                label: ConfirmLabel::TransferHere,
            },
        )
    }

    /// The title of the dialog.
    pub fn title(&self) -> (result: &'static str)
        ensures
            result@ == if self.move_sources {
                "Move to"@
            } else {
                "Copy to"@
            },
    {
        if self.move_sources {
            "Move to"
        } else {
            "Copy to"
        }
    }

    /// What the dialog asks for.
    pub fn subtitle(&self) -> (result: String)
        ensures
            result@ == "Choose a destination for "@ + items_label(self.entries@.len()),
    {
        let items: String = item_count_label(self.entries.len());
        concat_text("Choose a destination for ", items.as_str())
    }

    /// The label of the button that starts the transfer.
    pub fn confirm_label(&self) -> (result: &'static str)
        ensures
            result@ == label_text(self.label, self.move_sources),
    {
        match self.label {
            ConfirmLabel::TransferHere => if self.move_sources {
                "Move here"
            } else {
                "Copy here"
            },
            ConfirmLabel::CreateAndTransfer => if self.move_sources {
                "Create and move"
            } else {
                "Create and copy"
            },
            ConfirmLabel::Creating => "Creating folder…",
        }
    }

    /// Takes a change of the destination field: what was said of the text before is void.
    pub fn input_changed(&mut self)
        ensures
            final(self).same_transfer(old(self)),
            final(self).creating == old(self).creating,
            final(self).pending_creation is None,
            final(self).message is Nothing,
            final(self).label is TransferHere,
    {
        self.pending_creation = None;
        self.message = FieldMessage::Nothing;
        self.label = ConfirmLabel::TransferHere;
    }

    /// Takes a press on the button that starts the transfer, with what the file system says of the
    /// destination.
    pub fn confirm(&mut self, path: &str, exists: bool, is_directory: bool, home: &str) -> (result:
        ConfirmStep)
        requires
            is_directory ==> exists,
        ensures
            old(self).pressed(path@, exists, is_directory, home@, final(self), result),
    {
        if exists && !is_directory {
            self.message = FieldMessage::Error(
                "The destination exists, but it is not a folder.".to_owned(),
            );
            return ConfirmStep::Stay;
        }
        if is_directory {
            return ConfirmStep::Transfer;
        }
        let announced: bool = match &self.pending_creation {
            Some(pending) => same_path(pending.as_str(), path),
            None => false,
        };
        if !announced {
            self.pending_creation = Some(path.to_owned());
            let place: String = compact_native_path(path, home);
            self.message = FieldMessage::Warning(
                concat_text(
                    place.as_str(),
                    " does not exist. It will be created before the items are transferred.",
                ),
            );
            self.label = ConfirmLabel::CreateAndTransfer;
            return ConfirmStep::Stay;
        }
        self.creating = Some(path.to_owned());
        self.label = ConfirmLabel::Creating;
        ConfirmStep::CreateFolder
    }

    /// Takes the end of the creation of the folder: the transfer starts, or the error is shown and
    /// the dialog can be used again. An error may come without words.
    pub fn folder_created(&mut self, error: Option<Option<&str>>) -> (result: ConfirmStep)
        ensures
            old(self).created(worded(error), final(self), result),
    {
        match error {
            None => ConfirmStep::Transfer,
            Some(reason) => {
                self.creating = None;
                self.label = ConfirmLabel::TransferHere;
                self.message = FieldMessage::Error(
                    match reason {
                        Some(reason) => concat_text("Unable to create that folder: ", reason),
                        None => "Unable to create that folder.".to_owned(),
                    },
                );
                ConfirmStep::Stay
            },
        }
    }

    /// Whether the dialog can be closed by its buttons or the escape key.
    pub fn can_cancel(&self) -> (result: bool)
        ensures
            result == (self.creating is None),
    {
        self.creating.is_none()
    }

    /// Whether a press beside the dialog must not close it: while the folder is created, or once
    /// something was typed.
    pub fn blocks_dismissal(&self, input: &str, initial: &str) -> (result: bool)
        ensures
            result == (self.creating is Some || input@ != initial@),
    {
        self.creating.is_some() || !crate::text::same_text(input, initial)
    }
}

/// An error, with its words where it came with any.
pub open spec fn worded(error: Option<Option<&str>>) -> Option<Option<Seq<char>>> {
    match error {
        None => None,
        Some(None) => Some(None),
        Some(Some(reason)) => Some(Some(reason@)),
    }
}

/// A folder that does not exist is only announced by a first confirmation. A second one of the same
/// path, with nothing typed in between, creates it, and the transfer goes there once it is made.
pub proof fn law_second_confirmation_creates(
    fresh: TransferDialog,
    path: Seq<char>,
    home: Seq<char>,
    announced: TransferDialog,
    first: ConfirmStep,
    confirmed: TransferDialog,
    second: ConfirmStep,
    made: TransferDialog,
    last: ConfirmStep,
)
    requires
        fresh.pending_creation is None,
        fresh.pressed(path, false, false, home, &announced, first),
        announced.pressed(path, false, false, home, &confirmed, second),
        confirmed.created(None, &made, last),
    ensures
        first is Stay,
        second is CreateFolder,
        last is Transfer,
        optional_view(made.creating) == Some(path),
        made.same_transfer(&fresh),
{
}

/// Nothing is created and nothing transferred by a confirmation that comes right after the
/// destination was typed anew, while no folder is there.
pub proof fn law_typing_asks_again(
    edited: TransferDialog,
    path: Seq<char>,
    home: Seq<char>,
    after: TransferDialog,
    step: ConfirmStep,
)
    requires
        edited.pending_creation is None,
        edited.pressed(path, false, false, home, &after, step),
    ensures
        step is Stay,
        after.was_announced(path),
{
}

/// The names that are there, in order.
pub open spec fn names_present(names: Seq<Option<Seq<char>>>) -> Seq<Seq<char>>
    decreases names.len(),
{
    if names.len() == 0 {
        Seq::empty()
    } else {
        match names.last() {
            Some(name) => names_present(names.drop_last()).push(name),
            None => names_present(names.drop_last()),
        }
    }
}

/// The name that a location ends in, for a native path that has one.
pub open spec fn native_name(location: LocationView) -> Option<Seq<char>> {
    match location {
        LocationView::Native(path) => path_file_name(path),
        LocationView::Uri(_) => None,
    }
}

/// The names that items arrive under, of those that come from the local file system.
pub open spec fn arriving(sources: Seq<Location>) -> Seq<Seq<char>> {
    names_present(
        location_views(sources).map_values(|location: LocationView| native_name(location)),
    )
}

/// The names to select where the transferred items arrive.
pub fn arriving_names(sources: &Vec<Location>) -> (result: Vec<String>)
    ensures
        views(result@) == arriving(sources@),
{
    let ghost names = location_views(sources@).map_values(
        |location: LocationView| native_name(location),
    );
    let mut result: Vec<String> = Vec::new();
    let mut i: usize = 0;
    assert(views(result@) == names_present(names.take(0)));
    while i < sources.len()
        invariant
            i <= sources@.len(),
            names == location_views(sources@).map_values(
                |location: LocationView| native_name(location),
            ),
            views(result@) == names_present(names.take(i as int)),
        decreases sources@.len() - i,
    {
        assert(names.take(i + 1).drop_last() == names.take(i as int));
        assert(names[i as int] == native_name(sources@[i as int]@));
        let ghost before = result@;
        match sources[i].native_path() {
            Some(path) => {
                match file_name_of(path) {
                    Some(name) => {
                        let ghost pushed = name@;
                        result.push(name);
                        assert(views(result@) == views(before).push(pushed));
                    },
                    None => {},
                }
            },
            None => {},
        }
        i = i + 1;
    }
    assert(names.take(i as int) == names);
    result
}

/// Whether the progress of an operation is shown at once: for many items, or for a number that is
/// not known.
pub fn should_show_progress_immediately(total: usize) -> (result: bool)
    ensures
        result == (total == 0 || total >= 16),
{
    total == 0 || total >= 16
}

/// How far a transfer has come, as it is told.
#[derive(Clone, Copy, Debug, PartialEq, Eq, Structural)]
pub enum TransferStatus {
    /// A share of the items.
    ItemShare { completed: usize, items: usize },
    /// A share of the bytes, at least one percent once anything was transferred.
    ByteShare { transferred: u64, bytes: u64, at_least_one_percent: bool },
    /// It is not known yet.
    Preparing,
    /// So many items, of which the number is not known.
    Items(usize),
    /// So many bytes, of which the number is not known.
    Bytes(u64),
}

/// How far a transfer has come. Where the bytes add up to nothing, the items tell.
pub open spec fn transfer_status(
    completed_items: usize,
    total_items: usize,
    transferred_bytes: u64,
    total_bytes: Option<u64>,
) -> TransferStatus {
    match total_bytes {
        Some(total) => if total > 0 {
            TransferStatus::ByteShare {
                transferred: transferred_bytes,
                bytes: total,
                at_least_one_percent: transferred_bytes > 0,
            }
        } else if total_items > 0 {
            TransferStatus::ItemShare { completed: completed_items, items: total_items }
        } else {
            TransferStatus::Preparing
        },
        None => if transferred_bytes > 0 {
            TransferStatus::Bytes(transferred_bytes)
        } else if completed_items > 0 {
            TransferStatus::Items(completed_items)
        } else {
            TransferStatus::Preparing
        },
    }
}

/// How far a transfer has come.
pub fn transfer_progress_status(
    completed_items: usize,
    total_items: usize,
    transferred_bytes: u64,
    total_bytes: Option<u64>,
) -> (result: TransferStatus)
    ensures
        result == transfer_status(completed_items, total_items, transferred_bytes, total_bytes),
{
    match total_bytes {
        Some(total) => {
            if total > 0 {
                TransferStatus::ByteShare {
                    transferred: transferred_bytes,
                    bytes: total,
                    at_least_one_percent: transferred_bytes > 0,
                }
            } else if total_items > 0 {
                TransferStatus::ItemShare { completed: completed_items, items: total_items }
            } else {
                TransferStatus::Preparing
            }
        },
        None => {
            if transferred_bytes > 0 {
                TransferStatus::Bytes(transferred_bytes)
            } else if completed_items > 0 {
                TransferStatus::Items(completed_items)
            } else {
                TransferStatus::Preparing
            }
        },
    }
}

/// Whether a status has no share to draw, so that the bar only shows that something goes on.
pub fn is_indeterminate(status: TransferStatus) -> (result: bool)
    ensures
        result == (status is Preparing || status is Items || status is Bytes),
{
    match status {
        TransferStatus::ItemShare { .. } | TransferStatus::ByteShare { .. } => false,
        _ => true,
    }
}

/// How many items were copied, in words.
pub fn items_copied_text(completed: usize) -> (result: String)
    ensures
        result@ == decimal(completed as nat) + if completed == 1 {
            " item copied"@
        } else {
            " items copied"@
        },
{
    let number: String = count_text(completed);
    concat_text(
        number.as_str(),
        if completed == 1 {
            " item copied"
        } else {
            " items copied"
        },
    )
}

/// How far an archive operation has come, in words.
pub fn archive_status_text(completed: usize, total: usize) -> (result: String)
    ensures
        result@ == if total == 0 {
            decimal(completed as nat) + " files"@
        } else {
            decimal(completed as nat) + " / "@ + decimal(total as nat) + " files"@
        },
{
    let mut text: String = count_text(completed);
    if total > 0 {
        text.append(" / ");
        let whole: String = count_text(total);
        text.append(whole.as_str());
    }
    text.append(" files");
    text
}

/// How far a file operation has come: the items done of all, and of a transfer also the bytes. It
/// is shown after a short while, and then as it was told last.
#[derive(Clone, Copy, Debug)]
pub struct OperationProgress {
    pub completed: usize,
    pub total: usize,
    pub transfer: Option<(usize, u64, Option<u64>)>,
    /// Whether it is shown once the while is over.
    pub pending: bool,
    /// What is shown.
    pub shown: ProgressDisplay,
}

/// What the view of an operation's progress shows.
#[derive(Clone, Copy, Debug, PartialEq, Eq, Structural)]
pub enum ProgressDisplay {
    Nothing,
    /// How far a transfer has come.
    Transfer(TransferStatus),
    /// A share of the items.
    Items { completed: usize, total: usize },
    /// The files of an archive, of which the number is not known where it is zero.
    Archive { completed: usize, total: usize },
    /// The items deleted from the trash, of which the number is not known.
    Emptied(usize),
}

impl OperationProgress {
    /// What is shown as it appears: a transfer tells how far it has come, and anything else which
    /// share of its items is done.
    pub open spec fn presented(self) -> ProgressDisplay {
        match self.transfer {
            Some((completed, transferred, total)) => ProgressDisplay::Transfer(
                transfer_status(completed, self.total, transferred, total),
            ),
            None => ProgressDisplay::Items { completed: self.completed, total: self.total },
        }
    }

    /// What is shown once something else is told: nothing before it appears.
    pub open spec fn retold(self, told: ProgressDisplay) -> ProgressDisplay {
        if self.shown is Nothing {
            ProgressDisplay::Nothing
        } else {
            told
        }
    }

    /// No operation under way.
    pub open spec fn ended() -> Self {
        OperationProgress {
            completed: 0,
            total: 0,
            transfer: None,
            pending: false,
            shown: ProgressDisplay::Nothing,
        }
    }

    /// An operation on so many items that begins. It is shown at once for many items, or for a
    /// number that is not known.
    pub open spec fn started(total: usize) -> Self {
        let at_once = total == 0 || total >= 16;
        OperationProgress {
            completed: 0,
            total,
            transfer: None,
            pending: !at_once,
            shown: if at_once {
                ProgressDisplay::Items { completed: 0, total }
            } else {
                ProgressDisplay::Nothing
            },
        }
    }

    /// The progress once the while is over: shown, unless the operation ended first.
    pub open spec fn after_delay(self) -> Self {
        OperationProgress {
            pending: false,
            shown: if self.pending {
                self.presented()
            } else {
                self.shown
            },
            ..self
        }
    }

    /// The progress after a transfer went on.
    pub open spec fn after_transfer(
        self,
        completed_items: usize,
        transferred_bytes: u64,
        total_bytes: Option<u64>,
    ) -> Self {
        OperationProgress {
            transfer: Some((completed_items, transferred_bytes, total_bytes)),
            shown: self.retold(
                ProgressDisplay::Transfer(
                    transfer_status(completed_items, self.total, transferred_bytes, total_bytes),
                ),
            ),
            ..self
        }
    }

    /// The progress after an operation item by item went on. Its share is shown at once, also where
    /// a transfer was told before.
    pub open spec fn after_items(self, completed: usize, total: usize) -> Self {
        OperationProgress {
            completed,
            total,
            shown: self.retold(ProgressDisplay::Items { completed, total }),
            ..self
        }
    }

    /// The progress after an archive operation went on.
    pub open spec fn after_archive(self, completed: usize, total: usize) -> Self {
        OperationProgress {
            shown: self.retold(ProgressDisplay::Archive { completed, total }),
            ..self
        }
    }

    /// The progress after the emptying of the trash went on.
    pub open spec fn after_emptied(self, processed: usize) -> Self {
        OperationProgress { shown: self.retold(ProgressDisplay::Emptied(processed)), ..self }
    }

    /// No operation under way.
    pub fn idle() -> (result: Self)
        ensures
            result == OperationProgress::ended(),
    {
        OperationProgress {
            completed: 0,
            total: 0,
            transfer: None,
            pending: false,
            shown: ProgressDisplay::Nothing,
        }
    }

    /// What the view shows.
    pub fn display(&self) -> (result: ProgressDisplay)
        ensures
            result == self.shown,
    {
        self.shown
    }

    /// What is shown once something else is told.
    fn tell(&mut self, told: ProgressDisplay)
        ensures
            *final(self) == (OperationProgress { shown: old(self).retold(told), ..*old(self) }),
    {
        if self.shown != ProgressDisplay::Nothing {
            self.shown = told;
        }
    }

    /// What is shown as it appears.
    fn presentation(&self) -> (result: ProgressDisplay)
        ensures
            result == self.presented(),
    {
        match self.transfer {
            Some((completed, transferred, total)) => ProgressDisplay::Transfer(
                transfer_progress_status(completed, self.total, transferred, total),
            ),
            None => ProgressDisplay::Items { completed: self.completed, total: self.total },
        }
    }

    /// An operation begins; answers whether its progress is shown at once rather than after a
    /// while.
    pub fn begin(&mut self, total: usize) -> (result: bool)
        ensures
            result == (total == 0 || total >= 16),
            *final(self) == OperationProgress::started(total),
    {
        let at_once: bool = should_show_progress_immediately(total);
        *self = OperationProgress {
            completed: 0,
            total,
            transfer: None,
            pending: !at_once,
            shown: if at_once {
                ProgressDisplay::Items { completed: 0, total }
            } else {
                ProgressDisplay::Nothing
            },
        };
        at_once
    }

    /// The while is over: the progress is shown, unless the operation ended first.
    pub fn delay_passed(&mut self)
        ensures
            *final(self) == old(self).after_delay(),
    {
        if self.pending {
            self.pending = false;
            self.shown = self.presentation();
        }
    }

    /// A transfer went on.
    pub fn update_transfer(
        &mut self,
        completed_items: usize,
        transferred_bytes: u64,
        total_bytes: Option<u64>,
    )
        ensures
            *final(self) == old(self).after_transfer(
                completed_items,
                transferred_bytes,
                total_bytes,
            ),
    {
        self.transfer = Some((completed_items, transferred_bytes, total_bytes));
        let status: TransferStatus = transfer_progress_status(
            completed_items,
            self.total,
            transferred_bytes,
            total_bytes,
        );
        self.tell(ProgressDisplay::Transfer(status));
    }

    /// An operation item by item went on.
    pub fn update_items(&mut self, completed: usize, total: usize)
        ensures
            *final(self) == old(self).after_items(completed, total),
    {
        self.completed = completed;
        self.total = total;
        self.tell(ProgressDisplay::Items { completed, total });
    }

    /// An archive operation went on.
    pub fn update_archive(&mut self, completed: usize, total: usize)
        ensures
            *final(self) == old(self).after_archive(completed, total),
    {
        self.tell(ProgressDisplay::Archive { completed, total });
    }

    /// The emptying of the trash went on.
    pub fn update_emptied(&mut self, processed: usize)
        ensures
            *final(self) == old(self).after_emptied(processed),
    {
        self.tell(ProgressDisplay::Emptied(processed));
    }

    /// The operation ended.
    pub fn dismiss(&mut self)
        ensures
            *final(self) == OperationProgress::ended(),
    {
        *self = OperationProgress::idle();
    }
}

proof fn lemma_flagged_partition<T>(items: Seq<T>, flags: Seq<bool>)
    requires
        items.len() <= flags.len(),
    ensures
        flagged(items, flags).to_multiset().add(flagged(items, negated(flags)).to_multiset())
            == items.to_multiset(),
        flagged(items, flags).len() + flagged(items, negated(flags)).len() == items.len(),
    decreases items.len(),
{
    broadcast use vstd::seq_lib::group_to_multiset_ensures;

    if items.len() == 0 {
        assert(flagged(items, flags) == items);
        assert(items.to_multiset() =~= vstd::multiset::Multiset::<T>::empty());
    } else {
        let front = items.drop_last();
        let last = items.last();
        lemma_flagged_partition(front, flags);
        assert(front.push(last) == items);
        let kept = flagged(front, flags).to_multiset();
        let left = flagged(front, negated(flags)).to_multiset();
        if flags[items.len() - 1] {
            assert(kept.insert(last).add(left) =~= kept.add(left).insert(last));
        } else {
            assert(kept.add(left.insert(last)) =~= kept.add(left).insert(last));
        }
    }
}

/// Preparing a transfer loses no source and adds none: each either goes along at once or is asked
/// about.
pub proof fn law_preparation_keeps_every_source(sources: Seq<Location>, collides: Seq<bool>)
    requires
        collides.len() == sources.len(),
    ensures
        flagged(sources, collides).to_multiset().add(
            flagged(sources, negated(collides)).to_multiset(),
        ) == sources.to_multiset(),
        flagged(sources, collides).len() + flagged(sources, negated(collides)).len()
            == sources.len(),
{
    lemma_flagged_partition(sources, collides);
}

/// Every choice brings the questions closer to their end, and one for all of them ends them.
pub proof fn law_choices_end<T>(preparation: Preparation<T>, apply_to_all: bool)
    requires
        preparation.collisions@.len() > 0,
    ensures
        preparation.collisions_after(apply_to_all).len() < preparation.collisions@.len(),
        apply_to_all ==> preparation.collisions_after(apply_to_all).len() == 0,
{
}

/// Nothing that exists is overwritten unasked: whatever a choice adds replaces by that choice, a
/// skipped item adds nothing, and what was accepted before stays as it is.
pub proof fn law_only_chosen_items_replace<T>(
    preparation: Preparation<T>,
    choice: ConflictChoice,
    apply_to_all: bool,
    i: int,
)
    requires
        preparation.collisions@.len() > 0,
        0 <= i < preparation.accepted_after(choice, apply_to_all).len(),
    ensures
        i < preparation.accepted@.len() ==> preparation.accepted_after(choice, apply_to_all)[i]
            == preparation.accepted@[i],
        i >= preparation.accepted@.len() ==> choice is Replace && preparation.accepted_after(
            choice,
            apply_to_all,
        )[i].conflict is ReplaceExisting && preparation.collisions@.contains(
            preparation.accepted_after(choice, apply_to_all)[i].item,
        ),
{
    let collisions = preparation.collisions@;
    if i >= preparation.accepted@.len() && choice is Replace {
        let k = i - preparation.accepted@.len();
        assert(collisions[k] == preparation.accepted_after(choice, apply_to_all)[i].item);
    }
}

/// An operation that ended shows nothing, even where its while passes afterwards.
pub proof fn law_ended_operation_stays_hidden()
    ensures
        OperationProgress::ended().shown is Nothing,
        OperationProgress::ended().after_delay().shown is Nothing,
{
}

/// Nothing that is chosen for replacement is lost, and nothing else goes along: the items that the
/// choice covers, the one asked about or all that wait, are put behind what was accepted, in their
/// order, and the others wait on in theirs.
pub proof fn law_replaced_items_go_along<T>(
    preparation: Preparation<T>,
    apply_to_all: bool,
    i: int,
)
    requires
        preparation.collisions@.len() > 0,
    ensures
        ({
            let before = preparation.accepted@;
            let asked = preparation.collisions@;
            let covered = if apply_to_all {
                asked.len() as int
            } else {
                1
            };
            let accepted = preparation.accepted_after(ConflictChoice::Replace, apply_to_all);
            let waiting = preparation.collisions_after(apply_to_all);
            &&& accepted.len() == before.len() + covered
            &&& 0 <= i < before.len() ==> accepted[i] == before[i]
            &&& 0 <= i < covered ==> accepted[before.len() + i] == (Accepted {
                item: asked[i],
                conflict: TransferConflict::ReplaceExisting,
            })
            &&& waiting.len() == asked.len() - covered
            &&& 0 <= i < waiting.len() ==> waiting[i] == asked[covered + i]
            &&& accepted.len() + waiting.len() == before.len() + asked.len()
        }),
{
}

/// A skipped item does not go along, and is the only one that does not: what was accepted stays, and
/// what the choice does not cover waits on.
pub proof fn law_skipped_items_stay_behind<T>(
    preparation: Preparation<T>,
    apply_to_all: bool,
    i: int,
)
    requires
        preparation.collisions@.len() > 0,
    ensures
        preparation.accepted_after(ConflictChoice::Skip, apply_to_all) == preparation.accepted@,
        apply_to_all ==> preparation.collisions_after(apply_to_all).len() == 0,
        !apply_to_all ==> preparation.collisions_after(apply_to_all).len()
            == preparation.collisions@.len() - 1,
        !apply_to_all && 0 <= i < preparation.collisions@.len() - 1
            ==> preparation.collisions_after(apply_to_all)[i] == preparation.collisions@[i + 1],
{
}

/// Replacing one item after the other comes to the same as replacing all of them at once.
pub proof fn law_replacing_one_by_one_is_replacing_all<T>(
    preparation: Preparation<T>,
    next: Preparation<T>,
)
    requires
        preparation.collisions@.len() > 0,
        next.accepted@ == preparation.accepted_after(ConflictChoice::Replace, false),
        next.collisions@ == preparation.collisions_after(false),
    ensures
        next.accepted_after(ConflictChoice::Replace, true) == preparation.accepted_after(
            ConflictChoice::Replace,
            true,
        ),
        next.accepted_after(ConflictChoice::Skip, true) == next.accepted@,
{
    assert(next.accepted_after(ConflictChoice::Replace, true) =~= preparation.accepted_after(
        ConflictChoice::Replace,
        true,
    ));
}

/// Every item is told with what is done where its name is taken, in order, and flags are turned over
/// one by one.
pub proof fn law_items_are_accepted_in_order<T>(
    items: Seq<T>,
    conflict: TransferConflict,
    flags: Seq<bool>,
    i: int,
)
    ensures
        accepted_all(items, conflict).len() == items.len(),
        0 <= i < items.len() ==> accepted_all(items, conflict)[i] == (Accepted {
            item: items[i],
            conflict,
        }),
        negated(flags).len() == flags.len(),
        0 <= i < flags.len() ==> negated(flags)[i] != flags[i],
{
}

/// What is on the disk decides each source alone: one whose name is free goes along and never
/// replaces, and one whose name is taken is asked about, each in the order of the sources.
pub proof fn law_taken_names_are_asked_about(
    left: Seq<Location>,
    right: Seq<Location>,
    left_taken: Seq<bool>,
    right_taken: Seq<bool>,
    source: Location,
)
    requires
        left.len() == left_taken.len(),
        right.len() == right_taken.len(),
    ensures
        flagged(left + right, left_taken + right_taken) == flagged(left, left_taken) + flagged(
            right,
            right_taken,
        ),
        flagged(left + right, negated(left_taken + right_taken)) == flagged(
            left,
            negated(left_taken),
        ) + flagged(right, negated(right_taken)),
        flagged(seq![source], seq![true]) == seq![source],
        flagged(seq![source], negated(seq![true])) == Seq::<Location>::empty(),
        flagged(seq![source], seq![false]) == Seq::<Location>::empty(),
        flagged(seq![source], negated(seq![false])) == seq![source],
{
    crate::cut::law_flags_keep_items_in_order(left, right, left_taken, right_taken, source, true);
    crate::cut::law_flags_keep_items_in_order(left, right, left_taken, right_taken, source, false);
    crate::cut::law_flags_keep_items_in_order(
        left,
        right,
        negated(left_taken),
        negated(right_taken),
        source,
        true,
    );
    assert(negated(left_taken + right_taken) =~= negated(left_taken) + negated(right_taken));
    assert(negated(seq![true]) =~= seq![false]);
    assert(negated(seq![false]) =~= seq![true]);
}

/// A prompt is answered by its two buttons and by the enter key, which replaces; whatever else closes
/// it chooses nothing.
pub proof fn law_enter_replaces(input: PromptInput)
    ensures
        prompt_choice(PromptInput::Enter) == prompt_choice(PromptInput::Replace),
        prompt_choice(PromptInput::Replace) == Some(ConflictChoice::Replace),
        prompt_choice(PromptInput::Skip) == Some(ConflictChoice::Skip),
        prompt_choice(input) == Some(ConflictChoice::Skip) ==> input is Skip,
        prompt_choice(input) is None <==> input is Cancel || input is Escape || input is Backdrop,
{
}

/// An item that was moved goes back exactly if it is still where it was moved to: at once where its
/// old place is free, and after a question where it is taken. One that is gone does neither.
pub proof fn law_moved_items_go_back_where_they_can(
    current_exists: Seq<bool>,
    original_exists: Seq<bool>,
    i: int,
)
    requires
        current_exists.len() == original_exists.len(),
        0 <= i < current_exists.len(),
    ensures
        free_to_return(current_exists, original_exists).len() == current_exists.len(),
        hindered(current_exists, original_exists).len() == current_exists.len(),
        free_to_return(current_exists, original_exists)[i] || hindered(
            current_exists,
            original_exists,
        )[i] <==> current_exists[i],
        free_to_return(current_exists, original_exists)[i] ==> !original_exists[i],
        hindered(current_exists, original_exists)[i] ==> original_exists[i],
{
}

/// A move goes back once nothing is left to ask about, and only with items that were accepted; where
/// none was, it is given up.
pub proof fn law_undo_goes_on_until_decided(undo: PendingUndo)
    ensures
        undo.continued() is Ask <==> undo.items.collisions@.len() > 0,
        undo.continued() is Discard <==> undo.items.collisions@.len() == 0
            && undo.items.accepted@.len() == 0,
        undo.continued() matches PendingUndoStep::Undo { generation, items } ==> generation
            == undo.generation && items@ == undo.items.accepted@ && items@.len() > 0,
        undo.continued() matches PendingUndoStep::Discard(generation) ==> generation
            == undo.generation,
        undo.continued() matches PendingUndoStep::Ask { undo: asked, has_more } ==> asked == undo
            && has_more == (undo.items.collisions@.len() >= 2),
{
}

/// The question about a taken name tells the name in quotes, then the place, and then what follows.
pub proof fn law_questions_tell_name_and_place(
    name: Seq<char>,
    place: Seq<char>,
    consequence: Seq<char>,
)
    ensures
        conflict_text(name, place, consequence) == ("An item named "@ + seq!['\u{201c}'] + name
            + seq!['\u{201d}'] + " already exists in "@) + place + consequence,
{
    reveal_strlit("An item named \u{201c}");
    reveal_strlit("\u{201d} already exists in ");
    reveal_strlit("An item named ");
    reveal_strlit(" already exists in ");
    assert(conflict_text(name, place, consequence) =~= ("An item named "@ + seq!['\u{201c}'] + name
        + seq!['\u{201d}'] + " already exists in "@) + place + consequence);
}

/// Entries are in one folder exactly if each of them has one, and has that one.
pub proof fn law_one_folder_holds_all(
    parents: Seq<Option<Location>>,
    parent: Option<Location>,
    folder: Place,
)
    ensures
        all_in(Seq::empty(), folder),
        all_in(parents.push(parent), folder) <==> all_in(parents, folder) && parent is Some
            && parent->0@.place() == folder,
{
    let longer = parents.push(parent);
    if all_in(longer, folder) {
        assert forall|i: int| 0 <= i < parents.len() implies (#[trigger] parents[i] matches Some(
            inner,
        ) && inner@.place() == folder) by {
            assert(longer[i] == parents[i]);
        }
        assert(longer[parents.len() as int] == parent);
    }
}

/// The button tells what a press on it does: move or copy, after a folder is created or right away,
/// and that a folder is being created.
pub proof fn law_button_tells_what_it_does(move_sources: bool)
    ensures
        label_text(ConfirmLabel::TransferHere, move_sources) == (if move_sources {
            "Move"@
        } else {
            "Copy"@
        }) + " here"@,
        label_text(ConfirmLabel::CreateAndTransfer, move_sources) == "Create and "@ + (
        if move_sources {
            "move"@
        } else {
            "copy"@
        }),
        label_text(ConfirmLabel::Creating, move_sources) == "Creating folder…"@,
{
    reveal_strlit("Move here");
    reveal_strlit("Copy here");
    reveal_strlit("Create and move");
    reveal_strlit("Create and copy");
    reveal_strlit("Move");
    reveal_strlit("Copy");
    reveal_strlit("move");
    reveal_strlit("copy");
    reveal_strlit(" here");
    reveal_strlit("Create and ");
    assert("Move here"@ =~= "Move"@ + " here"@);
    assert("Copy here"@ =~= "Copy"@ + " here"@);
    assert("Create and move"@ =~= "Create and "@ + "move"@);
    assert("Create and copy"@ =~= "Create and "@ + "copy"@);
}

/// A press transfers at once into a folder that is there, and changes nothing of the dialog. What is
/// there and no folder is refused, and nothing is created in its place. What is not there is created
/// only if exactly that path was announced; otherwise it is announced now. Whatever happens, the same
/// entries are moved or copied.
pub proof fn law_press_transfers_creates_or_asks(
    dialog: TransferDialog,
    path: Seq<char>,
    exists: bool,
    is_directory: bool,
    home: Seq<char>,
    after: TransferDialog,
    step: ConfirmStep,
)
    requires
        is_directory ==> exists,
        dialog.pressed(path, exists, is_directory, home, &after, step),
    ensures
        after.entries == dialog.entries && after.move_sources == dialog.move_sources,
        step is Transfer <==> is_directory,
        is_directory ==> after == dialog,
        step is CreateFolder <==> !exists && (dialog.pending_creation matches Some(pending)
            && path_parts(pending@) == path_parts(path)),
        step is CreateFolder ==> (after.creating matches Some(made) && made@ == path) && after.label
            is Creating && after.message == dialog.message && after.pending_creation
            == dialog.pending_creation,
        step !is CreateFolder ==> after.creating == dialog.creating,
        exists && !is_directory ==> after.pending_creation == dialog.pending_creation && after.label
            == dialog.label && (after.message matches FieldMessage::Error(text) && text@
            == "The destination exists, but it is not a folder."@),
        !exists && step is Stay ==> (after.pending_creation matches Some(pending) && pending@ == path)
            && after.label is CreateAndTransfer && (after.message matches FieldMessage::Warning(text)
            && text@ == compacted(path, home)
            + " does not exist. It will be created before the items are transferred."@),
{
}

/// Once the folder is made, the transfer starts. Where it could not be made, the dialog can be used
/// again, tells why as far as it is known, and transfers nothing.
pub proof fn law_transfer_waits_for_the_folder(
    dialog: TransferDialog,
    error: Option<Option<&str>>,
    after: TransferDialog,
    step: ConfirmStep,
)
    requires
        dialog.created(worded(error), &after, step),
    ensures
        after.entries == dialog.entries && after.move_sources == dialog.move_sources,
        after.pending_creation == dialog.pending_creation,
        step is Transfer <==> error is None,
        step is Stay <==> error is Some,
        error is None ==> after == dialog,
        error is Some ==> after.creating is None && after.label is TransferHere,
        error matches Some(Some(reason)) ==> (after.message matches FieldMessage::Error(text) && text@
            == "Unable to create that folder"@ + ": "@ + reason@),
        error matches Some(None) ==> (after.message matches FieldMessage::Error(text) && text@
            == "Unable to create that folder"@ + "."@),
{
    reveal_strlit("Unable to create that folder: ");
    reveal_strlit("Unable to create that folder.");
    reveal_strlit("Unable to create that folder");
    reveal_strlit(": ");
    reveal_strlit(".");
    assert("Unable to create that folder: "@ =~= "Unable to create that folder"@ + ": "@);
    assert("Unable to create that folder."@ =~= "Unable to create that folder"@ + "."@);
}

proof fn lemma_names_present_parts(
    left: Seq<Option<Seq<char>>>,
    right: Seq<Option<Seq<char>>>,
    name: Seq<char>,
)
    ensures
        names_present(left + right) == names_present(left) + names_present(right),
        names_present(seq![Some(name)]) == seq![name],
        names_present(seq![None]) == Seq::<Seq<char>>::empty(),
    decreases right.len(),
{
    reveal_with_fuel(names_present, 2);
    assert(names_present(seq![Some(name)]) =~= seq![name]);
    if right.len() == 0 {
        assert(left + right =~= left);
        assert(names_present(left) + names_present(right) =~= names_present(left));
    } else {
        lemma_names_present_parts(left, right.drop_last(), name);
        assert((left + right).drop_last() =~= left + right.drop_last());
        assert(names_present(left + right) =~= names_present(left) + names_present(right));
    }
}

/// What arrives is selected by name: every source on the local file system that has a name gives that
/// name, in the order of the sources, and no other source gives any.
pub proof fn law_arriving_items_are_selected_by_name(
    left: Seq<Location>,
    right: Seq<Location>,
    source: Location,
)
    ensures
        arriving(left + right) == arriving(left) + arriving(right),
        source@ is Uri ==> arriving(seq![source]) == Seq::<Seq<char>>::empty(),
        source@ matches LocationView::Native(path) ==> arriving(seq![source]) == match path_file_name(
            path,
        ) {
            Some(name) => seq![name],
            None => Seq::empty(),
        },
{
    let named = |location: LocationView| native_name(location);
    let names_left = location_views(left).map_values(named);
    let names_right = location_views(right).map_values(named);
    lemma_names_present_parts(names_left, names_right, Seq::empty());
    assert(location_views(left + right).map_values(named) =~= names_left + names_right);
    let one = location_views(seq![source]).map_values(named);
    assert(one =~= seq![native_name(source@)]);
    if native_name(source@) is Some {
        lemma_names_present_parts(one, one, native_name(source@)->0);
    } else {
        lemma_names_present_parts(one, one, Seq::empty());
    }
}

/// The bytes tell how far a transfer has come wherever their number is known and not nothing, and the
/// items where the bytes add up to nothing. Where no number is known, what was done so far is told:
/// bytes rather than items. Nothing done and nothing known is a preparation.
pub proof fn law_progress_is_told_by_what_is_known(
    completed: usize,
    items: usize,
    transferred: u64,
    bytes: Option<u64>,
)
    ensures
        bytes is Some && bytes->0 > 0 ==> (transfer_status(completed, items, transferred, bytes)
            matches TransferStatus::ByteShare { transferred: done, bytes: whole, at_least_one_percent }
            && done == transferred && whole == bytes->0 && at_least_one_percent == (transferred
            != 0)),
        bytes == Some(0u64) && items > 0 ==> transfer_status(completed, items, transferred, bytes)
            == (TransferStatus::ItemShare { completed, items }),
        bytes is None && transferred > 0 ==> transfer_status(completed, items, transferred, bytes)
            == TransferStatus::Bytes(transferred),
        bytes is None && transferred == 0 && completed > 0 ==> transfer_status(
            completed,
            items,
            transferred,
            bytes,
        ) == TransferStatus::Items(completed),
        transfer_status(completed, items, transferred, bytes) is Preparing <==> (bytes is None
            && transferred == 0 && completed == 0) || (bytes == Some(0u64) && items == 0),
{
}

/// Progress is told only while it is shown, and telling it shows nothing by itself. It is shown at
/// once for an unknown number of items and for sixteen or more, and otherwise only once a while has
/// passed.
pub proof fn law_progress_appears_after_a_while(
    progress: OperationProgress,
    total: usize,
    completed: usize,
    transferred: u64,
    bytes: Option<u64>,
)
    ensures
        OperationProgress::started(total).shown is Nothing <==> 1 <= total <= 15,
        OperationProgress::started(total).pending == (OperationProgress::started(total).shown
            is Nothing),
        OperationProgress::started(total).total == total,
        OperationProgress::started(total).completed == 0,
        OperationProgress::started(total).transfer is None,
        OperationProgress::started(total).after_delay().shown == (ProgressDisplay::Items {
            completed: 0,
            total,
        }),
        !progress.after_delay().pending,
        !progress.pending ==> progress.after_delay().shown == progress.shown,
        progress.shown is Nothing ==> progress.after_transfer(completed, transferred, bytes).shown
            is Nothing && progress.after_items(completed, total).shown is Nothing
            && progress.after_archive(completed, total).shown is Nothing && progress.after_emptied(
            completed,
        ).shown is Nothing,
        progress.shown !is Nothing ==> {
            &&& progress.after_transfer(completed, transferred, bytes).shown
                == ProgressDisplay::Transfer(
                transfer_status(completed, progress.total, transferred, bytes),
            )
            &&& progress.after_items(completed, total).shown == (ProgressDisplay::Items {
                completed,
                total,
            })
            &&& progress.after_archive(completed, total).shown == (ProgressDisplay::Archive {
                completed,
                total,
            })
            &&& progress.after_emptied(completed).shown == ProgressDisplay::Emptied(completed)
        },
{
}

/// What was told before the while has passed is shown then: of a transfer how far it came last, and of
/// anything else the share of its items. Telling changes nothing else.
pub proof fn law_last_word_is_shown(
    progress: OperationProgress,
    total: usize,
    completed: usize,
    transferred: u64,
    bytes: Option<u64>,
)
    requires
        progress.pending,
    ensures
        progress.after_transfer(completed, transferred, bytes).after_delay().shown
            == ProgressDisplay::Transfer(
            transfer_status(completed, progress.total, transferred, bytes),
        ),
        progress.transfer is None ==> progress.after_items(completed, total).after_delay().shown == (
        ProgressDisplay::Items { completed, total }),
        progress.after_transfer(completed, transferred, bytes).completed == progress.completed,
        progress.after_transfer(completed, transferred, bytes).total == progress.total,
        progress.after_transfer(completed, transferred, bytes).pending,
        progress.after_items(completed, total).transfer == progress.transfer,
        progress.after_items(completed, total).completed == completed,
        progress.after_items(completed, total).total == total,
        progress.after_items(completed, total).pending,
        progress.after_archive(completed, total).pending,
        progress.after_archive(completed, total).transfer == progress.transfer,
        progress.after_archive(completed, total).completed == progress.completed,
        progress.after_archive(completed, total).total == progress.total,
        progress.after_emptied(completed).pending,
        progress.after_emptied(completed).transfer == progress.transfer,
        progress.after_emptied(completed).total == progress.total,
        progress.after_emptied(completed).completed == progress.completed,
        !OperationProgress::ended().pending,
        OperationProgress::ended().transfer is None,
{
}

} // verus!
