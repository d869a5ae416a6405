//! Extracting archives from the view: where to, what is done about a password, and where the view
//! goes afterwards.

use crate::archive::{
    confirm_extract_to, extract_entry, extract_with_password, ArchiveAction, ExtractStart,
    ExtractToStep,
};
use crate::entry::FileEntry;
use crate::events::{answers, asks_for_password, BrowserEvent, EventFacts, Reaction};
use crate::location::{Location, LocationView};
use crate::paths::{resolve_destination_path, resolved_destination};
use crate::view::{BrowserView, OperationsModel};
use vstd::prelude::*;

verus! {

/// What is done to the dialog that asks for the password of an archive.
#[derive(Clone, Copy, Debug, PartialEq, Eq, Structural)]
pub enum PasswordInput {
    Confirm,
    Cancel,
    Close,
    Escape,
    /// A press beside the dialog.
    Backdrop,
}

/// What the dialog that asks for the password of an archive leads to.
#[derive(Debug)]
pub enum PasswordStep {
    /// The dialog stays open.
    Stay,
    /// The dialog closes, and nothing is extracted.
    Dismiss,
    /// The dialog closes, and the archive is extracted into the folder.
    Extract { destination: Location, action: ArchiveAction },
}

/// The archive to try again with a password, once it was asked to be extracted. Nothing changes for
/// one that cannot need any.
pub open spec fn retry_after(
    before: Option<(FileEntry, Location)>,
    may_need_password: bool,
    entry: FileEntry,
    destination: Location,
) -> Option<(FileEntry, Location)> {
    if may_need_password {
        Some((entry, destination))
    } else {
        before
    }
}

impl BrowserView {
    /// Extracts an archive into the folder it is in. One that may need a password is kept in mind,
    /// in case that is why it fails.
    pub fn extract_entry(
        &mut self,
        entry: &FileEntry,
        parent: Option<Location>,
        may_need_password: bool,
    ) -> (result: ExtractStart)
        ensures
            final(self).only_operations(old(self)),
            if entry.location@ is Uri {
                result is Ignored && final(self).operations@ == old(self).operations@
            } else {
                match parent {
                    None => result is NoParent && final(self).operations@ == old(
                        self,
                    ).operations@,
                    Some(destination) => {
                        &&& result == (ExtractStart::Extract {
                            destination,
                            action: ArchiveAction::Extract {
                                archive: entry.location,
                                password: None,
                            },
                        })
                        &&& final(self).operations@ == (OperationsModel {
                            extract_retry: retry_after(
                                old(self).operations@.extract_retry,
                                may_need_password,
                                *entry,
                                destination,
                            ),
                            ..old(self).operations@
                        })
                    },
                }
            },
    {
        let start: ExtractStart = extract_entry(entry, parent);
        match &start {
            ExtractStart::Extract { destination, .. } => {
                if may_need_password {
                    self.operations.extract_retry = Some(
                        (entry.duplicate(), destination.duplicate()),
                    );
                }
            },
            _ => {},
        }
        start
    }

    /// Takes what is typed as the folder that an archive is to be extracted to, seen from `base`,
    /// and what the file system says of the path that it stands for. A folder that is not there was
    /// created first, unless that failed. The view goes there once the archive is extracted.
    pub fn confirm_extract_to(
        &mut self,
        entry: &FileEntry,
        typed: &str,
        base: &str,
        home: &str,
        exists: bool,
        is_directory: bool,
        creation_error: Option<&str>,
        may_need_password: bool,
    ) -> (result: ExtractToStep)
        ensures
            final(self).only_operations(old(self)),
            exists && !is_directory ==> (result matches ExtractToStep::Error(text) && text@
                == "The destination exists, but it is not a folder."@),
            !exists && creation_error is Some ==> (result matches ExtractToStep::Error(text)
                && text@ == "Could not create folder: "@ + creation_error->0@),
            (exists && is_directory) || (!exists && creation_error is None) <==> result is Extract,
            match result {
                ExtractToStep::Error(_) => final(self).operations@ == old(self).operations@,
                ExtractToStep::Extract { destination, action } => {
                    &&& destination@ == LocationView::Native(
                        resolved_destination(typed@, base@, home@),
                    )
                    &&& action == (ArchiveAction::Extract {
                        archive: entry.location,
                        password: None,
                    })
                    &&& final(self).operations@ == (OperationsModel {
                        pending_navigate: Some(destination),
                        extract_retry: retry_after(
                            old(self).operations@.extract_retry,
                            may_need_password,
                            *entry,
                            destination,
                        ),
                        ..old(self).operations@
                    })
                },
            },
    {
        let path: String = resolve_destination_path(typed, base, home);
        let step: ExtractToStep = confirm_extract_to(
            &entry.location,
            path.as_str(),
            exists,
            is_directory,
            creation_error,
        );
        match &step {
            ExtractToStep::Extract { destination, .. } => {
                if may_need_password {
                    self.operations.extract_retry = Some(
                        (entry.duplicate(), destination.duplicate()),
                    );
                }
                self.operations.pending_navigate = Some(destination.duplicate());
            },
            ExtractToStep::Error(_) => {},
        }
        step
    }

    /// Takes what is done to the dialog that asks for the password of an archive. Confirming tries
    /// the archive again. Cancelling gives it up, so that the view goes nowhere. A press beside the
    /// dialog closes it only while nothing is typed.
    pub fn answer_extract_password(
        &mut self,
        archive: &Location,
        destination: &Location,
        typed: String,
        input: PasswordInput,
    ) -> (result: PasswordStep)
        ensures
            final(self).only_operations(old(self)),
            match input {
                PasswordInput::Confirm => {
                    &&& result == (PasswordStep::Extract {
                        destination: *destination,
                        action: ArchiveAction::Extract {
                            archive: *archive,
                            password: if typed@.len() == 0 {
                                None
                            } else {
                                Some(typed)
                            },
                        },
                    })
                    &&& final(self).operations@ == old(self).operations@
                },
                PasswordInput::Cancel | PasswordInput::Close | PasswordInput::Escape => {
                    &&& result is Dismiss
                    &&& final(self).operations@ == (OperationsModel {
                        pending_navigate: None,
                        ..old(self).operations@
                    })
                },
                PasswordInput::Backdrop => {
                    &&& result == if typed@.len() == 0 {
                        PasswordStep::Dismiss
                    } else {
                        PasswordStep::Stay
                    }
                    &&& final(self).operations@ == old(self).operations@
                },
            },
    {
        match input {
            PasswordInput::Confirm => PasswordStep::Extract {
                destination: destination.duplicate(),
                action: extract_with_password(archive, typed),
            },
            PasswordInput::Cancel | PasswordInput::Close | PasswordInput::Escape => {
                self.operations.pending_navigate = None;
                PasswordStep::Dismiss
            },
            PasswordInput::Backdrop => {
                if typed.as_str().is_empty() {
                    PasswordStep::Dismiss
                } else {
                    PasswordStep::Stay
                }
            },
        }
    }
}

/// An archive that was kept in mind is tried again with a password where that is why it failed. It
/// goes where it was to go at first, and the view then goes there as it would have.
pub proof fn law_failed_extraction_asks_for_the_password(
    before: BrowserView,
    entry: FileEntry,
    destination: Location,
    message: String,
    facts: EventFacts,
    after: BrowserView,
    reaction: Reaction,
)
    requires
        before.operations@.extract_retry == Some((entry, destination)),
        asks_for_password(message@),
        answers(&before, BrowserEvent::OperationFailed { message }, facts, &after, reaction),
    ensures
        reaction == (Reaction::AskPassword { archive: entry, destination }),
        after.operations@.extract_retry is None,
        after.operations@.pending_navigate == before.operations@.pending_navigate,
{
}

/// What is extracted is remembered for another try exactly where it may need a password; otherwise
/// what was remembered before stays.
pub proof fn law_protected_archives_are_remembered(
    before: Option<(FileEntry, Location)>,
    entry: FileEntry,
    destination: Location,
)
    ensures
        retry_after(before, true, entry, destination) == Some((entry, destination)),
        retry_after(before, false, entry, destination) == before,
{
}

} // verus!
