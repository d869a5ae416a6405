//! Measuring and emptying the trash from the view: what is shown meanwhile, and what is left to do
//! once it ends or is cancelled.

use crate::location::{Location, LocationView};
use crate::text::views;
use crate::transfer::OperationProgress;
use crate::trash::{
    empty_trash_error_summary, error_summary, measures_trash, trash_summary_outcome,
    EmptyTrashOutcome, QuestionInput, TrashSummary, TrashSummaryOutcome,
};
use crate::view::{BrowserView, OperationsModel};
use vstd::prelude::*;

verus! {

/// What the end of an emptying of the trash leads to.
#[derive(Debug)]
pub enum EmptiedStep {
    /// Nothing: it was cancelled before.
    Ignored,
    /// The panes at the location are read again, and what went wrong is told.
    Refresh { place: Location, error: Option<(&'static str, String)> },
    /// It is told that the trash could not be emptied.
    Fail { title: &'static str, detail: String },
}

/// What the question before the trash is emptied leads to.
#[derive(Clone, Copy, Debug, PartialEq, Eq, Structural)]
pub struct EmptyTrashAnswer {
    /// Whether the trash is emptied.
    pub empties: bool,
    /// Whether the listing has the focus.
    pub focus_listing: bool,
}

impl OperationsModel {
    /// The measuring of the trash has ended or was cancelled.
    pub open spec fn measuring_cleared(self) -> Self {
        OperationsModel { measuring_trash: false, ..self }
    }

    /// The emptying of the trash has ended or was cancelled.
    pub open spec fn emptying_cleared(self) -> Self {
        OperationsModel {
            emptying_trash: false,
            progress: OperationProgress::ended(),
            ..self
        }
    }

    /// The trash is being emptied, and nothing of it is gone yet.
    pub open spec fn emptying_begun(self) -> Self {
        OperationsModel {
            emptying_trash: true,
            progress: OperationProgress::started(0).after_emptied(0),
            ..self
        }
    }
}

/// What the end of a measurement of the trash leads to.
pub open spec fn measured_outcome(
    measuring: bool,
    summary: Result<TrashSummary, String>,
) -> TrashSummaryOutcome {
    if !measuring {
        TrashSummaryOutcome::Nothing
    } else {
        match summary {
            Ok(summary) => if summary.item_count > 0 {
                TrashSummaryOutcome::Confirm(summary)
            } else {
                TrashSummaryOutcome::Nothing
            },
            Err(message) => TrashSummaryOutcome::Error(message),
        }
    }
}

/// What the end of an emptying of the trash leads to.
pub open spec fn emptied_to(
    emptying: bool,
    emptied: Result<EmptyTrashOutcome, String>,
    step: EmptiedStep,
) -> bool {
    if !emptying {
        step is Ignored
    } else {
        match emptied {
            Ok(outcome) => {
                &&& step matches EmptiedStep::Refresh { place, error }
                &&& place@ == LocationView::Uri("trash:///"@)
                &&& if outcome.failed == 0 {
                    error is None
                } else {
                    &&& error matches Some((title, detail))
                    &&& title@ == "Completed with errors"@
                    &&& detail@ == error_summary(outcome.failed as nat, views(outcome.errors@))
                }
            },
            Err(message) => {
                &&& step matches EmptiedStep::Fail { title, detail }
                &&& title@ == "Unable to empty Trash"@
                &&& detail == message
            },
        }
    }
}

impl BrowserView {
    /// Begins to measure the trash, unless its pane shows it to be empty; answers whether it did.
    /// The view shows that it is measured.
    pub fn measure_trash(&mut self) -> (result: bool)
        ensures
            result == (old(self).panes@.trash_count() != Some(0usize)),
            final(self).only_operations(old(self)),
            final(self).operations@ == (OperationsModel {
                measuring_trash: result || old(self).operations@.measuring_trash,
                ..old(self).operations@
            }),
    {
        if !measures_trash(self.panes.trash_entry_count()) {
            return false;
        }
        self.operations.measuring_trash = true;
        true
    }

    /// Ends the measuring of the trash, however it comes to that. Nothing changes where it is not
    /// measured.
    pub fn clear_trash_loading(&mut self)
        ensures
            final(self).only_operations(old(self)),
            final(self).operations@ == old(self).operations@.measuring_cleared(),
    {
        self.operations.measuring_trash = false;
    }

    /// Takes what was measured of the trash. Nothing follows where the measuring was cancelled.
    pub fn trash_measured(&mut self, summary: Result<TrashSummary, String>) -> (result:
        TrashSummaryOutcome)
        ensures
            final(self).only_operations(old(self)),
            final(self).operations@ == old(self).operations@.measuring_cleared(),
            result == measured_outcome(old(self).operations@.measuring_trash, summary),
    {
        if !self.operations.measuring_trash {
            return TrashSummaryOutcome::Nothing;
        }
        self.clear_trash_loading();
        trash_summary_outcome(summary)
    }

    /// Begins to empty the trash. How far it has come is shown at once.
    fn begin_emptying_trash(&mut self)
        ensures
            final(self).only_operations(old(self)),
            final(self).operations@ == old(self).operations@.emptying_begun(),
    {
        let _at_once: bool = self.operations.progress.begin(0);
        self.operations.progress.update_emptied(0);
        self.operations.emptying_trash = true;
    }

    /// Takes what is done to the question before the trash is emptied, which closes in any case.
    /// Only confirming it begins to empty the trash. The listing has the focus again, unless the
    /// press was beside the question.
    pub fn answer_empty_trash(&mut self, input: QuestionInput) -> (result: EmptyTrashAnswer)
        ensures
            result == (EmptyTrashAnswer {
                empties: input is Confirm,
                focus_listing: input !is Backdrop,
            }),
            final(self).only_operations(old(self)),
            final(self).operations@ == if input is Confirm {
                old(self).operations@.emptying_begun()
            } else {
                old(self).operations@
            },
    {
        let empties: bool = input == QuestionInput::Confirm;
        if empties {
            self.begin_emptying_trash();
        }
        EmptyTrashAnswer { empties, focus_listing: input != QuestionInput::Backdrop }
    }

    /// Takes how much of the trash is gone.
    pub fn trash_emptied_so_far(&mut self, processed: usize)
        ensures
            final(self).only_progress(
                old(self),
                old(self).operations@.progress.after_emptied(processed),
            ),
    {
        self.operations.progress.update_emptied(processed);
    }

    /// Ends the emptying of the trash, however it comes to that, and takes its progress away.
    pub fn clear_empty_trash(&mut self)
        ensures
            final(self).only_operations(old(self)),
            final(self).operations@ == old(self).operations@.emptying_cleared(),
    {
        self.operations.emptying_trash = false;
        self.operations.progress.dismiss();
    }

    /// Takes what the emptying of the trash came to. Nothing follows where it was cancelled.
    pub fn trash_emptied(&mut self, emptied: Result<EmptyTrashOutcome, String>) -> (result:
        EmptiedStep)
        ensures
            final(self).only_operations(old(self)),
            final(self).operations@ == if old(self).operations@.emptying_trash {
                old(self).operations@.emptying_cleared()
            } else {
                old(self).operations@
            },
            emptied_to(old(self).operations@.emptying_trash, emptied, result),
    {
        if !self.operations.emptying_trash {
            return EmptiedStep::Ignored;
        }
        self.clear_empty_trash();
        match emptied {
            Ok(outcome) => {
                let error: Option<(&'static str, String)> = if outcome.failed > 0 {
                    Some(("Completed with errors", empty_trash_error_summary(&outcome)))
                } else {
                    None
                };
                EmptiedStep::Refresh { place: Location::uri("trash:///"), error }
            },
            Err(detail) => EmptiedStep::Fail { title: "Unable to empty Trash", detail },
        }
    }
}

/// Cancelling and ending can both come, in either order: whichever is first leaves nothing for the
/// other to do.
pub proof fn law_cancel_and_end_come_once(
    operations: OperationsModel,
    summary: Result<TrashSummary, String>,
    emptied: Result<EmptyTrashOutcome, String>,
    step: EmptiedStep,
)
    requires
        emptied_to(operations.emptying_cleared().emptying_trash, emptied, step),
    ensures
        operations.measuring_cleared().measuring_cleared() == operations.measuring_cleared(),
        operations.emptying_cleared().emptying_cleared() == operations.emptying_cleared(),
        measured_outcome(
            operations.measuring_cleared().measuring_trash,
            summary,
        ) is Nothing,
        step is Ignored,
{
}

/// Clearing a state ends that work and no other; emptying shows its progress at once, with nothing
/// deleted yet.
pub proof fn law_trash_work_begins_and_ends_alone(operations: OperationsModel)
    ensures
        !operations.measuring_cleared().measuring_trash,
        operations.measuring_cleared() == (OperationsModel { measuring_trash: false, ..operations }),
        !operations.emptying_cleared().emptying_trash,
        operations.emptying_cleared().progress.shown is Nothing,
        operations.emptying_cleared() == (OperationsModel {
            emptying_trash: false,
            progress: operations.emptying_cleared().progress,
            ..operations
        }),
        operations.emptying_begun().emptying_trash,
        operations.emptying_begun().progress.shown == crate::transfer::ProgressDisplay::Emptied(0),
        operations.emptying_begun() == (OperationsModel {
            emptying_trash: true,
            progress: operations.emptying_begun().progress,
            ..operations
        }),
{
}

/// The question whether to empty the trash is put where something is in it, and only while that is
/// waited for; an error is told in its place.
pub proof fn law_only_a_filled_trash_is_asked_about(
    summary: TrashSummary,
    message: String,
    measuring: bool,
)
    ensures
        !measuring ==> measured_outcome(measuring, Ok(summary)) is Nothing && measured_outcome(
            measuring,
            Err(message),
        ) is Nothing,
        measuring ==> measured_outcome(measuring, Err(message)) == TrashSummaryOutcome::Error(
            message,
        ),
        measuring && summary.item_count != 0 ==> measured_outcome(measuring, Ok(summary))
            == TrashSummaryOutcome::Confirm(summary),
        summary.item_count == 0 ==> measured_outcome(measuring, Ok(summary)) is Nothing,
{
}

/// Once the trash was emptied, its panes are read again, and an error is told exactly where something
/// could not be deleted. Where it could not be emptied at all, that is told. Nothing is where it was
/// cancelled before.
pub proof fn law_emptied_trash_is_read_again(
    outcome: EmptyTrashOutcome,
    message: String,
    step: EmptiedStep,
    failure: EmptiedStep,
    late: EmptiedStep,
)
    requires
        emptied_to(true, Ok(outcome), step),
        emptied_to(true, Err(message), failure),
        emptied_to(false, Ok(outcome), late),
    ensures
        late is Ignored,
        step is Refresh,
        step->place@.is_trash_root(),
        step->error is Some <==> outcome.failed > 0,
        step->error matches Some((title, detail)) ==> title@ == "Completed with errors"@ && detail@
            == error_summary(outcome.failed as nat, views(outcome.errors@)),
        failure matches EmptiedStep::Fail { title, detail } && title@ == "Unable to empty Trash"@
            && detail == message,
{
}

} // verus!
