//! Going to a location that was typed: what is tried, what is mounted, and what is told.

use crate::location::Location;
use crate::mount::{
    credentials_from_location_input, reads_as_uri, submitted_location, LocationValidationError,
    MountCredentials, MountOutcome, MountStrategy, OpeningStep, UriCredentials,
};
use crate::view::{BrowserView, OperationsModel, ViewSettings};
use vstd::prelude::*;

verus! {

/// What submitting a typed location leads to.
#[derive(Debug)]
pub enum SubmissionStep {
    /// The field holds the location in view again, and the error is told.
    Reject { title: &'static str, detail: String },
    /// The view tries to go to the input, which the field shows where `show_input` says so.
    Navigate { input: String, show_input: bool },
}

/// What the answer to a typed location leads to.
#[derive(Debug)]
pub enum NavigationStep {
    /// The listing has the focus.
    FocusListing,
    /// The location is mounted first, with the credentials given for it.
    Mount { target: Location, strategy: MountStrategy, credentials: Option<MountCredentials> },
    /// The field holds the location in view again, and the error is told.
    Reject { title: &'static str, detail: String },
}

/// What an attempt to mount a typed location leads to.
#[derive(Debug)]
pub enum MountedStep {
    /// The view goes to the location, and the listing has the focus.
    Navigate,
    /// The credentials are asked for again.
    AskAgain,
    /// The field holds the location in view again, and the error is told where there is any.
    Reject { title: &'static str, detail: Option<String> },
}

/// The credentials that a typed location carried, as they are used to mount it.
pub open spec fn carried_as(
    carried: Option<UriCredentials>,
    credentials: Option<MountCredentials>,
) -> bool {
    match carried {
        None => credentials is None,
        Some(found) => credentials matches Some(told) && !told.anonymous && told.username
            == found.username && told.domain@ == Seq::<char>::empty() && told.password
            == found.password && told.save is Never,
    }
}

impl BrowserView {
    /// Only how the location is shown, and the credentials typed with it, may be others.
    pub open spec fn same_but_location(&self, other: &BrowserView) -> bool {
        &&& self.settings == (ViewSettings {
            editing_location: self.settings.editing_location,
            ..other.settings
        })
        &&& self.panes == other.panes
        &&& self.peek == other.peek
        &&& self.edits == other.edits
        &&& self.operations@ == (OperationsModel {
            credentials: self.operations@.credentials,
            ..other.operations@
        })
    }

    /// What submitting `input` leads to. `sanitized` is what was made of a URI: one that cannot be
    /// read is rejected, and anything else is gone to, without the credentials it carried.
    pub open spec fn submitted(
        &self,
        input: Seq<char>,
        sanitized: Result<(String, Option<UriCredentials>), String>,
        after: &BrowserView,
        step: SubmissionStep,
    ) -> bool {
        &&& after.same_but_location(self)
        &&& if reads_as_uri(input) {
            match sanitized {
                Err(message) => {
                    &&& step matches SubmissionStep::Reject { title, detail }
                    &&& title@ == "Unable to open location"@
                    &&& detail == message
                    &&& !after.settings.editing_location
                    &&& after.operations@.credentials == self.operations@.credentials
                },
                Ok((uri, carried)) => {
                    &&& step == (SubmissionStep::Navigate {
                        input: uri,
                        show_input: carried is Some,
                    })
                    &&& after.settings == self.settings
                    &&& carried_as(carried, after.operations@.credentials)
                },
            }
        } else {
            &&& step matches SubmissionStep::Navigate { input: typed, show_input }
            &&& typed@ == input
            &&& !show_input
            &&& after.settings == self.settings
            &&& after.operations@.credentials is None
        }
    }

    /// What the answer to a typed location leads to. The credentials typed with it are used up by
    /// mounting it, and dropped by an error.
    pub open spec fn answered(
        &self,
        tried: Result<(), LocationValidationError>,
        after: &BrowserView,
        step: NavigationStep,
    ) -> bool {
        &&& after.same_but_location(self)
        &&& match tried {
            Ok(_) => {
                &&& step is FocusListing
                &&& !after.settings.editing_location
                &&& after.operations@.credentials == self.operations@.credentials
            },
            Err(LocationValidationError::NotMounted(location)) => {
                &&& step == (NavigationStep::Mount {
                    target: location,
                    strategy: MountStrategy::EnclosingVolume,
                    credentials: self.operations@.credentials,
                })
                &&& after.settings == self.settings
                &&& after.operations@.credentials is None
            },
            Err(LocationValidationError::Mountable(location)) => {
                &&& step == (NavigationStep::Mount {
                    target: location,
                    strategy: MountStrategy::Mountable,
                    credentials: self.operations@.credentials,
                })
                &&& after.settings == self.settings
                &&& after.operations@.credentials is None
            },
            Err(LocationValidationError::Other(message)) => {
                &&& step matches NavigationStep::Reject { title, detail }
                &&& title@ == "Unable to open location"@
                &&& detail == message
                &&& !after.settings.editing_location
                &&& after.operations@.credentials is None
            },
        }
    }

    /// Takes the location that was typed. `sanitized` is what was made of a URI; anything else is
    /// gone to as typed.
    pub fn submit_location(
        &mut self,
        input: &str,
        sanitized: Result<(String, Option<UriCredentials>), String>,
    ) -> (result: SubmissionStep)
        ensures
            old(self).submitted(input@, sanitized, final(self), result),
    {
        match credentials_from_location_input(input, sanitized) {
            Err(detail) => {
                self.settings.editing_location = false;
                SubmissionStep::Reject { title: "Unable to open location", detail }
            },
            Ok((opened, credentials)) => {
                let show_input: bool = credentials.is_some();
                self.operations.credentials = credentials;
                SubmissionStep::Navigate { input: opened, show_input }
            },
        }
    }

    /// Takes the answer to a typed location.
    pub fn location_answered(&mut self, tried: Result<(), LocationValidationError>) -> (result:
        NavigationStep)
        ensures
            old(self).answered(tried, final(self), result),
    {
        match submitted_location(tried, &mut self.operations.credentials) {
            OpeningStep::Opened => {
                self.settings.editing_location = false;
                NavigationStep::FocusListing
            },
            OpeningStep::Mount { location, strategy, credentials } => NavigationStep::Mount {
                target: location,
                strategy,
                credentials,
            },
            OpeningStep::Reject(detail) => {
                self.settings.editing_location = false;
                NavigationStep::Reject { title: "Unable to open location", detail }
            },
        }
    }

    /// Takes the end of an attempt to mount a typed location. The location is shown as a trail
    /// again, unless credentials are asked for once more.
    pub fn location_mounted(&mut self, outcome: MountOutcome) -> (result: MountedStep)
        ensures
            match outcome {
                MountOutcome::Mounted => result is Navigate,
                MountOutcome::AskAgain => result is AskAgain,
                MountOutcome::Failed(message) => result matches MountedStep::Reject { title, detail }
                    && title@ == "Unable to connect"@ && detail == message,
            },
            *final(self) == (BrowserView {
                settings: ViewSettings {
                    editing_location: outcome is AskAgain && old(self).settings.editing_location,
                    ..old(self).settings
                },
                ..*old(self)
            }),
    {
        match outcome {
            MountOutcome::Mounted => {
                self.settings.editing_location = false;
                MountedStep::Navigate
            },
            MountOutcome::AskAgain => MountedStep::AskAgain,
            MountOutcome::Failed(detail) => {
                self.settings.editing_location = false;
                MountedStep::Reject { title: "Unable to connect", detail }
            },
        }
    }
}

/// The credentials typed along with a location reach the attempt to mount it, and are then
/// forgotten.
pub proof fn law_typed_credentials_are_used_once(
    before: BrowserView,
    input: Seq<char>,
    uri: String,
    carried: Option<UriCredentials>,
    between: BrowserView,
    step: SubmissionStep,
    location: Location,
    after: BrowserView,
    answer: NavigationStep,
)
    requires
        reads_as_uri(input),
        before.submitted(input, Ok((uri, carried)), &between, step),
        between.answered(Err(LocationValidationError::NotMounted(location)), &after, answer)
            || between.answered(Err(LocationValidationError::Mountable(location)), &after, answer),
    ensures
        answer matches NavigationStep::Mount { target, credentials, .. } && target == location
            && carried_as(carried, credentials),
        after.operations@.credentials is None,
{
}

/// A typed address that cannot be read is turned away with its error, and the field is left; one that
/// can be read is gone to with the credentials in it taken out, and shown without them. Any other text
/// is gone to as it was typed, without credentials.
pub proof fn law_typed_locations_are_gone_to(
    before: BrowserView,
    input: Seq<char>,
    sanitized: Result<(String, Option<UriCredentials>), String>,
    after: BrowserView,
    step: SubmissionStep,
)
    requires
        before.submitted(input, sanitized, &after, step),
    ensures
        step is Reject <==> reads_as_uri(input) && sanitized is Err,
        step matches SubmissionStep::Reject { title, detail } ==> title@
            == "Unable to open location"@ && sanitized == Err::<
            (String, Option<UriCredentials>),
            String,
        >(detail) && !after.settings.editing_location && after.operations@.credentials
            == before.operations@.credentials,
        !reads_as_uri(input) ==> (step matches SubmissionStep::Navigate { input: typed, show_input }
            && typed@ == input && !show_input) && after.operations@.credentials is None,
        reads_as_uri(input) && sanitized is Ok ==> (step matches SubmissionStep::Navigate {
            input: typed,
            show_input,
        } && typed == sanitized->Ok_0.0 && show_input == (sanitized->Ok_0.1 is Some)),
        reads_as_uri(input) && sanitized is Ok && sanitized->Ok_0.1 is None
            ==> after.operations@.credentials is None,
        reads_as_uri(input) && sanitized is Ok && sanitized->Ok_0.1 is Some ==> (
        after.operations@.credentials matches Some(told) && told.username
            == sanitized->Ok_0.1->0.username && told.password == sanitized->Ok_0.1->0.password
            && !told.anonymous && told.domain@.len() == 0 && told.save is Never),
        step is Navigate ==> after.settings == before.settings,
        after.panes == before.panes && after.peek == before.peek && after.edits == before.edits,
        after.settings == (ViewSettings {
            editing_location: after.settings.editing_location,
            ..before.settings
        }),
        after.operations@ == (OperationsModel {
            credentials: after.operations@.credentials,
            ..before.operations@
        }),
{
}

/// A location that could be gone to gives the listing the focus. One that has to be mounted first is,
/// with the credentials at hand, which are then used up. Any other error is told, and the field left.
pub proof fn law_tried_locations_open_mount_or_fail(
    before: BrowserView,
    tried: Result<(), LocationValidationError>,
    after: BrowserView,
    step: NavigationStep,
)
    requires
        before.answered(tried, &after, step),
    ensures
        step is FocusListing <==> tried is Ok,
        tried is Ok ==> !after.settings.editing_location && after.operations@.credentials
            == before.operations@.credentials,
        tried is Err ==> after.operations@.credentials is None,
        tried matches Err(LocationValidationError::NotMounted(location)) ==> step == (
        NavigationStep::Mount {
            target: location,
            strategy: MountStrategy::EnclosingVolume,
            credentials: before.operations@.credentials,
        }) && after.settings == before.settings,
        tried matches Err(LocationValidationError::Mountable(location)) ==> step == (
        NavigationStep::Mount {
            target: location,
            strategy: MountStrategy::Mountable,
            credentials: before.operations@.credentials,
        }) && after.settings == before.settings,
        tried matches Err(LocationValidationError::Other(message)) ==> (
        step matches NavigationStep::Reject { title, detail } && title@
            == "Unable to open location"@ && detail == message) && !after.settings.editing_location,
        after.panes == before.panes && after.peek == before.peek && after.edits == before.edits,
        after.settings == (ViewSettings {
            editing_location: after.settings.editing_location,
            ..before.settings
        }),
        after.operations@ == (OperationsModel {
            credentials: after.operations@.credentials,
            ..before.operations@
        }),
{
}

} // verus!
