//! Connecting to places that have to be mounted first: credentials, the question for them, and what
//! follows from an attempt.

use crate::location::{Location, LocationView};
use crate::text::{
    ascii_lowercase_text, ascii_lowercased, concat_text, contains_text, occurs_in,
};
use vstd::prelude::*;

verus! {

/// How long a password is remembered.
#[derive(Clone, Copy, Debug, PartialEq, Eq, Structural)]
pub enum PasswordSave {
    Never,
    ForSession,
    Permanently,
}

/// How long a password is remembered by the option chosen: the first never, the second until
/// logout, the third forever.
pub fn password_save_for_selection(selected: u32) -> (result: PasswordSave)
    ensures
        result is ForSession <==> selected == 1,
        result is Permanently <==> selected == 2,
        result is Never <==> selected != 1 && selected != 2,
{
    if selected == 1 {
        PasswordSave::ForSession
    } else if selected == 2 {
        PasswordSave::Permanently
    } else {
        PasswordSave::Never
    }
}

/// What a place asks for before it lets anyone in.
#[derive(Clone, Copy, Debug, PartialEq, Eq, Structural)]
pub struct AskFlags {
    pub need_username: bool,
    pub need_domain: bool,
    pub need_password: bool,
    pub saving_supported: bool,
    pub anonymous_supported: bool,
}

/// Who someone claims to be.
#[derive(Debug)]
pub struct MountCredentials {
    pub anonymous: bool,
    pub username: String,
    pub domain: String,
    pub password: String,
    pub save: PasswordSave,
}

impl MountCredentials {
    /// The same credentials once more.
    pub fn duplicate(&self) -> (result: Self)
        ensures
            result == *self,
    {
        MountCredentials {
            anonymous: self.anonymous,
            username: self.username.clone(),
            domain: self.domain.clone(),
            password: self.password.clone(),
            save: self.save,
        }
    }

    /// What is proposed to someone of the given name on the machine.
    pub fn default_for_prompt(user_name: &str) -> (result: Self)
        ensures
            !result.anonymous,
            result.username@ == user_name@,
            result.domain@ == "WORKGROUP"@,
            result.password@ == Seq::<char>::empty(),
            result.save is Never,
    {
        MountCredentials {
            anonymous: false,
            username: user_name.to_owned(),
            domain: "WORKGROUP".to_owned(),
            password: String::new(),
            save: PasswordSave::Never,
        }
    }
}

/// What is told of credentials to the operation that asked for them. What is `None` is not told.
#[derive(Debug)]
pub struct AppliedCredentials {
    pub anonymous: bool,
    pub username: Option<String>,
    pub domain: Option<String>,
    pub password: Option<String>,
    pub save: Option<PasswordSave>,
}

/// Whether `applied` is what is told of `credentials`: nothing but the anonymity of someone
/// anonymous, and no domain where none was given.
pub open spec fn tells(applied: AppliedCredentials, credentials: MountCredentials) -> bool {
    &&& applied.anonymous == credentials.anonymous
    &&& applied.username == if credentials.anonymous {
        None
    } else {
        Some(credentials.username)
    }
    &&& applied.domain == if credentials.anonymous || credentials.domain@.len() == 0 {
        None
    } else {
        Some(credentials.domain)
    }
    &&& applied.password == if credentials.anonymous {
        None
    } else {
        Some(credentials.password)
    }
    &&& applied.save == if credentials.anonymous {
        None
    } else {
        Some(credentials.save)
    }
}

/// What is told of credentials to the operation that asked for them.
pub fn apply_mount_credentials(credentials: &MountCredentials) -> (result: AppliedCredentials)
    ensures
        tells(result, *credentials),
{
    if credentials.anonymous {
        return AppliedCredentials {
            anonymous: true,
            username: None,
            domain: None,
            password: None,
            save: None,
        };
    }
    AppliedCredentials {
        anonymous: false,
        username: Some(credentials.username.clone()),
        domain: if credentials.domain.as_str().is_empty() {
            None
        } else {
            Some(credentials.domain.clone())
        },
        password: Some(credentials.password.clone()),
        save: Some(credentials.save),
    }
}

/// A question for credentials, as a place asks it.
#[derive(Debug)]
pub struct MountPromptDetails {
    pub message: String,
    pub default_user: String,
    pub default_domain: String,
    pub flags: AskFlags,
}

impl MountPromptDetails {
    /// The same details once more.
    pub fn duplicate(&self) -> (result: Self)
        ensures
            result == *self,
    {
        MountPromptDetails {
            message: self.message.clone(),
            default_user: self.default_user.clone(),
            default_domain: self.default_domain.clone(),
            flags: self.flags,
        }
    }

    /// The question for a place that did not put its own.
    pub fn fallback(display_path: &str) -> (result: Self)
        ensures
            result.message@ == "Enter user and password for “"@ + display_path@ + "”."@,
            result.default_user@ == Seq::<char>::empty(),
            result.default_domain@ == Seq::<char>::empty(),
            result.flags == (AskFlags {
                need_username: true,
                need_domain: true,
                need_password: true,
                saving_supported: true,
                anonymous_supported: true,
            }),
    {
        let mut message: String = concat_text("Enter user and password for “", display_path);
        message.append("”.");
        MountPromptDetails {
            message,
            default_user: String::new(),
            default_domain: String::new(),
            flags: AskFlags {
                need_username: true,
                need_domain: true,
                need_password: true,
                saving_supported: true,
                anonymous_supported: true,
            },
        }
    }
}

/// The question for credentials, as it is put.
#[derive(Debug)]
pub struct AuthenticationPrompt {
    pub message: String,
    pub username: String,
    pub domain: String,
    pub flags: AskFlags,
    pub authentication_failed: bool,
}

/// The question put again after an attempt that was turned away. What was tried before is proposed
/// again; without it, what the place proposed, and else the name on the machine.
pub fn retry_prompt(
    previous: Option<MountCredentials>,
    details: Option<MountPromptDetails>,
    display_path: &str,
    user_name: &str,
) -> (result: AuthenticationPrompt)
    ensures
        result.authentication_failed == (previous is Some),
        details matches Some(asked) ==> result.message@ == asked.message@ && result.flags
            == asked.flags,
        details is None ==> result.message@ == "Enter user and password for “"@ + display_path@
            + "”."@ && result.flags == (AskFlags {
            need_username: true,
            need_domain: true,
            need_password: true,
            saving_supported: true,
            anonymous_supported: true,
        }),
        result.username@ == match previous {
            Some(tried) => tried.username@,
            None => match details {
                Some(asked) => if asked.default_user@.len() > 0 {
                    asked.default_user@
                } else {
                    user_name@
                },
                None => user_name@,
            },
        },
        result.domain@ == match previous {
            Some(tried) => tried.domain@,
            None => match details {
                Some(asked) => if asked.default_domain@.len() > 0 {
                    asked.default_domain@
                } else {
                    "WORKGROUP"@
                },
                None => "WORKGROUP"@,
            },
        },
{
    let authentication_failed: bool = previous.is_some();
    let asked: MountPromptDetails = match details {
        Some(asked) => asked,
        None => MountPromptDetails::fallback(display_path),
    };
    let defaults: MountCredentials = match previous {
        Some(tried) => tried,
        None => {
            let mut defaults: MountCredentials = MountCredentials::default_for_prompt(user_name);
            if !asked.default_user.as_str().is_empty() {
                defaults.username = asked.default_user.clone();
            }
            if !asked.default_domain.as_str().is_empty() {
                defaults.domain = asked.default_domain.clone();
            }
            defaults
        },
    };
    AuthenticationPrompt {
        message: asked.message,
        username: defaults.username,
        domain: defaults.domain,
        flags: asked.flags,
        authentication_failed,
    }
}

/// A field of the question for credentials.
#[derive(Clone, Copy, Debug, PartialEq, Eq, Structural)]
pub enum AuthenticationFocus {
    Username,
    Password,
    Connect,
}

/// How the operation that asked is answered, or its caller told.
#[derive(Clone, Copy, Debug, PartialEq, Eq, Structural)]
pub enum PromptReply {
    Handled,
    Aborted,
    Unhandled,
    TellCaller,
}

/// The question for credentials while it is open.
#[derive(Clone, Copy, Debug)]
pub struct AuthenticationDialog {
    pub flags: AskFlags,
    pub authentication_failed: bool,
    pub answers_operation: bool,
    pub anonymous: bool,
}

/// What happens once credentials were given.
#[derive(Debug)]
pub struct Submission {
    pub credentials: MountCredentials,
    pub applied: Option<AppliedCredentials>,
    pub reply: Option<PromptReply>,
}

impl AuthenticationDialog {
    /// The question as it opens. `answers_operation` tells whether an operation waits for the
    /// answer.
    pub fn open(prompt: &AuthenticationPrompt, answers_operation: bool) -> (result: Self)
        ensures
            result == (AuthenticationDialog {
                flags: prompt.flags,
                authentication_failed: prompt.authentication_failed,
                answers_operation,
                anonymous: false,
            }),
    {
        AuthenticationDialog {
            flags: prompt.flags,
            authentication_failed: prompt.authentication_failed,
            answers_operation,
            anonymous: false,
        }
    }

    /// How a waiting operation is answered where the question cannot be put.
    pub fn unhosted_reply(answers_operation: bool) -> (result: Option<PromptReply>)
        ensures
            result == if answers_operation {
                Some(PromptReply::Unhandled)
            } else {
                None
            },
    {
        if answers_operation {
            Some(PromptReply::Unhandled)
        } else {
            None
        }
    }

    /// Where the focus is at first: on the name where one is asked for and none is proposed, else
    /// on the password where one is asked for.
    pub fn initial_focus(&self, default_user: &str) -> (result: AuthenticationFocus)
        ensures
            result == if self.flags.need_username && default_user@.len() == 0 {
                AuthenticationFocus::Username
            } else if self.flags.need_password {
                AuthenticationFocus::Password
            } else {
                AuthenticationFocus::Connect
            },
    {
        if self.flags.need_username && default_user.is_empty() {
            AuthenticationFocus::Username
        } else if self.flags.need_password {
            AuthenticationFocus::Password
        } else {
            AuthenticationFocus::Connect
        }
    }

    /// Takes the choice between a registered user and anonymity.
    pub fn set_anonymous(&mut self, anonymous: bool)
        ensures
            *final(self) == (AuthenticationDialog { anonymous, ..*old(self) }),
    {
        self.anonymous = anonymous;
    }

    /// Whether the fields for a registered user can be used.
    pub fn fields_are_sensitive(&self) -> (result: bool)
        ensures
            result == !self.anonymous,
    {
        !self.anonymous
    }

    /// Whether a press beside the dialog must not close it: once anything stands in a field.
    pub fn blocks_dismissal(&self, username: &str, domain: &str, password: &str) -> (result: bool)
        ensures
            result == (username@.len() > 0 || domain@.len() > 0 || password@.len() > 0),
    {
        !username.is_empty() || !domain.is_empty() || !password.is_empty()
    }

    /// What follows from a press on the button that connects.
    pub fn submit(&self, username: String, domain: String, password: String, remember: u32) -> (result:
        Submission)
        ensures
            result.credentials.anonymous == self.anonymous,
            result.credentials.username == username,
            result.credentials.domain == domain,
            result.credentials.password == password,
            result.credentials.save is ForSession <==> remember == 1,
            result.credentials.save is Permanently <==> remember == 2,
            self.answers_operation ==> result.reply == Some(PromptReply::Handled) && (
            result.applied matches Some(applied) && tells(applied, result.credentials)),
            !self.answers_operation ==> result.reply is None && result.applied is None,
    {
        let credentials: MountCredentials = MountCredentials {
            anonymous: self.anonymous,
            username,
            domain,
            password,
            save: password_save_for_selection(remember),
        };
        if self.answers_operation {
            let applied: AppliedCredentials = apply_mount_credentials(&credentials);
            Submission { credentials, applied: Some(applied), reply: Some(PromptReply::Handled) }
        } else {
            Submission { credentials, applied: None, reply: None }
        }
    }

    /// How the question ends that is closed without an answer.
    pub fn cancel(&self) -> (result: PromptReply)
        ensures
            result == if self.answers_operation {
                PromptReply::Aborted
            } else {
                PromptReply::TellCaller
            },
    {
        if self.answers_operation {
            PromptReply::Aborted
        } else {
            PromptReply::TellCaller
        }
    }
}

/// Credentials that were written into a URI.
#[derive(Debug)]
pub struct UriCredentials {
    pub username: String,
    pub password: String,
}

/// Whether a typed location is a URI, which may carry credentials.
pub open spec fn reads_as_uri(input: Seq<char>) -> bool {
    occurs_in(input, "://"@)
}

/// Whether a typed location is a URI, which may carry credentials.
pub fn is_uri_input(input: &str) -> (result: bool)
    ensures
        result == reads_as_uri(input@),
{
    contains_text(input, "://")
}

/// Splits a typed location into what is opened and the credentials it carried. `sanitized` is what
/// was made of a URI; anything else is opened as typed.
pub fn credentials_from_location_input(
    input: &str,
    sanitized: Result<(String, Option<UriCredentials>), String>,
) -> (result: Result<(String, Option<MountCredentials>), String>)
    ensures
        !reads_as_uri(input@) ==> (result matches Ok((opened, credentials)) && opened@ == input@
            && credentials is None),
        reads_as_uri(input@) ==> match sanitized {
            Err(message) => result == Err::<(String, Option<MountCredentials>), String>(message),
            Ok((uri, carried)) => result matches Ok((opened, credentials)) && opened == uri && (
            match carried {
                None => credentials is None,
                Some(found) => credentials matches Some(told) && !told.anonymous && told.username
                    == found.username && told.domain@ == Seq::<char>::empty() && told.password
                    == found.password && told.save is Never,
            }),
        },
{
    if !is_uri_input(input) {
        return Ok((input.to_owned(), None));
    }
    match sanitized {
        Err(message) => Err(message),
        Ok((uri, carried)) => {
            let credentials: Option<MountCredentials> = match carried {
                None => None,
                Some(found) => Some(
                    MountCredentials {
                        anonymous: false,
                        username: found.username,
                        domain: String::new(),
                        password: found.password,
                        save: PasswordSave::Never,
                    },
                ),
            };
            Ok((uri, credentials))
        },
    }
}

/// How a place is mounted: the volume it lies on, or the place itself.
#[derive(Clone, Copy, Debug, PartialEq, Eq, Structural)]
pub enum MountStrategy {
    EnclosingVolume,
    Mountable,
}

/// Why a location cannot be opened.
#[derive(Debug)]
pub enum LocationValidationError {
    NotMounted(Location),
    Mountable(Location),
    Other(String),
}

/// What an answer to a location leads to.
#[derive(Debug)]
pub enum OpeningStep {
    /// It is open.
    Opened,
    /// It has to be mounted first, with the credentials given for it.
    Mount { location: Location, strategy: MountStrategy, credentials: Option<MountCredentials> },
    /// It cannot be opened.
    Reject(String),
}

/// What follows once a typed location was tried. Credentials are used up by mounting, kept by
/// success, and dropped by any other error.
pub fn submitted_location(
    tried: Result<(), LocationValidationError>,
    credentials: &mut Option<MountCredentials>,
) -> (result: OpeningStep)
    ensures
        match tried {
            Ok(_) => result is Opened && *final(credentials) == *old(credentials),
            Err(LocationValidationError::NotMounted(location)) => result == (OpeningStep::Mount {
                location,
                strategy: MountStrategy::EnclosingVolume,
                credentials: *old(credentials),
            }) && *final(credentials) is None,
            Err(LocationValidationError::Mountable(location)) => result == (OpeningStep::Mount {
                location,
                strategy: MountStrategy::Mountable,
                credentials: *old(credentials),
            }) && *final(credentials) is None,
            Err(LocationValidationError::Other(message)) => result == OpeningStep::Reject(message)
                && *final(credentials) is None,
        },
{
    match tried {
        Ok(_) => OpeningStep::Opened,
        Err(LocationValidationError::NotMounted(location)) => OpeningStep::Mount {
            location,
            strategy: MountStrategy::EnclosingVolume,
            credentials: credentials.take(),
        },
        Err(LocationValidationError::Mountable(location)) => OpeningStep::Mount {
            location,
            strategy: MountStrategy::Mountable,
            credentials: credentials.take(),
        },
        Err(LocationValidationError::Other(message)) => {
            *credentials = None;
            OpeningStep::Reject(message)
        },
    }
}

/// What follows from a folder in view that could not be entered: it is mounted where that helps.
pub fn rejected_navigation(error: LocationValidationError) -> (result: OpeningStep)
    ensures
        result == match error {
            LocationValidationError::NotMounted(location) => OpeningStep::Mount {
                location,
                strategy: MountStrategy::EnclosingVolume,
                credentials: None,
            },
            LocationValidationError::Mountable(location) => OpeningStep::Mount {
                location,
                strategy: MountStrategy::Mountable,
                credentials: None,
            },
            LocationValidationError::Other(message) => OpeningStep::Reject(message),
        },
{
    match error {
        LocationValidationError::NotMounted(location) => OpeningStep::Mount {
            location,
            strategy: MountStrategy::EnclosingVolume,
            credentials: None,
        },
        LocationValidationError::Mountable(location) => OpeningStep::Mount {
            location,
            strategy: MountStrategy::Mountable,
            credentials: None,
        },
        LocationValidationError::Other(message) => OpeningStep::Reject(message),
    }
}

/// An attempt to mount a place: the credentials to answer its first question with, those tried
/// last, whether it was asked before, the last question, and whether one is open.
#[derive(Debug)]
pub struct MountAttempt {
    pub supplied: Option<MountCredentials>,
    pub attempted: Option<MountCredentials>,
    pub already_prompted: bool,
    pub details: Option<MountPromptDetails>,
    pub prompt_open: bool,
}

/// How a question of the place is dealt with.
#[derive(Debug)]
pub enum AskPasswordStep {
    /// Answer with the credentials at hand.
    Answer(AppliedCredentials),
    /// Put the question, in place of one that is open; `retry` tells that an answer was turned away.
    Prompt { dismiss_previous: bool, retry: bool },
}

impl MountAttempt {
    /// An attempt that begins with the given credentials, if any.
    pub fn begin(credentials: Option<MountCredentials>) -> (result: Self)
        ensures
            result.supplied == credentials,
            result.attempted == credentials,
            result.already_prompted == (credentials is Some),
            result.details is None,
            !result.prompt_open,
    {
        let already_prompted: bool = credentials.is_some();
        let attempted: Option<MountCredentials> = match &credentials {
            Some(credentials) => Some(credentials.duplicate()),
            None => None,
        };
        MountAttempt {
            supplied: credentials,
            attempted,
            already_prompted,
            details: None,
            prompt_open: false,
        }
    }

    /// Takes a question of the place: credentials at hand answer it once, then it is put.
    pub fn ask_password(&mut self, details: MountPromptDetails) -> (result: AskPasswordStep)
        ensures
            final(self).details == Some(details),
            final(self).supplied is None,
            final(self).attempted == old(self).attempted,
            match old(self).supplied {
                Some(credentials) => {
                    &&& result matches AskPasswordStep::Answer(applied)
                    &&& tells(applied, credentials)
                    &&& final(self).already_prompted == old(self).already_prompted
                    &&& final(self).prompt_open == old(self).prompt_open
                },
                None => {
                    &&& result == (AskPasswordStep::Prompt {
                        dismiss_previous: old(self).prompt_open,
                        retry: old(self).already_prompted,
                    })
                    &&& final(self).already_prompted
                    &&& final(self).prompt_open
                },
            },
    {
        self.details = Some(details);
        match self.supplied.take() {
            Some(credentials) => AskPasswordStep::Answer(apply_mount_credentials(&credentials)),
            None => {
                let step: AskPasswordStep = AskPasswordStep::Prompt {
                    dismiss_previous: self.prompt_open,
                    retry: self.already_prompted,
                };
                self.already_prompted = true;
                self.prompt_open = true;
                step
            },
        }
    }

    /// Takes the credentials given in answer to the question.
    pub fn submitted(&mut self, credentials: MountCredentials)
        ensures
            *final(self) == (MountAttempt { attempted: Some(credentials), ..*old(self) }),
    {
        self.attempted = Some(credentials);
    }
}

/// What kind of error an attempt to mount ended in.
#[derive(Clone, Copy, Debug, PartialEq, Eq, Structural)]
pub enum MountErrorKind {
    AlreadyMounted,
    Cancelled,
    FailedHandled,
    NotSupported,
    PermissionDenied,
    Other,
}

/// An error that an attempt to mount ended in.
#[derive(Debug)]
pub struct MountError {
    pub kind: MountErrorKind,
    pub message: String,
}

/// Whether the place is mounted after an attempt: one that was mounted already is.
pub fn mount_result_is_ok(error: Option<&MountError>) -> (result: bool)
    ensures
        result == match error {
            None => true,
            Some(error) => error.kind is AlreadyMounted,
        },
{
    match error {
        None => true,
        Some(error) => error.kind == MountErrorKind::AlreadyMounted,
    }
}

/// Whether the words of an error say that credentials were turned away.
pub open spec fn tells_rejection(message: Seq<char>) -> bool {
    let folded = ascii_lowercased(message);
    ||| occurs_in(folded, "permission denied"@)
    ||| occurs_in(folded, "authentication failed"@)
    ||| occurs_in(folded, "logon failure"@)
    ||| occurs_in(folded, "invalid credentials"@)
}

/// Whether an error says that credentials were turned away: by its kind, or only in words.
pub open spec fn is_rejection(location: LocationView, error: MountError) -> bool {
    location is Uri && (error.kind is PermissionDenied || tells_rejection(error.message@))
}

/// Whether an error says that credentials were turned away.
pub fn mount_error_is_authentication_failure(location: &Location, error: &MountError) -> (result:
    bool)
    ensures
        result == is_rejection(location@, *error),
{
    if location.uri_value().is_none() {
        return false;
    }
    if error.kind == MountErrorKind::PermissionDenied {
        return true;
    }
    let folded: String = ascii_lowercase_text(error.message.as_str());
    let words: &str = folded.as_str();
    contains_text(words, "permission denied") || contains_text(words, "authentication failed")
        || contains_text(words, "logon failure") || contains_text(words, "invalid credentials")
}

/// What is told of a failed attempt to mount: nothing where it was cancelled or told already.
pub fn mount_failure_message(error: MountError, backend_unavailable: String) -> (result: Option<String>)
    ensures
        result == match error.kind {
            MountErrorKind::Cancelled | MountErrorKind::FailedHandled => None,
            MountErrorKind::NotSupported => Some(backend_unavailable),
            _ => Some(error.message),
        },
{
    match error.kind {
        MountErrorKind::Cancelled | MountErrorKind::FailedHandled => None,
        MountErrorKind::NotSupported => Some(backend_unavailable),
        _ => Some(error.message),
    }
}

/// What follows from an attempt to mount.
#[derive(Debug)]
pub enum MountOutcome {
    /// Go there.
    Mounted,
    /// Ask for credentials again.
    AskAgain,
    /// Stay, and tell the error where there is something to tell.
    Failed(Option<String>),
}

/// What follows from an attempt to mount.
pub fn mount_outcome(
    location: &Location,
    error: Option<MountError>,
    backend_unavailable: String,
) -> (result: MountOutcome)
    ensures
        match error {
            None => result is Mounted,
            Some(error) => if error.kind is AlreadyMounted {
                result is Mounted
            } else if is_rejection(location@, error) {
                result is AskAgain
            } else {
                result == MountOutcome::Failed(
                    match error.kind {
                        MountErrorKind::Cancelled | MountErrorKind::FailedHandled => None,
                        MountErrorKind::NotSupported => Some(backend_unavailable),
                        _ => Some(error.message),
                    },
                )
            },
        },
{
    if mount_result_is_ok(error.as_ref()) {
        return MountOutcome::Mounted;
    }
    match error {
        None => MountOutcome::Mounted,
        Some(error) => {
            if mount_error_is_authentication_failure(location, &error) {
                MountOutcome::AskAgain
            } else {
                MountOutcome::Failed(mount_failure_message(error, backend_unavailable))
            }
        },
    }
}

/// Someone who connects anonymously tells nothing of themselves.
pub proof fn law_anonymity_is_kept(applied: AppliedCredentials, credentials: MountCredentials)
    requires
        tells(applied, credentials),
        credentials.anonymous,
    ensures
        applied.username is None,
        applied.domain is None,
        applied.password is None,
        applied.save is None,
{
}

/// Only places given by a URI ask for credentials again: a native path never does.
pub proof fn law_native_paths_are_not_asked_again(location: LocationView, error: MountError)
    requires
        location is Native,
    ensures
        !is_rejection(location, error),
{
}

/// A place is told exactly what was typed for it: the name and the password, how long to keep it, and
/// the domain where one was typed.
pub proof fn law_typed_credentials_are_told(
    applied: AppliedCredentials,
    credentials: MountCredentials,
)
    requires
        tells(applied, credentials),
    ensures
        applied.anonymous == credentials.anonymous,
        !credentials.anonymous ==> applied.username == Some(credentials.username)
            && applied.password == Some(credentials.password) && applied.save == Some(
            credentials.save,
        ),
        !credentials.anonymous && credentials.domain@.len() > 0 ==> applied.domain == Some(
            credentials.domain,
        ),
        credentials.domain@.len() == 0 ==> applied.domain is None,
{
}

/// A text is the address of a place exactly where `://` stands somewhere in it.
pub proof fn law_addresses_name_a_scheme(input: Seq<char>)
    ensures
        reads_as_uri(input) <==> exists|scheme: Seq<char>, rest: Seq<char>|
            input == #[trigger] ((scheme + "://"@) + rest),
{
    crate::text::law_part_stands_between(input, "://"@);
}

/// An error turns credentials away exactly where it says so, in capitals or not, anywhere in its
/// words; other errors do not.
pub proof fn law_rejections_are_told_in_words(message: Seq<char>)
    ensures
        tells_rejection(message) <==> exists|before: Seq<char>, phrase: Seq<char>, after: Seq<char>|
            ascii_lowercased(message) == #[trigger] ((before + phrase) + after) && (phrase
                == "permission denied"@ || phrase == "authentication failed"@ || phrase
                == "logon failure"@ || phrase == "invalid credentials"@),
{
    let folded = ascii_lowercased(message);
    crate::text::law_part_stands_between(folded, "permission denied"@);
    crate::text::law_part_stands_between(folded, "authentication failed"@);
    crate::text::law_part_stands_between(folded, "logon failure"@);
    crate::text::law_part_stands_between(folded, "invalid credentials"@);
}

/// Credentials are asked for again exactly where a place that is no native path turned them away, by
/// the kind of the error or by its words.
pub proof fn law_turned_away_credentials_are_asked_again(uri: Seq<char>, error: MountError)
    ensures
        is_rejection(LocationView::Uri(uri), error) <==> error.kind is PermissionDenied
            || tells_rejection(error.message@),
{
}

} // verus!
