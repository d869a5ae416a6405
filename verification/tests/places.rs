use strata::breadcrumbs::{
    breadcrumb_trail, is_breadcrumb_button_target, location_trail, CopyFeedback, TrailWidget,
};
use strata::entry::{EntryKind, FileEntry, Icon, MetadataValue, PinStatus};
use strata::location::{
    can_open_terminal, contains_location, is_trash_location, is_trash_root, Location,
};
use strata::mount::{
    apply_mount_credentials, credentials_from_location_input, is_uri_input,
    mount_error_is_authentication_failure, mount_failure_message, mount_outcome,
    mount_result_is_ok, password_save_for_selection, rejected_navigation, retry_prompt,
    submitted_location, AskFlags, AskPasswordStep, AuthenticationDialog, AuthenticationFocus,
    LocationValidationError, MountAttempt, MountCredentials, MountError, MountErrorKind,
    MountOutcome, MountPromptDetails, MountStrategy, OpeningStep, PasswordSave, PromptReply,
    UriCredentials,
};
use strata::paths::{
    activate_recursive_search_result, compact_display_path, compact_native_path, ensure_separator,
    folder_input_path, looks_like_path, path_suggestions, resolve_destination_path,
    search_suggestions, suggestion_request, suggestion_row, ChildFolder, DestinationSuggestions,
    SearchItem, SuggestionStep,
};
use strata::properties::{
    show_properties, FileFacts, ModifiedText, PropertiesContext, SizeText,
};
use strata::trash::TrashSummary;
use strata::text::{contains_text, decimal_text, trim_text};

fn credentials(anonymous: bool) -> MountCredentials {
    MountCredentials {
        anonymous,
        username: "ada".to_owned(),
        domain: String::new(),
        password: "open".to_owned(),
        save: PasswordSave::ForSession,
    }
}

fn error(kind: MountErrorKind, message: &str) -> MountError {
    MountError { kind, message: message.to_owned() }
}

fn found(path: &str, is_directory: bool) -> SearchItem {
    SearchItem {
        path: path.to_owned(),
        name: path.rsplit('/').next().unwrap_or(path).to_owned(),
        is_directory,
    }
}

#[test]
fn locations_are_told_apart() {
    assert!(is_trash_root(&Location::uri("trash:///")));
    assert!(is_trash_location(&Location::uri("trash:///old.txt")));
    assert!(!is_trash_root(&Location::uri("trash:///old.txt")));
    assert!(!is_trash_location(&Location::local("/tmp")));
    assert!(can_open_terminal(&Location::local("/tmp")));
    assert!(!can_open_terminal(&Location::uri("smb://host/share")));
    assert!(contains_location(
        &vec![Location::local("/a"), Location::uri("smb://host/")],
        &Location::uri("smb://host/")
    ));
    assert!(!contains_location(&vec![Location::local("/a")], &Location::uri("/a")));
}

#[test]
fn texts_are_taken_apart() {
    assert_eq!(decimal_text(0), "0");
    assert_eq!(decimal_text(1024), "1024");
    assert_eq!(trim_text(" \t a b\u{3000}\n"), "a b");
    assert!(contains_text("été", "té"));
    assert!(!contains_text("été", "te"));
}

#[test]
fn paths_below_home_are_shortened() {
    assert_eq!(compact_native_path("/home/u", "/home/u"), "~");
    assert_eq!(compact_native_path("/home/u/a/b", "/home/u"), "~/a/b");
    assert_eq!(compact_native_path("/home/user", "/home/u"), "/home/user");
    assert_eq!(compact_native_path("/home/u/", "/home/u"), "~");
    assert_eq!(
        compact_display_path(&Location::uri("smb://host/s"), "smb://host/s", "/home/u"),
        "smb://host/s"
    );
    assert_eq!(ensure_separator("~/a".to_owned()), "~/a/");
    assert_eq!(ensure_separator("~/a/".to_owned()), "~/a/");
    assert_eq!(folder_input_path("/home/u/a", "/home/u"), "~/a/");
}

#[test]
fn destinations_are_read_from_home_the_root_or_the_folder_in_view() {
    assert_eq!(resolve_destination_path("~", "/base", "/home/u"), "/home/u");
    assert_eq!(resolve_destination_path(" ~/a ", "/base", "/home/u"), "/home/u/a");
    assert_eq!(resolve_destination_path("/a", "/base", "/home/u"), "/a");
    assert_eq!(resolve_destination_path("a/b", "/base", "/home/u"), "/base/a/b");
}

#[test]
fn suggestions_look_into_the_folder_that_is_typed() {
    let inside = suggestion_request("~/Doc", "/base", "/home/u");
    assert_eq!(inside.directory, "/home/u");
    assert_eq!(inside.prefix, "doc");
    let complete = suggestion_request("/etc/", "/base", "/home/u");
    assert_eq!(complete.directory, "/etc/");
    assert_eq!(complete.prefix, "");
}

#[test]
fn suggestions_are_few_and_in_order() {
    let children: Vec<ChildFolder> = ["Beta", "alpha", ".hidden", "Alps", "gamma"]
        .iter()
        .map(|name| ChildFolder { path: format!("/x/{name}"), name: (*name).to_owned() })
        .collect();
    let names = |prefix: &str| -> Vec<String> {
        path_suggestions(&children, prefix).into_iter().map(|folder| folder.folded_name).collect()
    };
    assert_eq!(names("al"), vec!["alpha".to_owned(), "alps".to_owned()]);
    assert_eq!(names(""), vec!["alpha", "alps", "beta", "gamma"]);
    assert_eq!(names("."), vec![".hidden"]);
    let many: Vec<ChildFolder> = (0..20)
        .map(|n| ChildFolder { path: format!("/x/{n}"), name: format!("folder{n}") })
        .collect();
    assert_eq!(path_suggestions(&many, "folder").len(), 8);
}

#[test]
fn shallow_folders_are_suggested_first() {
    let suggestions = search_suggestions(&vec![
        found("/a/b/c", true),
        found("/a/file", false),
        found("/a", true),
        found("/a/b", true),
    ]);
    let paths: Vec<&str> = suggestions.iter().map(|folder| folder.path.as_str()).collect();
    assert_eq!(paths, vec!["/a", "/a/b", "/a/b/c"]);
}

#[test]
fn only_the_last_request_for_suggestions_counts() {
    assert!(looks_like_path("~/a"));
    assert!(looks_like_path("a/b"));
    assert!(looks_like_path(""));
    assert!(!looks_like_path("photos"));
    let mut suggestions = DestinationSuggestions::new();
    let first = match suggestions.input_changed("/a") {
        SuggestionStep::List { request } => request,
        SuggestionStep::Search => panic!("this is a path"),
    };
    let second = match suggestions.input_changed("/ab") {
        SuggestionStep::List { request } => request,
        SuggestionStep::Search => panic!("this is a path"),
    };
    assert!(!suggestions.accepts_listing(first));
    assert!(suggestions.accepts_listing(second));
    assert!(matches!(suggestions.input_changed("photos"), SuggestionStep::Search));
    assert!(suggestions.accepts_results("photos", " photos "));
    assert!(!suggestions.accepts_results("photo", "photos"));
}

#[test]
fn a_suggestion_is_named_by_its_last_part() {
    let row = suggestion_row("/home/u/a/b", "/home/u");
    assert_eq!(row.name, "b");
    assert_eq!(row.parent.as_deref(), Some("~/a"));
    assert_eq!(row.input, "~/a/b/");
    let root = suggestion_row("/", "/home/u");
    assert_eq!(root.name, "/");
    assert_eq!(root.parent, None);
    assert_eq!(root.input, "/");
}

#[test]
fn a_search_result_leads_to_its_folder() {
    let results = vec![found("/a/b", true), found("/a/x.txt", false)];
    let target = |position: u32| {
        activate_recursive_search_result(&results, position)
            .and_then(|target| target.native_path().map(str::to_owned))
    };
    assert_eq!(target(0).as_deref(), Some("/a/b"));
    assert_eq!(target(1).as_deref(), Some("/a"));
    assert_eq!(target(2), None);
}

#[test]
fn a_trail_begins_at_home() {
    let crumbs = vec![
        Location::local("/"),
        Location::local("/home"),
        Location::local("/home/u"),
        Location::local("/home/u/a"),
    ];
    let names: Vec<String> =
        ["/", "home", "u", "a"].iter().map(|name| (*name).to_owned()).collect();
    let trail = location_trail(&crumbs, &names, &Location::local("/home/u"));
    assert_eq!(trail.len(), 2);
    assert_eq!(trail[0].label, "~");
    assert!(!trail[0].separator_before);
    assert_eq!(trail[1].label, "a");
    assert!(trail[1].separator_before);
    assert!(trail[1].is_current);

    let whole = location_trail(&crumbs, &names, &Location::local("/elsewhere"));
    assert_eq!(whole.len(), 4);
    assert!(whole[0].is_root);
    assert!(!whole[1].separator_before);
    assert!(whole[2].separator_before);

    let remote = breadcrumb_trail(
        &vec![Location::uri("smb://host/"), Location::uri("smb://host/s")],
        &vec!["host".to_owned(), "s".to_owned()],
        &vec![false, false],
        &Location::local("/home/u"),
    );
    assert!(remote[1].separator_before);
}

#[test]
fn a_late_timer_does_not_end_a_later_note() {
    let mut feedback = CopyFeedback::new();
    let first = feedback.pressed();
    let second = feedback.pressed();
    feedback.while_passed(first);
    assert!(feedback.copied);
    feedback.while_passed(second);
    assert!(!feedback.copied);
}

#[test]
fn a_press_on_the_trail_is_for_a_button() {
    assert!(is_breadcrumb_button_target(&vec![TrailWidget::Other, TrailWidget::Button]));
    assert!(!is_breadcrumb_button_target(&vec![
        TrailWidget::Other,
        TrailWidget::Trail,
        TrailWidget::Button
    ]));
    assert!(!is_breadcrumb_button_target(&vec![]));
}

#[test]
fn properties_begin_with_what_is_known() {
    let entry = FileEntry {
        location: Location::local("/home/u/.x.png"),
        native_name: ".x.png".to_owned(),
        display_name: ".x.png".to_owned(),
        kind: EntryKind::File,
        size: MetadataValue::Known(12),
        modified_unix_seconds: MetadataValue::Unknown,
        mode: MetadataValue::Unknown,
        is_hidden: true,
    };
    let context = PropertiesContext {
        display_name: "u".to_owned(),
        display_path: "/home/u".to_owned(),
        home: "/home/u".to_owned(),
        interactive: true,
        selected_count: 0,
        pin_status: Some(PinStatus::Available),
        has_pin_handler: true,
    };
    let mut view = show_properties(&entry.location, Some(&entry), &context);
    assert_eq!(view.name, ".x.png");
    assert_eq!(view.kind, "File");
    assert_eq!(view.icon, Icon::Pictures);
    assert_eq!(view.location, "~/.x.png");
    assert_eq!(view.size, SizeText::Bytes(12));
    assert!(matches!(view.modified, ModifiedText::Unknown));
    assert!(view.is_hidden);
    assert!(view.executable_visible);
    assert!(!view.pin_sensitive);
    view.facts_loaded(FileFacts {
        size: 20,
        modified: Some("today".to_owned()),
        is_hidden: false,
        description: None,
        application: None,
        owner: Some("u".to_owned()),
        group: None,
    });
    assert_eq!(view.size, SizeText::Bytes(20));
    assert!(matches!(&view.modified, ModifiedText::Told(text) if text == "today"));
    assert_eq!(view.kind, "File");
    assert_eq!(view.owner, "u");
    assert_eq!(view.group, "—");
    let folder = show_properties(&Location::local("/home/u"), None, &context);
    assert_eq!(folder.kind, "Folder");
    assert!(folder.pin_sensitive);
    assert!(!folder.rename_sensitive);
    let dated = FileEntry { modified_unix_seconds: MetadataValue::Known(86_400), ..entry };
    let dated = show_properties(&Location::local("/home/u/.x.png"), Some(&dated), &context);
    assert!(matches!(dated.modified, ModifiedText::At(86_400)));
    let mut trash = show_properties(&Location::uri("trash:///"), None, &context);
    assert!(trash.measures_trash);
    assert_eq!(trash.size, SizeText::Calculating);
    assert_eq!(trash.size_tooltip, None);
    assert!(!trash.pin_sensitive);
    trash.trash_measured(Some(TrashSummary { item_count: 3, total_size: 40, truncated: true }));
    assert_eq!(trash.size, SizeText::Measured { bytes: 40, at_least: true });
    assert_eq!(trash.size_tooltip.as_deref(), Some("≥ 3 items"));
    trash.trash_measured(Some(TrashSummary { item_count: 1, total_size: 40, truncated: false }));
    assert_eq!(trash.size_tooltip.as_deref(), Some("1 item"));
    trash.trash_measured(None);
    assert_eq!(trash.size, SizeText::Unavailable);
}

#[test]
fn anonymous_credentials_tell_nothing_of_the_user() {
    let told = apply_mount_credentials(&credentials(true));
    assert!(told.anonymous);
    assert_eq!(told.username, None);
    assert_eq!(told.password, None);
    let told = apply_mount_credentials(&credentials(false));
    assert_eq!(told.username.as_deref(), Some("ada"));
    assert_eq!(told.domain, None);
    assert_eq!(told.password.as_deref(), Some("open"));
    assert_eq!(told.save, Some(PasswordSave::ForSession));
    assert_eq!(password_save_for_selection(0), PasswordSave::Never);
    assert_eq!(password_save_for_selection(1), PasswordSave::ForSession);
    assert_eq!(password_save_for_selection(2), PasswordSave::Permanently);
}

#[test]
fn a_prompt_begins_with_what_was_tried() {
    let again = retry_prompt(Some(credentials(false)), None, "smb://host", "me");
    assert!(again.authentication_failed);
    assert_eq!(again.username, "ada");
    assert_eq!(again.message, "Enter user and password for “smb://host”.");
    let first = retry_prompt(None, None, "smb://host", "me");
    assert!(!first.authentication_failed);
    assert_eq!(first.username, "me");
    assert_eq!(first.domain, "WORKGROUP");

    let mut dialog = AuthenticationDialog::open(&first, true);
    assert_eq!(dialog.initial_focus(""), AuthenticationFocus::Username);
    assert_eq!(dialog.initial_focus("me"), AuthenticationFocus::Password);
    dialog.set_anonymous(true);
    assert!(!dialog.fields_are_sensitive());
    let sent = dialog.submit("me".to_owned(), String::new(), "open".to_owned(), 2);
    assert_eq!(sent.reply, Some(PromptReply::Handled));
    assert!(sent.credentials.anonymous);
    assert_eq!(dialog.cancel(), PromptReply::Aborted);
    assert_eq!(AuthenticationDialog::open(&first, false).cancel(), PromptReply::TellCaller);
}

#[test]
fn credentials_leave_the_address() {
    assert!(is_uri_input("smb://u:p@host/s"));
    assert!(!is_uri_input("/tmp"));
    let (opened, carried) =
        credentials_from_location_input("/tmp", Err("unused".to_owned())).expect("a path");
    assert_eq!(opened, "/tmp");
    assert!(carried.is_none());
    let (opened, carried) = credentials_from_location_input(
        "smb://u:p@host/s",
        Ok((
            "smb://u@host/s".to_owned(),
            Some(UriCredentials { username: "u".to_owned(), password: "p".to_owned() }),
        )),
    )
    .expect("an address");
    assert_eq!(opened, "smb://u@host/s");
    let carried = carried.expect("they were in the address");
    assert_eq!((carried.username.as_str(), carried.password.as_str()), ("u", "p"));
    assert!(matches!(
        credentials_from_location_input("smb://", Err("no host".to_owned())),
        Err(message) if message == "no host"
    ));
}

#[test]
fn what_is_not_mounted_is_mounted_with_credentials_used_once() {
    let mut carried = Some(credentials(false));
    let place = || Location::uri("smb://host/s");
    match submitted_location(Err(LocationValidationError::NotMounted(place())), &mut carried) {
        OpeningStep::Mount { strategy, credentials, .. } => {
            assert_eq!(strategy, MountStrategy::EnclosingVolume);
            assert!(credentials.is_some());
        }
        other => panic!("the volume is not mounted: {other:?}"),
    }
    assert!(carried.is_none());
    assert!(matches!(
        submitted_location(Err(LocationValidationError::Mountable(place())), &mut carried),
        OpeningStep::Mount { strategy: MountStrategy::Mountable, credentials: None, .. }
    ));
    assert!(matches!(submitted_location(Ok(()), &mut carried), OpeningStep::Opened));
    assert!(matches!(
        rejected_navigation(LocationValidationError::Other("gone".to_owned())),
        OpeningStep::Reject(message) if message == "gone"
    ));
}

#[test]
fn credentials_answer_once_before_a_prompt() {
    let details = || MountPromptDetails {
        message: "Password?".to_owned(),
        default_user: String::new(),
        default_domain: String::new(),
        flags: AskFlags {
            need_username: true,
            need_domain: false,
            need_password: true,
            saving_supported: false,
            anonymous_supported: false,
        },
    };
    let mut attempt = MountAttempt::begin(Some(credentials(false)));
    assert!(matches!(attempt.ask_password(details()), AskPasswordStep::Answer(_)));
    assert!(matches!(
        attempt.ask_password(details()),
        AskPasswordStep::Prompt { dismiss_previous: false, retry: true }
    ));
    attempt.submitted(credentials(false));
    assert!(matches!(
        attempt.ask_password(details()),
        AskPasswordStep::Prompt { dismiss_previous: true, retry: true }
    ));
    let mut fresh = MountAttempt::begin(None);
    assert!(matches!(
        fresh.ask_password(details()),
        AskPasswordStep::Prompt { dismiss_previous: false, retry: false }
    ));
}

#[test]
fn failed_mounts_ask_again_fail_or_stay_silent() {
    let remote = Location::uri("smb://host/s");
    let refused = error(MountErrorKind::Other, "Logon Failure (0x1)");
    assert!(mount_error_is_authentication_failure(&remote, &refused));
    assert!(!mount_error_is_authentication_failure(&Location::local("/mnt"), &refused));
    assert!(mount_result_is_ok(None));
    assert!(mount_result_is_ok(Some(&error(MountErrorKind::AlreadyMounted, ""))));
    assert!(!mount_result_is_ok(Some(&refused)));
    assert_eq!(
        mount_failure_message(error(MountErrorKind::Cancelled, "x"), "install".to_owned()),
        None
    );
    assert_eq!(
        mount_failure_message(error(MountErrorKind::NotSupported, "x"), "install".to_owned())
            .as_deref(),
        Some("install")
    );
    assert!(matches!(mount_outcome(&remote, None, String::new()), MountOutcome::Mounted));
    assert!(matches!(
        mount_outcome(&remote, Some(error(MountErrorKind::PermissionDenied, "")), String::new()),
        MountOutcome::AskAgain
    ));
    assert!(matches!(
        mount_outcome(&remote, Some(error(MountErrorKind::Other, "host down")), String::new()),
        MountOutcome::Failed(Some(message)) if message == "host down"
    ));
}
