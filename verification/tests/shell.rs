use shell_bootstrap::command::{open_request, open_url_result, OsOpenOutcome};
use shell_bootstrap::error::Error;
use shell_bootstrap::events::{handle_event, ShellAction, ShellEvent};
use shell_bootstrap::startup::{
    decide_startup, startup_plan, BuildTarget, LogLevel, SetupStep, StartupDecision,
};

#[test]
fn open_url_succeeds_when_os_accepts() {
    let r = open_url_result(OsOpenOutcome::Accepted);
    assert!(r.is_ok());
}

#[test]
fn open_url_succeeds_when_os_fails() {
    let r = open_url_result(OsOpenOutcome::Failed {
        message: String::from("no handler for scheme"),
    });
    assert!(r.is_ok());
}

#[test]
fn open_request_hands_the_url_through_unchanged() {
    let url = "myapp://item/42?tab=details#top";
    assert_eq!(open_request(url), url);
}

#[test]
fn second_instance_focuses_existing_window() {
    let args = vec![String::from("shell"), String::from("myapp://from-second")];
    let action = handle_event(ShellEvent::SecondInstance {
        args: args.clone(),
        cwd: String::from("/home/user"),
    });
    match action {
        ShellAction::FocusMainWindow { reported_args } => assert_eq!(reported_args, args),
        ShellAction::ReportDeepLinkUrls { .. } => panic!("second instance must focus, not report URLs"),
    }
}

#[test]
fn deep_link_urls_are_delivered_as_received() {
    let urls = vec![
        String::from("myapp://open/alpha"),
        String::from("myapp://open/beta"),
    ];
    let action = handle_event(ShellEvent::DeepLink { urls: urls.clone() });
    match action {
        ShellAction::ReportDeepLinkUrls { urls: reported } => assert_eq!(reported, urls),
        ShellAction::FocusMainWindow { .. } => panic!("a deep link must be reported, not focused away"),
    }
}

#[test]
fn debug_desktop_plan_in_full() {
    let t = BuildTarget { desktop: true, scheme_registration: true, debug: true };
    let plan = startup_plan(&t);
    assert_eq!(
        plan,
        vec![
            SetupStep::AttachSingleInstanceGuard,
            SetupStep::AttachDeepLink,
            SetupStep::RegisterUrlSchemes,
            SetupStep::InstallDeepLinkListener,
            SetupStep::AttachLogger { level: LogLevel::Info },
            SetupStep::RegisterOpenUrlCommand,
        ]
    );
}

#[test]
fn release_plan_attaches_no_logger() {
    let t = BuildTarget { desktop: true, scheme_registration: true, debug: false };
    let plan = startup_plan(&t);
    assert!(!plan.iter().any(|s| matches!(s, SetupStep::AttachLogger { .. })));
    assert_eq!(
        plan,
        vec![
            SetupStep::AttachSingleInstanceGuard,
            SetupStep::AttachDeepLink,
            SetupStep::RegisterUrlSchemes,
            SetupStep::InstallDeepLinkListener,
            SetupStep::RegisterOpenUrlCommand,
        ]
    );
}

#[test]
fn debug_logger_comes_before_the_event_loop_steps_end() {
    let t = BuildTarget { desktop: true, scheme_registration: false, debug: true };
    let plan = startup_plan(&t);
    let logger_at = plan
        .iter()
        .position(|s| matches!(s, SetupStep::AttachLogger { level: LogLevel::Info }))
        .expect("a debug build attaches the logger");
    assert_eq!(logger_at, plan.len() - 2);
    assert_eq!(plan[plan.len() - 1], SetupStep::RegisterOpenUrlCommand);
}

#[test]
fn mobile_plan_has_no_single_instance_guard() {
    let t = BuildTarget { desktop: false, scheme_registration: false, debug: false };
    let plan = startup_plan(&t);
    assert_eq!(
        plan,
        vec![SetupStep::AttachDeepLink, SetupStep::RegisterOpenUrlCommand]
    );
}

#[test]
fn setup_success_enters_the_event_loop() {
    match decide_startup(Ok(())) {
        StartupDecision::EnterEventLoop => {}
        StartupDecision::AbortProcess { .. } => panic!("successful setup must not abort"),
    }
}

#[test]
fn setup_error_aborts_with_its_diagnostic() {
    let setup = Err(Error::from_os_message(String::from("permission denied")));
    match decide_startup(setup) {
        StartupDecision::AbortProcess { diagnostic } => {
            assert_eq!(diagnostic, "permission denied");
        }
        StartupDecision::EnterEventLoop => panic!("a setup error must abort the process"),
    }
}

#[test]
fn error_keeps_the_wrapped_text() {
    let e = Error::from_os_message(String::from("connection reset"));
    assert_eq!(e.message(), "connection reset");
    assert_eq!(e.into_message(), "connection reset");
}
