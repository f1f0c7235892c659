use vstd::prelude::*;

verus! {

/// An event the host runtime delivers to the running shell.
pub enum ShellEvent {
    /// A second launch of the application was detected. The new process does
    /// not get a window of its own; its command-line arguments and working
    /// directory are forwarded here instead.
    SecondInstance { args: Vec<String>, cwd: String },
    /// The operating system routed URLs of a registered scheme to this
    /// application.
    DeepLink { urls: Vec<String> },
}

/// What the shell does in answer to an event. No variant creates a window:
/// a running shell only ever reports, or focuses the one main window it
/// already has.
pub enum ShellAction {
    /// Report the arguments forwarded by a second launch and bring the
    /// existing main window to the foreground.
    FocusMainWindow { reported_args: Vec<String> },
    /// Report the delivered deep-link URLs, unchanged and in order.
    ReportDeepLinkUrls { urls: Vec<String> },
}

/// The shell's answer to each runtime event: a second launch focuses the
/// existing main window and reports that launch's arguments; delivered
/// deep-link URLs are reported exactly as received.
pub fn handle_event(event: ShellEvent) -> (r: ShellAction)
    ensures
        (event matches ShellEvent::SecondInstance { args, .. } ==> (r matches
            ShellAction::FocusMainWindow { reported_args } && reported_args@ == args@)),
        (event matches ShellEvent::DeepLink { urls } ==> (r matches
            ShellAction::ReportDeepLinkUrls { urls: reported } && reported@ == urls@)),
{
    match event {
        ShellEvent::SecondInstance { args, cwd: _ } => ShellAction::FocusMainWindow {
            reported_args: args,
        },
        ShellEvent::DeepLink { urls } => ShellAction::ReportDeepLinkUrls { urls },
    }
}

} // verus!
