use vstd::prelude::*;

use crate::error::Error;

verus! {

/// Verbosity of the structured logger.
#[derive(Clone, Copy, Debug, PartialEq, Eq, Structural)]
pub enum LogLevel {
    Error,
    Warn,
    Info,
    Debug,
    Trace,
}

/// The compile-time shape of a build of the shell: which of the conditional
/// setup steps apply.
#[derive(Clone, Copy, Debug, PartialEq, Eq, Structural)]
pub struct BuildTarget {
    /// A desktop operating system, as opposed to mobile.
    pub desktop: bool,
    /// The platform supports registering URL-scheme handlers at startup.
    pub scheme_registration: bool,
    /// A debug build.
    pub debug: bool,
}

/// One step of the startup sequence, in the order the shell performs them.
/// All of them precede the event loop, so they run before any window is
/// shown.
#[derive(Clone, Copy, Debug, PartialEq, Eq, Structural)]
pub enum SetupStep {
    /// Guard against a second running copy: a later launch forwards its
    /// arguments to this instance and the existing main window is focused.
    AttachSingleInstanceGuard,
    /// Attach the deep-link plugin that receives URLs of registered schemes.
    AttachDeepLink,
    /// Register this application with the OS as the handler of its schemes.
    RegisterUrlSchemes,
    /// Install the listener that receives delivered deep-link URLs.
    InstallDeepLinkListener,
    /// Attach the structured logger at the given verbosity.
    AttachLogger { level: LogLevel },
    /// Expose the one invocable command that opens a URL.
    RegisterOpenUrlCommand,
}

/// The startup sequence of a given build: the single-instance guard on
/// desktop only, the deep-link plugin always, scheme registration and the
/// URL listener where the platform supports them, the logger at
/// informational verbosity in debug builds only, and last the one command.
pub open spec fn plan_spec(t: BuildTarget) -> Seq<SetupStep> {
    (if t.desktop {
        seq![SetupStep::AttachSingleInstanceGuard]
    } else {
        Seq::empty()
    }) + seq![SetupStep::AttachDeepLink] + (if t.scheme_registration {
        seq![SetupStep::RegisterUrlSchemes, SetupStep::InstallDeepLinkListener]
    } else {
        Seq::empty()
    }) + (if t.debug {
        seq![SetupStep::AttachLogger { level: LogLevel::Info }]
    } else {
        Seq::empty()
    }) + seq![SetupStep::RegisterOpenUrlCommand]
}

/// The steps the shell performs for the build `t`, in order: exactly
/// `plan_spec(*t)`.
pub fn startup_plan(t: &BuildTarget) -> (r: Vec<SetupStep>)
    ensures
        r@ == plan_spec(*t),
{
    let mut steps: Vec<SetupStep> = Vec::new();
    if t.desktop {
        steps.push(SetupStep::AttachSingleInstanceGuard);
    }
    steps.push(SetupStep::AttachDeepLink);
    if t.scheme_registration {
        steps.push(SetupStep::RegisterUrlSchemes);
        steps.push(SetupStep::InstallDeepLinkListener);
    }
    if t.debug {
        steps.push(SetupStep::AttachLogger { level: LogLevel::Info });
    }
    steps.push(SetupStep::RegisterOpenUrlCommand);
    proof {
        assert(steps@ =~= plan_spec(*t));
    }
    steps
}

/// A debug build, and only a debug build, attaches the logger, at
/// informational verbosity and at no other; since every step of the plan
/// precedes the event loop, the logger is in place before any window is
/// shown.
pub proof fn lemma_debug_build_attaches_logger(t: BuildTarget)
    ensures
        t.debug <==> plan_spec(t).contains(SetupStep::AttachLogger { level: LogLevel::Info }),
        forall|i: int, level: LogLevel|
            0 <= i < plan_spec(t).len() && plan_spec(t)[i] == (SetupStep::AttachLogger {
                level,
            }) ==> t.debug && level == LogLevel::Info,
{
    let s = plan_spec(t);
    if t.debug {
        let k: int = (if t.desktop {
            1int
        } else {
            0int
        }) + 1 + (if t.scheme_registration {
            2int
        } else {
            0int
        });
        assert(s[k] == (SetupStep::AttachLogger { level: LogLevel::Info }));
        assert(s.contains(SetupStep::AttachLogger { level: LogLevel::Info }));
    } else {
        assert forall|i: int, level: LogLevel|
            0 <= i < s.len() && s[i] == (SetupStep::AttachLogger { level }) implies false by {
            assert(forall|j: int| 0 <= j < s.len() ==> s[j] !is AttachLogger);
        }
    }
}

/// Whether the shell enters the event loop or terminates. Any setup error
/// aborts the process with a diagnostic before a window is shown; a process
/// that aborts here exits with a failure status.
pub enum StartupDecision {
    /// Setup finished: hand control to the runtime's blocking event loop.
    EnterEventLoop,
    /// Setup failed: terminate at once with the diagnostic, fail-fast, no
    /// retry and no degraded mode.
    AbortProcess { diagnostic: String },
}

/// The shell's fate after plugin setup: the event loop exactly when setup
/// succeeded, otherwise an immediate abort carrying the setup error's text.
pub fn decide_startup(setup: Result<(), Error>) -> (r: StartupDecision)
    ensures
        setup is Ok <==> r is EnterEventLoop,
        (setup matches Err(e) ==> (r matches StartupDecision::AbortProcess { diagnostic }
            && diagnostic@ == e.message_spec())),
{
    match setup {
        Ok(()) => StartupDecision::EnterEventLoop,
        Err(e) => StartupDecision::AbortProcess { diagnostic: e.into_message() },
    }
}

} // verus!
