use vstd::prelude::*;

use crate::config::MissingCredential;
use crate::issue::Issue;

verus! {

/// The exit code of a run that only printed the configuration file's location.
pub const SHOW_PATH_EXIT_CODE: i32 = 1;

/// Every way a run can fail. None is recovered: each ends the run.
#[derive(Clone, Copy, Debug, PartialEq, Eq, Structural)]
pub enum Failure {
    /// The stored record could not be read or written.
    ConfigIo,
    /// A credential is unset after merging.
    Missing(MissingCredential),
    /// The request could not be built or sent.
    Network,
    /// The response body is not a list of issues.
    Decode,
    /// The interactive chooser failed.
    Interaction,
    /// The browser could not be opened.
    Launch,
}

pub open spec fn label_of(f: Failure) -> Seq<char> {
    match f {
        Failure::ConfigIo => "Config error"@,
        Failure::Missing(_) => "Missing credential"@,
        Failure::Network => "Network error"@,
        Failure::Decode => "Decode error"@,
        Failure::Interaction => "Interaction error"@,
        Failure::Launch => "Launch error"@,
    }
}

impl Failure {
    /// The label printed before the cause.
    pub fn label(&self) -> (r: &'static str)
        ensures
            r@ == label_of(*self),
    {
        match self {
            Failure::ConfigIo => "Config error",
            Failure::Missing(_) => "Missing credential",
            Failure::Network => "Network error",
            Failure::Decode => "Decode error",
            Failure::Interaction => "Interaction error",
            Failure::Launch => "Launch error",
        }
    }

    /// The process exit code for this failure.
    pub fn exit_code(&self) -> (r: i32)
        ensures
            r == 1,
    {
        1
    }
}

/// The two states of the selection loop.
#[derive(Clone, Copy, Debug, PartialEq, Eq, Structural)]
pub enum LoopState {
    AwaitingSelection,
    Terminated,
}

/// What happened outside since the last action.
#[derive(Clone, Copy, Debug, PartialEq, Eq, Structural)]
pub enum LoopEvent {
    /// The user picked the issue at this index.
    Chosen(usize),
    /// The browser was asked to open the last URL.
    Opened,
    ChooserFailed,
    OpenFailed,
    Interrupted,
}

/// What to do next.
pub enum LoopAction {
    /// Show the whole list of issues and wait for a pick.
    Present,
    /// Open this URL in a browser.
    Open(String),
    /// End the run with this failure.
    Fail(Failure),
    /// End the run normally.
    Stop,
}

/// The loop starts by showing the list.
pub fn start() -> (r: (LoopState, LoopAction))
    ensures
        r.0 == LoopState::AwaitingSelection,
        r.1 is Present,
{
    (LoopState::AwaitingSelection, LoopAction::Present)
}

/// One transition of the selection loop over the fetched issues. A pick
/// opens that issue's URL; once the browser was asked, the list is shown
/// again. Failures and interrupts end the loop, which then stays ended.
pub fn step(issues: &Vec<Issue>, state: LoopState, event: LoopEvent) -> (r: (LoopState, LoopAction))
    ensures
        state == LoopState::Terminated ==> r.0 == LoopState::Terminated && r.1 is Stop,
        state == LoopState::AwaitingSelection ==> match event {
            LoopEvent::Chosen(i) => if i < issues@.len() {
                r.0 == LoopState::AwaitingSelection && (r.1 matches LoopAction::Open(u) && u@
                    == issues@[i as int].html_url@)
            } else {
                r.0 == LoopState::Terminated && (r.1 matches LoopAction::Fail(Failure::Interaction))
            },
            LoopEvent::Opened => r.0 == LoopState::AwaitingSelection && r.1 is Present,
            LoopEvent::ChooserFailed => r.0 == LoopState::Terminated && (r.1 matches LoopAction::Fail(
                Failure::Interaction,
            )),
            LoopEvent::OpenFailed => r.0 == LoopState::Terminated && (r.1 matches LoopAction::Fail(
                Failure::Launch,
            )),
            LoopEvent::Interrupted => r.0 == LoopState::Terminated && r.1 is Stop,
        },
{
    match state {
        LoopState::Terminated => (LoopState::Terminated, LoopAction::Stop),
        LoopState::AwaitingSelection => match event {
            LoopEvent::Chosen(i) => {
                if i < issues.len() {
                    (LoopState::AwaitingSelection, LoopAction::Open(issues[i].html_url.clone()))
                } else {
                    (LoopState::Terminated, LoopAction::Fail(Failure::Interaction))
                }
            },
            LoopEvent::Opened => (LoopState::AwaitingSelection, LoopAction::Present),
            LoopEvent::ChooserFailed => (LoopState::Terminated, LoopAction::Fail(Failure::Interaction)),
            LoopEvent::OpenFailed => (LoopState::Terminated, LoopAction::Fail(Failure::Launch)),
            LoopEvent::Interrupted => (LoopState::Terminated, LoopAction::Stop),
        },
    }
}

} // verus!
