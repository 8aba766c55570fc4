//! The control protocol: what a command does to the serving state, what is
//! answered, and what the server has to do besides answering.
//!
//! This is the only place that changes the serving state.

use vstd::prelude::*;
use vstd::string::*;
use crate::ipc::{Command, Response};
use crate::path::{path_text, CanonicalPath};
use crate::state::{
    after_set_directory, after_set_file, directory_outcome, file_outcome, PathProbe, ProbeView,
    ServeError, ServingState, ServingView,
};
use crate::watch::{action_for, next_state, watched, WatchActionView, WatchEventView, WatchStateView};
use crate::text::concat2;

verus! {

/// Seconds between the answer to `Stop` and the end of the process.
pub const STOP_GRACE_SECS: u64 = 2;

/// What the server has to do besides answering.
#[derive(Debug, Clone, PartialEq, Eq)]
pub enum ControlEffect {
    /// Nothing.
    Nothing,
    /// The root has become `root`: bind the watch to it and send one reload
    /// signal.
    RootChanged { root: CanonicalPath },
    /// Send the answer, wait that many seconds, then end the process.
    ExitAfter { secs: u64 },
}

/// An effect in contracts.
pub enum ControlEffectView {
    Nothing,
    RootChanged { root: Seq<Seq<char>> },
    ExitAfter { secs: u64 },
}

impl View for ControlEffect {
    type V = ControlEffectView;

    open spec fn view(&self) -> ControlEffectView {
        match self {
            ControlEffect::Nothing => ControlEffectView::Nothing,
            ControlEffect::RootChanged { root } => ControlEffectView::RootChanged { root: root@ },
            ControlEffect::ExitAfter { secs } => ControlEffectView::ExitAfter { secs: *secs },
        }
    }
}

/// A command together with what the filesystem said of its path.
#[derive(Debug, PartialEq, Eq)]
pub enum ProbedCommand {
    SetDirectory { path: String, probe: PathProbe },
    SetFile { path: String, probe: PathProbe },
    GetStatus,
    Stop,
}

/// A probed command in contracts.
pub enum ProbedCommandView {
    SetDirectory { path: Seq<char>, probe: ProbeView },
    SetFile { path: Seq<char>, probe: ProbeView },
    GetStatus,
    Stop,
}

impl View for ProbedCommand {
    type V = ProbedCommandView;

    open spec fn view(&self) -> ProbedCommandView {
        match self {
            ProbedCommand::SetDirectory { path, probe } => ProbedCommandView::SetDirectory {
                path: path@,
                probe: probe@,
            },
            ProbedCommand::SetFile { path, probe } => ProbedCommandView::SetFile {
                path: path@,
                probe: probe@,
            },
            ProbedCommand::GetStatus => ProbedCommandView::GetStatus,
            ProbedCommand::Stop => ProbedCommandView::Stop,
        }
    }
}

/// An answer in contracts.
pub struct ResponseView {
    pub success: bool,
    pub message: Seq<char>,
    pub current_path: Option<Seq<char>>,
    pub port: Option<u16>,
}

impl View for Response {
    type V = ResponseView;

    open spec fn view(&self) -> ResponseView {
        ResponseView {
            success: self.success,
            message: self.message@,
            current_path: match self.current_path {
                Some(path) => Some(path@),
                None => None,
            },
            port: self.port,
        }
    }
}

/// The answer and what else is to be done.
#[derive(Debug, Clone, PartialEq, Eq)]
pub struct ControlOutcome {
    pub response: Response,
    pub effect: ControlEffect,
}

/// What the filesystem could not say of a path's canonical form.
pub open spec fn canonical_failure(probe: ProbeView) -> Seq<char> {
    match probe.canonical {
        Ok(_) => Seq::<char>::empty(),
        Err(why) => why,
    }
}

/// The message that answers `SetDirectory`, where `quoted` is the path as the
/// client gave it, in quotes.
pub open spec fn directory_message(quoted: Seq<char>, probe: ProbeView) -> Seq<char> {
    match directory_outcome(probe) {
        Ok(path) => "Directory set to: "@ + path_text(path),
        Err(ServeError::NotFound) => "Path does not exist: "@ + quoted,
        Err(ServeError::NotADirectory) => "Path is not a directory: "@ + quoted,
        Err(_) => "Cannot canonicalize path: "@ + canonical_failure(probe),
    }
}

/// The message that answers `SetFile`, where `quoted` is the path as the
/// client gave it, in quotes.
pub open spec fn file_message(quoted: Seq<char>, probe: ProbeView) -> Seq<char> {
    match file_outcome(probe) {
        Ok(path) => "Direct file set to: "@ + path_text(path),
        Err(ServeError::NotFound) => "File does not exist: "@ + quoted,
        Err(ServeError::NotAFile) => "Path is not a file: "@ + quoted,
        Err(ServeError::NoParentDirectory) => "Cannot determine parent directory"@,
        Err(_) => "Cannot canonicalize path: "@ + canonical_failure(probe),
    }
}

/// The answer to a command, where `quoted` is the command's path in quotes.
pub open spec fn control_response(
    before: ServingView,
    command: ProbedCommandView,
    quoted: Seq<char>,
    port: u16,
) -> ResponseView {
    match command {
        ProbedCommandView::SetDirectory { path, probe } => ResponseView {
            success: directory_outcome(probe) is Ok,
            message: directory_message(quoted, probe),
            current_path: None,
            port: None,
        },
        ProbedCommandView::SetFile { path, probe } => ResponseView {
            success: file_outcome(probe) is Ok,
            message: file_message(quoted, probe),
            current_path: None,
            port: None,
        },
        ProbedCommandView::GetStatus => ResponseView {
            success: true,
            message: "Server running"@,
            current_path: Some(path_text(before.root)),
            port: Some(port),
        },
        ProbedCommandView::Stop => ResponseView {
            success: true,
            message: "Server stopping"@,
            current_path: None,
            port: None,
        },
    }
}

/// What a command leaves to be done besides the answer: a command that sets
/// the directory or the file and succeeds changes the root, `Stop` ends the
/// process after the grace time, and nothing else is left to do.
pub open spec fn control_effect(command: ProbedCommandView) -> ControlEffectView {
    match command {
        ProbedCommandView::SetDirectory { path, probe } => match directory_outcome(probe) {
            Ok(directory) => ControlEffectView::RootChanged { root: directory },
            Err(_) => ControlEffectView::Nothing,
        },
        ProbedCommandView::SetFile { path, probe } => match file_outcome(probe) {
            Ok(file) => ControlEffectView::RootChanged { root: file.drop_last() },
            Err(_) => ControlEffectView::Nothing,
        },
        ProbedCommandView::GetStatus => ControlEffectView::Nothing,
        ProbedCommandView::Stop => ControlEffectView::ExitAfter { secs: STOP_GRACE_SECS },
    }
}

/// The serving state after a command.
pub open spec fn control_state(before: ServingView, command: ProbedCommandView) -> ServingView {
    match command {
        ProbedCommandView::SetDirectory { path, probe } => after_set_directory(before, probe),
        ProbedCommandView::SetFile { path, probe } => after_set_file(before, probe),
        ProbedCommandView::GetStatus => before,
        ProbedCommandView::Stop => before,
    }
}

/// The path that a command names, for the commands that name one.
pub open spec fn command_path(command: ProbedCommandView) -> Seq<char> {
    match command {
        ProbedCommandView::SetDirectory { path, probe } => path,
        ProbedCommandView::SetFile { path, probe } => path,
        ProbedCommandView::GetStatus => Seq::<char>::empty(),
        ProbedCommandView::Stop => Seq::<char>::empty(),
    }
}

/// What `{:?}` writes for the path that `s` names: the path in double quotes,
/// with the characters that need it escaped.
pub uninterp spec fn debug_quoted(s: Seq<char>) -> Seq<char>;

/// Calls std's `Debug` formatting of `Path`, on `s` taken as a path. The
/// contract gives its result a name and claims that it depends on the
/// characters of `s` alone.
#[verifier::external_body]
fn debug_quote(s: &str) -> (quoted: String)
    ensures
        quoted@ == debug_quoted(s@),
{
    format!("{:?}", std::path::Path::new(s))
}

/// The path that a command names, for the commands that name one.
pub fn path_to_probe(command: &Command) -> (path: Option<String>)
    ensures
        match *command {
            Command::SetDirectory { path: p } => path is Some && path->0@ == p@,
            Command::SetFile { path: p } => path is Some && path->0@ == p@,
            Command::GetStatus => path is None,
            Command::Stop => path is None,
        },
{
    match command {
        Command::SetDirectory { path } => Some(path.clone()),
        Command::SetFile { path } => Some(path.clone()),
        Command::GetStatus => None,
        Command::Stop => None,
    }
}

/// A command joined with what the filesystem said of its path. `probe` is read
/// only for the commands that name a path.
pub fn with_probe(command: Command, probe: PathProbe) -> (probed: ProbedCommand)
    ensures
        probed@ == match command {
            Command::SetDirectory { path } => ProbedCommandView::SetDirectory {
                path: path@,
                probe: probe@,
            },
            Command::SetFile { path } => ProbedCommandView::SetFile { path: path@, probe: probe@ },
            Command::GetStatus => ProbedCommandView::GetStatus,
            Command::Stop => ProbedCommandView::Stop,
        },
{
    match command {
        Command::SetDirectory { path } => ProbedCommand::SetDirectory { path, probe },
        Command::SetFile { path } => ProbedCommand::SetFile { path, probe },
        Command::GetStatus => ProbedCommand::GetStatus,
        Command::Stop => ProbedCommand::Stop,
    }
}

/// Applies a command to the serving state and answers it, where `quoted` is the
/// command's path in quotes. `GetStatus` and `Stop` change nothing; a command
/// that fails changes nothing; no command fails in any other way than by its
/// answer.
pub fn apply_command(
    state: &mut ServingState,
    command: &ProbedCommand,
    quoted: &str,
    port: u16,
) -> (outcome: ControlOutcome)
    ensures
        final(state)@ == control_state(old(state)@, command@),
        outcome.response@ == control_response(old(state)@, command@, quoted@, port),
        outcome.effect@ == control_effect(command@),
        command@ is GetStatus ==> final(state)@ == old(state)@,
{
    match command {
        ProbedCommand::SetDirectory { path, probe } => {
            match state.set_directory(probe) {
                Ok(canonical) => {
                    let shown = canonical.to_path_string();
                    ControlOutcome {
                        response: Response::success(concat2("Directory set to: ", shown.as_str())),
                        effect: ControlEffect::RootChanged { root: state.get_root() },
                    }
                },
                Err(e) => {
                    let message = match e {
                        ServeError::NotFound => concat2("Path does not exist: ", quoted),
                        ServeError::NotADirectory => concat2("Path is not a directory: ", quoted),
                        _ => concat2("Cannot canonicalize path: ", failure_text(probe).as_str()),
                    };
                    ControlOutcome {
                        response: Response::error(message),
                        effect: ControlEffect::Nothing,
                    }
                },
            }
        },
        ProbedCommand::SetFile { path, probe } => {
            match state.set_file(probe) {
                Ok(canonical) => {
                    let shown = canonical.to_path_string();
                    ControlOutcome {
                        response: Response::success(
                            concat2("Direct file set to: ", shown.as_str()),
                        ),
                        effect: ControlEffect::RootChanged { root: state.get_root() },
                    }
                },
                Err(e) => {
                    let message = match e {
                        ServeError::NotFound => concat2("File does not exist: ", quoted),
                        ServeError::NotAFile => concat2("Path is not a file: ", quoted),
                        ServeError::NoParentDirectory => String::from_str(
                            "Cannot determine parent directory",
                        ),
                        _ => concat2("Cannot canonicalize path: ", failure_text(probe).as_str()),
                    };
                    ControlOutcome {
                        response: Response::error(message),
                        effect: ControlEffect::Nothing,
                    }
                },
            }
        },
        ProbedCommand::GetStatus => {
            let shown = state.get_root().to_path_string();
            ControlOutcome {
                response: Response::status(String::from_str("Server running"), shown, port),
                effect: ControlEffect::Nothing,
            }
        },
        ProbedCommand::Stop => ControlOutcome {
            response: Response::success(String::from_str("Server stopping")),
            effect: ControlEffect::ExitAfter { secs: STOP_GRACE_SECS },
        },
    }
}

/// What the filesystem could not say of a path's canonical form.
pub fn failure_text(probe: &PathProbe) -> (why: String)
    ensures
        why@ == canonical_failure(probe@),
{
    match &probe.canonical {
        Ok(_) => String::new(),
        Err(why) => why.clone(),
    }
}

/// Applies a command to the serving state and answers it. The answer to a
/// command whose path is missing or of the wrong kind shows the path in quotes.
pub fn handle_command(state: &mut ServingState, command: &ProbedCommand, port: u16) -> (outcome:
    ControlOutcome)
    ensures
        final(state)@ == control_state(old(state)@, command@),
        outcome.response@ == control_response(
            old(state)@,
            command@,
            debug_quoted(command_path(command@)),
            port,
        ),
        outcome.effect@ == control_effect(command@),
        command@ is GetStatus ==> final(state)@ == old(state)@,
{
    let quoted = match command {
        ProbedCommand::SetDirectory { path, probe } => debug_quote(path.as_str()),
        ProbedCommand::SetFile { path, probe } => debug_quote(path.as_str()),
        ProbedCommand::GetStatus => String::new(),
        ProbedCommand::Stop => String::new(),
    };
    apply_command(state, command, quoted.as_str(), port)
}

/// Asking for the status, any number of times, leaves the root and the direct
/// file as they were.
pub proof fn law_status_changes_nothing(before: ServingView, times: nat)
    ensures
        after_status_requests(before, times) == before,
    decreases times,
{
    if times > 0 {
        law_status_changes_nothing(before, (times - 1) as nat);
    }
}

/// The serving state after `times` status requests.
pub open spec fn after_status_requests(before: ServingView, times: nat) -> ServingView
    decreases times,
{
    if times == 0 {
        before
    } else {
        control_state(
            after_status_requests(before, (times - 1) as nat),
            ProbedCommandView::GetStatus,
        )
    }
}

/// Where a command changes the root, the root that the effect names is the
/// root that is served afterwards; and once the watch is told of it, that root
/// is the one that is watched, and the watch on the root before is released.
pub proof fn law_watch_follows_the_root(
    before: ServingView,
    command: ProbedCommandView,
    watch: WatchStateView,
)
    ensures
        match control_effect(command) {
            ControlEffectView::RootChanged { root } => {
                &&& root == control_state(before, command).root
                &&& watched(next_state(watch, WatchEventView::Rebind { root })) == Some(root)
                &&& action_for(watch, WatchEventView::Rebind { root }) == (WatchActionView::Bind {
                    release: watched(watch),
                    bind: root,
                })
            },
            _ => control_state(before, command) == before,
        },
{
}

} // verus!
