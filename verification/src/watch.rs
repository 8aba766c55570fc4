//! The filesystem watch as a state machine.
//!
//! The machine holds at most one watched directory. Whoever runs it reports
//! what happened and does what the machine answers: bind, wait, or send a
//! reload signal.

use vstd::prelude::*;
use crate::path::CanonicalPath;

verus! {

/// Seconds to wait after a watch could not be made or bound.
pub const WATCH_BACKOFF_SECS: u64 = 5;

/// What kind of change the filesystem reported.
#[derive(Debug, Clone, Copy, PartialEq, Eq, Structural)]
pub enum ChangeKind {
    /// Something, not said what.
    Any,
    /// An entry was opened, read or closed.
    Access,
    /// An entry was made.
    Create,
    /// An entry was changed.
    Modify,
    /// An entry was removed.
    Remove,
    /// Something else.
    Other,
}

/// Where the watch stands.
#[derive(Debug, Clone, PartialEq, Eq)]
pub enum WatchState {
    /// Nothing is watched and nothing is due.
    Unarmed,
    /// The watch is bound, or being bound, to `root`.
    Watching { root: CanonicalPath },
    /// Making or binding the watch failed: the next try is due after the
    /// backoff.
    Retrying,
}

/// What happened.
#[derive(Debug, Clone, PartialEq, Eq)]
pub enum WatchEvent {
    /// The server has started with `root`, or the root has become `root`.
    Rebind { root: CanonicalPath },
    /// The watch could not be made, or could not be bound.
    BindFailed,
    /// The backoff is over; the root is `root` now.
    RetryDue { root: CanonicalPath },
    /// The filesystem reported a change.
    Changed { kind: ChangeKind },
}

/// What is to be done.
#[derive(Debug, Clone, PartialEq, Eq)]
pub enum WatchAction {
    /// Nothing.
    Nothing,
    /// Release the watch on `release`, where there is one, and bind to `bind`,
    /// with everything below it.
    Bind { release: Option<CanonicalPath>, bind: CanonicalPath },
    /// Wait that many seconds, then report that the retry is due.
    Backoff { secs: u64 },
    /// Send one reload signal.
    Reload,
}

/// A state in contracts.
pub enum WatchStateView {
    Unarmed,
    Watching { root: Seq<Seq<char>> },
    Retrying,
}

/// An event in contracts.
pub enum WatchEventView {
    Rebind { root: Seq<Seq<char>> },
    BindFailed,
    RetryDue { root: Seq<Seq<char>> },
    Changed { kind: ChangeKind },
}

/// An action in contracts.
pub enum WatchActionView {
    Nothing,
    Bind { release: Option<Seq<Seq<char>>>, bind: Seq<Seq<char>> },
    Backoff { secs: u64 },
    Reload,
}

impl View for WatchState {
    type V = WatchStateView;

    open spec fn view(&self) -> WatchStateView {
        match self {
            WatchState::Unarmed => WatchStateView::Unarmed,
            WatchState::Watching { root } => WatchStateView::Watching { root: root@ },
            WatchState::Retrying => WatchStateView::Retrying,
        }
    }
}

impl View for WatchEvent {
    type V = WatchEventView;

    open spec fn view(&self) -> WatchEventView {
        match self {
            WatchEvent::Rebind { root } => WatchEventView::Rebind { root: root@ },
            WatchEvent::BindFailed => WatchEventView::BindFailed,
            WatchEvent::RetryDue { root } => WatchEventView::RetryDue { root: root@ },
            WatchEvent::Changed { kind } => WatchEventView::Changed { kind: *kind },
        }
    }
}

impl View for WatchAction {
    type V = WatchActionView;

    open spec fn view(&self) -> WatchActionView {
        match self {
            WatchAction::Nothing => WatchActionView::Nothing,
            WatchAction::Bind { release, bind } => WatchActionView::Bind {
                release: match release {
                    Some(path) => Some(path@),
                    None => None,
                },
                bind: bind@,
            },
            WatchAction::Backoff { secs } => WatchActionView::Backoff { secs: *secs },
            WatchAction::Reload => WatchActionView::Reload,
        }
    }
}

/// The change means that content may differ: something was made, changed or
/// removed.
pub open spec fn is_content_change(kind: ChangeKind) -> bool {
    kind == ChangeKind::Create || kind == ChangeKind::Modify || kind == ChangeKind::Remove
}

/// The directory that is watched, where one is.
pub open spec fn watched(state: WatchStateView) -> Option<Seq<Seq<char>>> {
    match state {
        WatchStateView::Watching { root } => Some(root),
        _ => None,
    }
}

/// The state after an event. A failure to make or bind the watch leads to a
/// retry wherever it happens: before anything is watched as well as while a
/// directory is.
pub open spec fn next_state(state: WatchStateView, event: WatchEventView) -> WatchStateView {
    match (state, event) {
        (_, WatchEventView::Rebind { root }) => WatchStateView::Watching { root },
        (WatchStateView::Watching { root }, WatchEventView::BindFailed) => WatchStateView::Retrying,
        (WatchStateView::Unarmed, WatchEventView::BindFailed) => WatchStateView::Retrying,
        (WatchStateView::Retrying, WatchEventView::RetryDue { root }) => WatchStateView::Watching {
            root,
        },
        _ => state,
    }
}

/// What an event asks for.
pub open spec fn action_for(state: WatchStateView, event: WatchEventView) -> WatchActionView {
    match (state, event) {
        (_, WatchEventView::Rebind { root }) => WatchActionView::Bind {
            release: watched(state),
            bind: root,
        },
        (WatchStateView::Watching { root }, WatchEventView::BindFailed) => WatchActionView::Backoff {
            secs: WATCH_BACKOFF_SECS,
        },
        (WatchStateView::Unarmed, WatchEventView::BindFailed) => WatchActionView::Backoff {
            secs: WATCH_BACKOFF_SECS,
        },
        (WatchStateView::Retrying, WatchEventView::RetryDue { root }) => WatchActionView::Bind {
            release: None,
            bind: root,
        },
        (WatchStateView::Watching { root }, WatchEventView::Changed { kind }) => {
            if is_content_change(kind) {
                WatchActionView::Reload
            } else {
                WatchActionView::Nothing
            }
        },
        _ => WatchActionView::Nothing,
    }
}

/// How many reload signals an action sends.
pub open spec fn signals_of(action: WatchActionView) -> nat {
    if action is Reload {
        1
    } else {
        0
    }
}

/// Whether the change means that content may differ.
pub fn content_changed(kind: ChangeKind) -> (changed: bool)
    ensures
        changed == is_content_change(kind),
{
    kind == ChangeKind::Create || kind == ChangeKind::Modify || kind == ChangeKind::Remove
}

impl WatchState {
    /// The state before anything is watched.
    pub fn new() -> (state: WatchState)
        ensures
            state@ == WatchStateView::Unarmed,
    {
        WatchState::Unarmed
    }

    /// The state after `event`, and what is to be done.
    pub fn step(self, event: WatchEvent) -> (next: (WatchState, WatchAction))
        ensures
            next.0@ == next_state(self@, event@),
            next.1@ == action_for(self@, event@),
    {
        match (self, event) {
            (WatchState::Watching { root: old_root }, WatchEvent::Rebind { root }) => {
                let bind = root.duplicate();
                (WatchState::Watching { root }, WatchAction::Bind { release: Some(old_root), bind })
            },
            (WatchState::Unarmed, WatchEvent::Rebind { root }) => {
                let bind = root.duplicate();
                (WatchState::Watching { root }, WatchAction::Bind { release: None, bind })
            },
            (WatchState::Retrying, WatchEvent::Rebind { root }) => {
                let bind = root.duplicate();
                (WatchState::Watching { root }, WatchAction::Bind { release: None, bind })
            },
            (WatchState::Watching { root }, WatchEvent::BindFailed) => (
                WatchState::Retrying,
                WatchAction::Backoff { secs: WATCH_BACKOFF_SECS },
            ),
            (WatchState::Unarmed, WatchEvent::BindFailed) => (
                WatchState::Retrying,
                WatchAction::Backoff { secs: WATCH_BACKOFF_SECS },
            ),
            (WatchState::Retrying, WatchEvent::RetryDue { root }) => {
                let bind = root.duplicate();
                (WatchState::Watching { root }, WatchAction::Bind { release: None, bind })
            },
            (WatchState::Watching { root }, WatchEvent::Changed { kind }) => {
                if content_changed(kind) {
                    (WatchState::Watching { root }, WatchAction::Reload)
                } else {
                    (WatchState::Watching { root }, WatchAction::Nothing)
                }
            },
            (state, _) => (state, WatchAction::Nothing),
        }
    }
}

/// When the root changes, the watch on the old root is released and the new
/// root is the one that is watched: never two, never a stale one.
pub proof fn law_rebind_releases_the_old_watch(state: WatchStateView, root: Seq<Seq<char>>)
    ensures
        watched(next_state(state, WatchEventView::Rebind { root })) == Some(root),
        action_for(state, WatchEventView::Rebind { root }) == (WatchActionView::Bind {
            release: watched(state),
            bind: root,
        }),
{
}

/// A watch is bound only to the directory that is watched afterwards.
pub proof fn law_bind_matches_state(state: WatchStateView, event: WatchEventView)
    ensures
        match action_for(state, event) {
            WatchActionView::Bind { release, bind } => watched(next_state(state, event)) == Some(
                bind,
            ) && release == watched(state),
            _ => true,
        },
{
}

/// Whatever the filesystem reports, at most one reload signal is sent for it,
/// the watched directory stays the same, and a signal is sent exactly when
/// the watch is bound and something was made, changed or removed.
pub proof fn law_one_signal_per_change(state: WatchStateView, kind: ChangeKind)
    ensures
        signals_of(action_for(state, WatchEventView::Changed { kind })) <= 1,
        signals_of(action_for(state, WatchEventView::Changed { kind })) == 1 <==> (state
            is Watching && is_content_change(kind)),
        next_state(state, WatchEventView::Changed { kind }) == state,
{
}

/// A watch that could not be made or bound is tried again after the backoff,
/// whether a directory was being watched or nothing was yet, and the retry
/// binds to the root of that time. However often it fails, the next failure
/// leads to the next retry: the machine never gives up.
pub proof fn law_failed_binding_is_retried(state: WatchStateView, later_root: Seq<Seq<char>>)
    ensures
        next_state(state, WatchEventView::BindFailed) is Retrying,
        !(state is Retrying) ==> action_for(state, WatchEventView::BindFailed) == (
        WatchActionView::Backoff { secs: WATCH_BACKOFF_SECS }),
        state is Retrying ==> action_for(state, WatchEventView::BindFailed) is Nothing,
        next_state(WatchStateView::Retrying, WatchEventView::RetryDue { root: later_root }) == (
        WatchStateView::Watching { root: later_root }),
        action_for(WatchStateView::Retrying, WatchEventView::RetryDue { root: later_root }) == (
        WatchActionView::Bind { release: None, bind: later_root }),
{
}

} // verus!
