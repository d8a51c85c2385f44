//! The realtime watcher's decisions: which file-system events lead to a scan,
//! and of what.

use vstd::prelude::*;
use crate::scan::ScanOptions;
use crate::scan::DEFAULT_MAX_FILE_SIZE_BYTES;
use crate::text::string_views;

verus! {

/// How long the worker waits for the next event before it looks up again,
/// in milliseconds.
pub const POLL_TIMEOUT_MS: u64 = 500;

/// The directories to watch, each with everything below it.
#[derive(Debug, Clone)]
pub struct RealtimeOptions {
    pub paths: Vec<String>,
}

/// What happened to the paths of an event.
#[derive(Debug, Clone, Copy, PartialEq, Eq, Structural)]
pub enum ChangeKind {
    Create,
    /// Content or metadata changed.
    Modify,
    Rename,
    Remove,
    Access,
    Other,
}

/// A file-system event: a kind and the paths it affects.
#[derive(Debug, Clone)]
pub struct ChangeEvent {
    pub kind: ChangeKind,
    pub paths: Vec<String>,
}

/// The watcher is either stopped or running; there is no third state.
#[derive(Debug, Clone, Copy, PartialEq, Eq, Structural)]
pub enum WatcherState {
    Stopped,
    Running,
}

/// What the worker is told.
#[derive(Debug, Clone)]
pub enum WatcherInput {
    /// The caller starts the watcher on the given roots.
    Start(RealtimeOptions),
    /// The subscription delivered an event.
    Change(ChangeEvent),
    /// The wait for an event timed out, or the subscription reported an
    /// error.
    Idle,
    /// The caller released the watcher's handle.
    Release,
}

/// What the worker does next.
#[derive(Debug, Clone)]
pub enum WatcherAction {
    /// Subscribe to each of the roots, recursively.
    Subscribe(Vec<String>),
    /// Scan exactly these paths with the default options and forward every
    /// detection.
    Scan(Vec<String>),
    /// Nothing but to wait for the next event.
    Wait,
    /// End the worker.
    Halt,
}

pub enum InputView {
    Start(Seq<Seq<char>>),
    Change(ChangeKind, Seq<Seq<char>>),
    Idle,
    Release,
}

pub enum ActionView {
    Subscribe(Seq<Seq<char>>),
    Scan(Seq<Seq<char>>),
    Wait,
    Halt,
}

impl View for WatcherInput {
    type V = InputView;

    open spec fn view(&self) -> InputView {
        match self {
            WatcherInput::Start(opts) => InputView::Start(string_views(opts.paths@)),
            WatcherInput::Change(ev) => InputView::Change(ev.kind, string_views(ev.paths@)),
            WatcherInput::Idle => InputView::Idle,
            WatcherInput::Release => InputView::Release,
        }
    }
}

impl View for WatcherAction {
    type V = ActionView;

    open spec fn view(&self) -> ActionView {
        match self {
            WatcherAction::Subscribe(roots) => ActionView::Subscribe(string_views(roots@)),
            WatcherAction::Scan(paths) => ActionView::Scan(string_views(paths@)),
            WatcherAction::Wait => ActionView::Wait,
            WatcherAction::Halt => ActionView::Halt,
        }
    }
}

/// Only content that is created or changed is of interest: removals,
/// renames and reads are not.
pub open spec fn triggers_scan(kind: ChangeKind) -> bool {
    kind == ChangeKind::Create || kind == ChangeKind::Modify
}

/// The transition table. A stopped watcher reacts to nothing but a start; a
/// running one scans the paths of create and modify events, waits otherwise,
/// and stops on release.
pub open spec fn next_step(state: WatcherState, input: InputView) -> (WatcherState, ActionView) {
    match state {
        WatcherState::Stopped => match input {
            InputView::Start(roots) => (WatcherState::Running, ActionView::Subscribe(roots)),
            _ => (WatcherState::Stopped, ActionView::Halt),
        },
        WatcherState::Running => match input {
            InputView::Change(kind, paths) => if triggers_scan(kind) {
                (WatcherState::Running, ActionView::Scan(paths))
            } else {
                (WatcherState::Running, ActionView::Wait)
            },
            InputView::Release => (WatcherState::Stopped, ActionView::Halt),
            _ => (WatcherState::Running, ActionView::Wait),
        },
    }
}

/// Whether an event of this kind leads to a scan.
pub fn is_relevant(kind: ChangeKind) -> (relevant: bool)
    ensures
        relevant == triggers_scan(kind),
{
    match kind {
        ChangeKind::Create => true,
        ChangeKind::Modify => true,
        _ => false,
    }
}

/// One step of the watcher: the state after `input`, and what the worker is
/// to do.
pub fn watcher_step(state: WatcherState, input: WatcherInput) -> (step: (WatcherState, WatcherAction))
    ensures
        (step.0, step.1@) == next_step(state, input@),
{
    match state {
        WatcherState::Stopped => match input {
            WatcherInput::Start(opts) => (WatcherState::Running, WatcherAction::Subscribe(opts.paths)),
            _ => (WatcherState::Stopped, WatcherAction::Halt),
        },
        WatcherState::Running => match input {
            WatcherInput::Change(ev) => if is_relevant(ev.kind) {
                (WatcherState::Running, WatcherAction::Scan(ev.paths))
            } else {
                (WatcherState::Running, WatcherAction::Wait)
            },
            WatcherInput::Release => (WatcherState::Stopped, WatcherAction::Halt),
            _ => (WatcherState::Running, WatcherAction::Wait),
        },
    }
}

/// The options of every scan that the watcher starts: the defaults.
pub fn watcher_scan_options() -> (o: ScanOptions)
    ensures
        o@.include_extensions is None,
        o@.enable_heuristics,
        o@.max_file_size_bytes == DEFAULT_MAX_FILE_SIZE_BYTES,
{
    ScanOptions::default()
}

/// No event of a stopped watcher, and no removal, rename or read seen by a
/// running one, ever leads to a scan.
pub proof fn lemma_no_scan_without_change(state: WatcherState, input: InputView)
    requires
        state == WatcherState::Stopped || !(input matches InputView::Change(kind, _)
            && triggers_scan(kind)),
    ensures
        !(next_step(state, input).1 is Scan),
{
}

/// After release the watcher is stopped, and a stopped watcher stays stopped
/// until it is started again.
pub proof fn lemma_release_stops(state: WatcherState, input: InputView)
    ensures
        next_step(state, InputView::Release).0 == WatcherState::Stopped,
        state == WatcherState::Stopped && !(input is Start) ==> next_step(state, input).0
            == WatcherState::Stopped,
{
}

} // verus!
