//! The mathematical model of the UI state machine: abstract states, events
//! and effects, and the transition that `UiState::reduce` implements.
use vstd::prelude::*;

use crate::text::{bool_word, decimal};

verus! {

/// Identifies which pane is currently focused in the TUI layout.
#[derive(Debug, Clone, Copy, PartialEq, Eq, Structural)]
pub enum Pane {
    /// Main chat/conversation pane.
    Chat,
    /// Diff viewer pane.
    Diff,
    /// Task list pane.
    Tasks,
    /// Sub-agent list pane.
    Agents,
    /// Status overview pane.
    Status,
    /// Background jobs pane.
    Jobs,
}

/// The abstract value of a `UiState`: the same fields, with strings taken
/// as sequences of characters.
pub struct UiStateView {
    pub active_pane: Pane,
    pub paused: bool,
    pub last_response_delta: Option<Seq<char>>,
    pub active_tool: Option<Seq<char>>,
    pub pending_tasks: usize,
    pub active_jobs: usize,
    pub pending_approvals: usize,
    pub status_line: Seq<char>,
}

/// The abstract value of a `UiEvent`.
pub enum UiEventView {
    KeyPressed(char),
    PromptSubmitted(Seq<char>),
    ResponseDelta(Seq<char>),
    ToolStarted(Seq<char>),
    ToolFinished(Seq<char>),
    JobQueued(Seq<char>),
    JobProgress { job_id: Seq<char>, progress: u8 },
    JobCompleted(Seq<char>),
    ApprovalRequested(Seq<char>),
    ApprovalResolved(Seq<char>),
    PauseRequested,
    ResumeRequested,
    Tick,
}

/// The abstract value of a `UiEffect`.
pub enum UiEffectView {
    Render,
    PersistCheckpoint,
    ScheduleBackgroundRefresh,
    EmitStatusLine(Seq<char>),
}

/// The state a fresh UI starts in: chat pane, not paused, nothing pending,
/// status `ready`.
pub open spec fn initial_state() -> UiStateView {
    UiStateView {
        active_pane: Pane::Chat,
        paused: false,
        last_response_delta: None,
        active_tool: None,
        pending_tasks: 0,
        active_jobs: 0,
        pending_approvals: 0,
        status_line: "ready"@,
    }
}

/// The pane that a key selects: `1` chat, `2` diff, `3` tasks, `4` agents,
/// `5` jobs; every other key selects none.
pub open spec fn pane_for_key(c: char) -> Option<Pane> {
    if c == '1' {
        Some(Pane::Chat)
    } else if c == '2' {
        Some(Pane::Diff)
    } else if c == '3' {
        Some(Pane::Tasks)
    } else if c == '4' {
        Some(Pane::Agents)
    } else if c == '5' {
        Some(Pane::Jobs)
    } else {
        None
    }
}

/// Adds one to a counter, staying at `usize::MAX` there.
pub open spec fn saturating_inc(n: usize) -> usize {
    if n == usize::MAX {
        n
    } else {
        (n + 1) as usize
    }
}

/// Takes one from a counter, staying at zero there.
pub open spec fn saturating_dec(n: usize) -> usize {
    if n == 0 {
        0
    } else {
        (n - 1) as usize
    }
}

/// The progress percentage that a status line shows: the reported value,
/// clamped to 100.
pub open spec fn shown_progress(progress: u8) -> nat {
    if progress > 100 {
        100
    } else {
        progress as nat
    }
}

/// The status line that an event sets, where it sets one.
pub open spec fn status_for(s: UiStateView, e: UiEventView) -> Seq<char> {
    match e {
        UiEventView::PromptSubmitted(_) => "prompt submitted"@,
        UiEventView::ResponseDelta(_) => "streaming response"@,
        UiEventView::ToolStarted(name) => "tool running: "@ + name,
        UiEventView::ToolFinished(name) => "tool finished: "@ + name,
        UiEventView::JobQueued(_) => "job queued"@,
        UiEventView::JobProgress { progress, .. } => "job progress: "@ + decimal(
            shown_progress(progress),
        ) + "%"@,
        UiEventView::JobCompleted(_) => "job completed"@,
        UiEventView::ApprovalRequested(_) => "approval requested"@,
        UiEventView::ApprovalResolved(_) => "approval resolved"@,
        UiEventView::PauseRequested => "paused"@,
        UiEventView::ResumeRequested => "resumed"@,
        UiEventView::KeyPressed(_) => s.status_line,
        UiEventView::Tick => s.status_line,
    }
}

/// The state after the UI handles event `e` in state `s`.
pub open spec fn next_state(s: UiStateView, e: UiEventView) -> UiStateView {
    let status_line = status_for(s, e);
    match e {
        UiEventView::KeyPressed(c) => match pane_for_key(c) {
            Some(p) => UiStateView { active_pane: p, ..s },
            None => s,
        },
        UiEventView::PromptSubmitted(_) => UiStateView {
            pending_tasks: saturating_inc(s.pending_tasks),
            status_line,
            ..s
        },
        UiEventView::ResponseDelta(delta) => UiStateView {
            last_response_delta: Some(delta),
            status_line,
            ..s
        },
        UiEventView::ToolStarted(name) => UiStateView {
            active_tool: Some(name),
            status_line,
            ..s
        },
        UiEventView::ToolFinished(_) => UiStateView {
            active_tool: None,
            pending_tasks: saturating_dec(s.pending_tasks),
            status_line,
            ..s
        },
        UiEventView::JobQueued(_) => UiStateView {
            active_jobs: saturating_inc(s.active_jobs),
            status_line,
            ..s
        },
        UiEventView::JobProgress { .. } => UiStateView { status_line, ..s },
        UiEventView::JobCompleted(_) => UiStateView {
            active_jobs: saturating_dec(s.active_jobs),
            status_line,
            ..s
        },
        UiEventView::ApprovalRequested(_) => UiStateView {
            pending_approvals: saturating_inc(s.pending_approvals),
            status_line,
            ..s
        },
        UiEventView::ApprovalResolved(_) => UiStateView {
            pending_approvals: saturating_dec(s.pending_approvals),
            status_line,
            ..s
        },
        UiEventView::PauseRequested => UiStateView { paused: true, status_line, ..s },
        UiEventView::ResumeRequested => UiStateView { paused: false, status_line, ..s },
        UiEventView::Tick => s,
    }
}

/// Whether handling the event asks for a checkpoint to be persisted.
pub open spec fn persists(e: UiEventView) -> bool {
    match e {
        UiEventView::PromptSubmitted(_) => true,
        UiEventView::ToolFinished(_) => true,
        UiEventView::JobQueued(_) => true,
        UiEventView::JobCompleted(_) => true,
        UiEventView::ApprovalResolved(_) => true,
        _ => false,
    }
}

/// The effects, in order, that the UI emits when it handles event `e` in
/// state `s`: a tick schedules a background refresh; a pane key renders and
/// any other key does nothing; a queued job renders and persists; every other
/// event renders, persists where `persists` says so, and emits the new status
/// line.
pub open spec fn effects_of(s: UiStateView, e: UiEventView) -> Seq<UiEffectView> {
    match e {
        UiEventView::Tick => seq![UiEffectView::ScheduleBackgroundRefresh],
        UiEventView::KeyPressed(c) => if pane_for_key(c) is Some {
            seq![UiEffectView::Render]
        } else {
            Seq::empty()
        },
        UiEventView::JobQueued(_) => seq![UiEffectView::Render, UiEffectView::PersistCheckpoint],
        _ => {
            let head = if persists(e) {
                seq![UiEffectView::Render, UiEffectView::PersistCheckpoint]
            } else {
                seq![UiEffectView::Render]
            };
            head.push(UiEffectView::EmitStatusLine(next_state(s, e).status_line))
        },
    }
}

/// The name that `{:?}` prints for a pane.
pub open spec fn pane_name(p: Pane) -> Seq<char> {
    match p {
        Pane::Chat => "Chat"@,
        Pane::Diff => "Diff"@,
        Pane::Tasks => "Tasks"@,
        Pane::Agents => "Agents"@,
        Pane::Status => "Status"@,
        Pane::Jobs => "Jobs"@,
    }
}

/// The one-line summary of a state: its pane, pause flag, the three
/// counters, the active tool (empty where there is none) and the status line,
/// as `key=value` pairs separated by `;`.
pub open spec fn snapshot_text(s: UiStateView) -> Seq<char> {
    "pane="@ + pane_name(s.active_pane) + ";paused="@ + bool_word(s.paused) + ";pending_tasks="@
        + decimal(s.pending_tasks as nat) + ";active_jobs="@ + decimal(s.active_jobs as nat)
        + ";pending_approvals="@ + decimal(s.pending_approvals as nat) + ";active_tool="@ + (
    match s.active_tool {
        Some(t) => t,
        None => Seq::empty(),
    }) + ";status="@ + s.status_line
}

} // verus!
