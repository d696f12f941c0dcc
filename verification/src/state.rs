//! The executable UI state machine: events in, state changes and effects out.
use vstd::prelude::*;

use crate::model::{
    effects_of, initial_state, next_state, pane_name, snapshot_text, Pane, UiEffectView, UiEventView,
    UiStateView,
};
use crate::text::{push_bool, push_decimal};

verus! {

/// Events fed into the UI state machine from user input or runtime updates.
#[derive(Debug, Clone, PartialEq, Eq)]
pub enum UiEvent {
    /// A key was pressed by the user.
    KeyPressed(char),
    /// The user submitted a prompt string.
    PromptSubmitted(String),
    /// A partial response arrived from the model.
    ResponseDelta(String),
    /// A tool began executing.
    ToolStarted(String),
    /// A tool finished executing.
    ToolFinished(String),
    /// A background job was queued.
    JobQueued(String),
    /// A background job reported progress.
    JobProgress { job_id: String, progress: u8 },
    /// A background job completed.
    JobCompleted(String),
    /// An exec approval was requested from the user.
    ApprovalRequested(String),
    /// An exec approval was resolved.
    ApprovalResolved(String),
    /// The user requested a pause.
    PauseRequested,
    /// The user requested a resume.
    ResumeRequested,
    /// Periodic tick for background work scheduling.
    Tick,
}

impl View for UiEvent {
    type V = UiEventView;

    open spec fn view(&self) -> UiEventView {
        match self {
            UiEvent::KeyPressed(c) => UiEventView::KeyPressed(*c),
            UiEvent::PromptSubmitted(p) => UiEventView::PromptSubmitted(p@),
            UiEvent::ResponseDelta(d) => UiEventView::ResponseDelta(d@),
            UiEvent::ToolStarted(n) => UiEventView::ToolStarted(n@),
            UiEvent::ToolFinished(n) => UiEventView::ToolFinished(n@),
            UiEvent::JobQueued(j) => UiEventView::JobQueued(j@),
            UiEvent::JobProgress { job_id, progress } => UiEventView::JobProgress {
                job_id: job_id@,
                progress: *progress,
            },
            UiEvent::JobCompleted(j) => UiEventView::JobCompleted(j@),
            UiEvent::ApprovalRequested(a) => UiEventView::ApprovalRequested(a@),
            UiEvent::ApprovalResolved(a) => UiEventView::ApprovalResolved(a@),
            UiEvent::PauseRequested => UiEventView::PauseRequested,
            UiEvent::ResumeRequested => UiEventView::ResumeRequested,
            UiEvent::Tick => UiEventView::Tick,
        }
    }
}

/// Side effects emitted by the state machine in response to events.
#[derive(Debug, Clone, PartialEq, Eq)]
pub enum UiEffect {
    /// The UI should re-render.
    Render,
    /// A checkpoint should be persisted to the state store.
    PersistCheckpoint,
    /// A background refresh should be scheduled.
    ScheduleBackgroundRefresh,
    /// A status line message should be emitted to the footer.
    EmitStatusLine(String),
}

impl DeepView for UiEffect {
    type V = UiEffectView;

    open spec fn deep_view(&self) -> UiEffectView {
        match self {
            UiEffect::Render => UiEffectView::Render,
            UiEffect::PersistCheckpoint => UiEffectView::PersistCheckpoint,
            UiEffect::ScheduleBackgroundRefresh => UiEffectView::ScheduleBackgroundRefresh,
            UiEffect::EmitStatusLine(line) => UiEffectView::EmitStatusLine(line@),
        }
    }
}

/// The complete UI state, driven by [`UiEvent`] via [`UiState::reduce`].
#[derive(Debug, Clone)]
pub struct UiState {
    /// Currently active/focused pane.
    pub active_pane: Pane,
    /// Whether the UI is paused (no new work dispatched).
    pub paused: bool,
    /// Most recent partial response delta from the model.
    pub last_response_delta: Option<String>,
    /// Name of the currently executing tool, if any.
    pub active_tool: Option<String>,
    /// Number of tasks waiting to be processed.
    pub pending_tasks: usize,
    /// Number of active background jobs.
    pub active_jobs: usize,
    /// Number of pending approval requests.
    pub pending_approvals: usize,
    /// Current status line text shown in the footer.
    pub status_line: String,
}

impl View for UiState {
    type V = UiStateView;

    open spec fn view(&self) -> UiStateView {
        UiStateView {
            active_pane: self.active_pane,
            paused: self.paused,
            last_response_delta: self.last_response_delta.deep_view(),
            active_tool: self.active_tool.deep_view(),
            pending_tasks: self.pending_tasks,
            active_jobs: self.active_jobs,
            pending_approvals: self.pending_approvals,
            status_line: self.status_line@,
        }
    }
}

impl Default for UiState {
    fn default() -> (state: Self)
        ensures
            state@ == initial_state(),
    {
        UiState {
            active_pane: Pane::Chat,
            paused: false,
            last_response_delta: None,
            active_tool: None,
            pending_tasks: 0,
            active_jobs: 0,
            pending_approvals: 0,
            status_line: String::from_str("ready"),
        }
    }
}

/// The name that `{:?}` prints for a pane.
fn pane_label(p: Pane) -> (label: &'static str)
    ensures
        label@ == pane_name(p),
{
    match p {
        Pane::Chat => "Chat",
        Pane::Diff => "Diff",
        Pane::Tasks => "Tasks",
        Pane::Agents => "Agents",
        Pane::Status => "Status",
        Pane::Jobs => "Jobs",
    }
}

/// The effects `[Render, EmitStatusLine(line)]`, with `PersistCheckpoint`
/// between them where `persist` holds.
fn status_effects(persist: bool, line: &String) -> (effects: Vec<UiEffect>)
    ensures
        effects.deep_view() == (if persist {
            seq![UiEffectView::Render, UiEffectView::PersistCheckpoint]
        } else {
            seq![UiEffectView::Render]
        }).push(UiEffectView::EmitStatusLine(line@)),
{
    let mut effects: Vec<UiEffect> = Vec::new();
    effects.push(UiEffect::Render);
    if persist {
        effects.push(UiEffect::PersistCheckpoint);
    }
    effects.push(UiEffect::EmitStatusLine(line.clone()));
    assert(effects.deep_view() =~= (if persist {
        seq![UiEffectView::Render, UiEffectView::PersistCheckpoint]
    } else {
        seq![UiEffectView::Render]
    }).push(UiEffectView::EmitStatusLine(line@)));
    effects
}

impl UiState {
    /// Process a UI event, updating internal state and returning side effects.
    pub fn reduce(&mut self, event: UiEvent) -> (effects: Vec<UiEffect>)
        ensures
            final(self)@ == next_state(old(self)@, event@),
            effects.deep_view() == effects_of(old(self)@, event@),
    {
        match event {
            UiEvent::KeyPressed(c) => {
                let pane = match c {
                    '1' => Some(Pane::Chat),
                    '2' => Some(Pane::Diff),
                    '3' => Some(Pane::Tasks),
                    '4' => Some(Pane::Agents),
                    '5' => Some(Pane::Jobs),
                    _ => None,
                };
                match pane {
                    Some(p) => {
                        self.active_pane = p;
                        let effects = vec![UiEffect::Render];
                        assert(effects.deep_view() =~= seq![UiEffectView::Render]);
                        effects
                    },
                    None => {
                        let effects: Vec<UiEffect> = Vec::new();
                        assert(effects.deep_view() =~= Seq::<UiEffectView>::empty());
                        effects
                    },
                }
            },
            UiEvent::PromptSubmitted(_) => {
                self.pending_tasks = self.pending_tasks.saturating_add(1);
                self.status_line = String::from_str("prompt submitted");
                status_effects(true, &self.status_line)
            },
            UiEvent::ResponseDelta(delta) => {
                self.last_response_delta = Some(delta);
                self.status_line = String::from_str("streaming response");
                status_effects(false, &self.status_line)
            },
            UiEvent::ToolStarted(name) => {
                let mut line = String::from_str("tool running: ");
                line.append(name.as_str());
                self.active_tool = Some(name);
                self.status_line = line;
                status_effects(false, &self.status_line)
            },
            UiEvent::ToolFinished(name) => {
                self.active_tool = None;
                self.pending_tasks = self.pending_tasks.saturating_sub(1);
                let mut line = String::from_str("tool finished: ");
                line.append(name.as_str());
                self.status_line = line;
                status_effects(true, &self.status_line)
            },
            UiEvent::JobQueued(_) => {
                self.active_jobs = self.active_jobs.saturating_add(1);
                self.status_line = String::from_str("job queued");
                let effects = vec![UiEffect::Render, UiEffect::PersistCheckpoint];
                assert(effects.deep_view() =~= seq![
                    UiEffectView::Render,
                    UiEffectView::PersistCheckpoint,
                ]);
                effects
            },
            UiEvent::JobProgress { progress, .. } => {
                let shown: u8 = if progress > 100 {
                    100
                } else {
                    progress
                };
                let mut line = String::from_str("job progress: ");
                push_decimal(&mut line, shown as usize);
                line.append("%");
                self.status_line = line;
                status_effects(false, &self.status_line)
            },
            UiEvent::JobCompleted(_) => {
                self.active_jobs = self.active_jobs.saturating_sub(1);
                self.status_line = String::from_str("job completed");
                status_effects(true, &self.status_line)
            },
            UiEvent::ApprovalRequested(_) => {
                self.pending_approvals = self.pending_approvals.saturating_add(1);
                self.status_line = String::from_str("approval requested");
                status_effects(false, &self.status_line)
            },
            UiEvent::ApprovalResolved(_) => {
                self.pending_approvals = self.pending_approvals.saturating_sub(1);
                self.status_line = String::from_str("approval resolved");
                status_effects(true, &self.status_line)
            },
            UiEvent::PauseRequested => {
                self.paused = true;
                self.status_line = String::from_str("paused");
                status_effects(false, &self.status_line)
            },
            UiEvent::ResumeRequested => {
                self.paused = false;
                self.status_line = String::from_str("resumed");
                status_effects(false, &self.status_line)
            },
            UiEvent::Tick => {
                let effects = vec![UiEffect::ScheduleBackgroundRefresh];
                assert(effects.deep_view() =~= seq![UiEffectView::ScheduleBackgroundRefresh]);
                effects
            },
        }
    }

    /// Produce a human-readable summary of the current state for debugging.
    pub fn snapshot(&self) -> (text: String)
        ensures
            text@ == snapshot_text(self@),
    {
        let mut out = String::from_str("pane=");
        out.append(pane_label(self.active_pane));
        out.append(";paused=");
        push_bool(&mut out, self.paused);
        out.append(";pending_tasks=");
        push_decimal(&mut out, self.pending_tasks);
        out.append(";active_jobs=");
        push_decimal(&mut out, self.active_jobs);
        out.append(";pending_approvals=");
        push_decimal(&mut out, self.pending_approvals);
        out.append(";active_tool=");
        match &self.active_tool {
            Some(tool) => out.append(tool.as_str()),
            None => {},
        }
        out.append(";status=");
        out.append(self.status_line.as_str());
        out
    }
}

} // verus!
