use tui_core::{Pane, UiEffect, UiEvent, UiState};

fn status(line: &str) -> UiEffect {
    UiEffect::EmitStatusLine(line.to_string())
}

#[test]
fn every_pane_key_renders_exactly_once() {
    for (key, pane) in [
        ('1', Pane::Chat),
        ('2', Pane::Diff),
        ('3', Pane::Tasks),
        ('4', Pane::Agents),
        ('5', Pane::Jobs),
    ] {
        let mut state = UiState::default();
        state.active_pane = Pane::Status;
        let effects = state.reduce(UiEvent::KeyPressed(key));
        assert_eq!(state.active_pane, pane);
        assert_eq!(effects, vec![UiEffect::Render]);
        assert_eq!(state.status_line, "ready");
    }
}

#[test]
fn unknown_keys_leave_everything_alone() {
    for key in ['0', '6', 'q', ' '] {
        let mut state = UiState::default();
        state.active_pane = Pane::Status;
        let before = state.snapshot();
        let effects = state.reduce(UiEvent::KeyPressed(key));
        assert!(effects.is_empty());
        assert_eq!(state.snapshot(), before);
        assert_eq!(state.active_pane, Pane::Status);
    }
}

#[test]
fn pressing_a_pane_key_twice_is_the_same_as_once() {
    let mut state = UiState::default();
    state.reduce(UiEvent::KeyPressed('3'));
    let once = state.snapshot();
    state.reduce(UiEvent::KeyPressed('3'));
    assert_eq!(state.snapshot(), once);
}

#[test]
fn exact_effects_for_each_event() {
    let mut state = UiState::default();
    assert_eq!(
        state.reduce(UiEvent::PromptSubmitted("p".to_string())),
        vec![UiEffect::Render, UiEffect::PersistCheckpoint, status("prompt submitted")]
    );
    assert_eq!(
        state.reduce(UiEvent::ResponseDelta("d".to_string())),
        vec![UiEffect::Render, status("streaming response")]
    );
    assert_eq!(
        state.reduce(UiEvent::ToolStarted("grep".to_string())),
        vec![UiEffect::Render, status("tool running: grep")]
    );
    assert_eq!(
        state.reduce(UiEvent::ToolFinished("grep".to_string())),
        vec![UiEffect::Render, UiEffect::PersistCheckpoint, status("tool finished: grep")]
    );
    assert_eq!(
        state.reduce(UiEvent::JobQueued("j".to_string())),
        vec![UiEffect::Render, UiEffect::PersistCheckpoint]
    );
    assert_eq!(
        state.reduce(UiEvent::JobProgress { job_id: "j".to_string(), progress: 0 }),
        vec![UiEffect::Render, status("job progress: 0%")]
    );
    assert_eq!(
        state.reduce(UiEvent::JobCompleted("j".to_string())),
        vec![UiEffect::Render, UiEffect::PersistCheckpoint, status("job completed")]
    );
    assert_eq!(
        state.reduce(UiEvent::ApprovalRequested("a".to_string())),
        vec![UiEffect::Render, status("approval requested")]
    );
    assert_eq!(
        state.reduce(UiEvent::ApprovalResolved("a".to_string())),
        vec![UiEffect::Render, UiEffect::PersistCheckpoint, status("approval resolved")]
    );
    assert_eq!(
        state.reduce(UiEvent::PauseRequested),
        vec![UiEffect::Render, status("paused")]
    );
    assert_eq!(
        state.reduce(UiEvent::ResumeRequested),
        vec![UiEffect::Render, status("resumed")]
    );
    assert_eq!(state.reduce(UiEvent::Tick), vec![UiEffect::ScheduleBackgroundRefresh]);
}

#[test]
fn emitted_status_line_is_the_new_status_line() {
    let mut state = UiState::default();
    let events = vec![
        UiEvent::PromptSubmitted("x".to_string()),
        UiEvent::ToolStarted("cargo".to_string()),
        UiEvent::JobProgress { job_id: "j".to_string(), progress: 42 },
        UiEvent::PauseRequested,
    ];
    for event in events {
        let effects = state.reduce(event);
        for effect in effects {
            if let UiEffect::EmitStatusLine(line) = effect {
                assert_eq!(line, state.status_line);
            }
        }
    }
}

#[test]
fn job_progress_boundaries() {
    for (progress, text) in [
        (0u8, "job progress: 0%"),
        (9, "job progress: 9%"),
        (10, "job progress: 10%"),
        (99, "job progress: 99%"),
        (100, "job progress: 100%"),
        (101, "job progress: 100%"),
        (255, "job progress: 100%"),
    ] {
        let mut state = UiState::default();
        state.reduce(UiEvent::JobProgress { job_id: "j".to_string(), progress });
        assert_eq!(state.status_line, text);
    }
}

#[test]
fn job_progress_changes_no_counter() {
    let mut state = UiState::default();
    state.reduce(UiEvent::JobQueued("j".to_string()));
    state.reduce(UiEvent::JobProgress { job_id: "j".to_string(), progress: 5 });
    assert_eq!(state.active_jobs, 1);
    assert_eq!(state.pending_tasks, 0);
}

#[test]
fn tick_changes_no_state() {
    let mut state = UiState::default();
    state.reduce(UiEvent::KeyPressed('4'));
    state.reduce(UiEvent::ToolStarted("t".to_string()));
    let before = state.snapshot();
    state.reduce(UiEvent::Tick);
    assert_eq!(state.snapshot(), before);
    assert_eq!(state.active_tool, Some("t".to_string()));
}

#[test]
fn counters_return_after_matching_pairs() {
    let mut state = UiState::default();
    state.pending_tasks = 7;
    state.active_jobs = 3;
    state.pending_approvals = 2;
    state.reduce(UiEvent::PromptSubmitted("p".to_string()));
    state.reduce(UiEvent::ToolFinished("t".to_string()));
    state.reduce(UiEvent::JobQueued("j".to_string()));
    state.reduce(UiEvent::JobCompleted("j".to_string()));
    state.reduce(UiEvent::ApprovalRequested("a".to_string()));
    state.reduce(UiEvent::ApprovalResolved("a".to_string()));
    assert_eq!(state.pending_tasks, 7);
    assert_eq!(state.active_jobs, 3);
    assert_eq!(state.pending_approvals, 2);
}

#[test]
fn counters_saturate_at_the_top() {
    let mut state = UiState::default();
    state.pending_tasks = usize::MAX;
    state.active_jobs = usize::MAX;
    state.pending_approvals = usize::MAX;
    state.reduce(UiEvent::PromptSubmitted("p".to_string()));
    state.reduce(UiEvent::JobQueued("j".to_string()));
    state.reduce(UiEvent::ApprovalRequested("a".to_string()));
    assert_eq!(state.pending_tasks, usize::MAX);
    assert_eq!(state.active_jobs, usize::MAX);
    assert_eq!(state.pending_approvals, usize::MAX);
    // At the limit a submit followed by a finish does not come back.
    state.reduce(UiEvent::ToolFinished("t".to_string()));
    assert_eq!(state.pending_tasks, usize::MAX - 1);
}

#[test]
fn only_pause_and_resume_touch_the_pause_flag() {
    let mut state = UiState::default();
    state.reduce(UiEvent::PauseRequested);
    state.reduce(UiEvent::PromptSubmitted("p".to_string()));
    state.reduce(UiEvent::Tick);
    state.reduce(UiEvent::KeyPressed('2'));
    assert!(state.paused);
    state.reduce(UiEvent::PauseRequested);
    assert!(state.paused);
    state.reduce(UiEvent::ResumeRequested);
    assert!(!state.paused);
    state.reduce(UiEvent::ResumeRequested);
    assert!(!state.paused);
}

#[test]
fn tool_finished_clears_tool_even_if_another_started() {
    let mut state = UiState::default();
    state.reduce(UiEvent::ToolStarted("a".to_string()));
    state.reduce(UiEvent::ToolFinished("b".to_string()));
    assert_eq!(state.active_tool, None);
    assert_eq!(state.status_line, "tool finished: b");
}

#[test]
fn response_delta_keeps_only_the_latest() {
    let mut state = UiState::default();
    state.reduce(UiEvent::ResponseDelta("one".to_string()));
    state.reduce(UiEvent::ResponseDelta("two".to_string()));
    assert_eq!(state.last_response_delta, Some("two".to_string()));
}

#[test]
fn snapshot_of_default_state_is_exact() {
    let state = UiState::default();
    assert_eq!(
        state.snapshot(),
        "pane=Chat;paused=false;pending_tasks=0;active_jobs=0;pending_approvals=0;active_tool=;status=ready"
    );
}

#[test]
fn snapshot_after_activity_is_exact() {
    let mut state = UiState::default();
    state.reduce(UiEvent::KeyPressed('5'));
    state.reduce(UiEvent::PauseRequested);
    state.pending_tasks = 1234567890;
    state.active_jobs = 10;
    state.pending_approvals = usize::MAX;
    state.reduce(UiEvent::ToolStarted("shell".to_string()));
    assert_eq!(
        state.snapshot(),
        format!(
            "pane=Jobs;paused=true;pending_tasks=1234567890;active_jobs=10;pending_approvals={};active_tool=shell;status=tool running: shell",
            usize::MAX
        )
    );
}

#[test]
fn snapshot_names_every_pane() {
    for (pane, name) in [
        (Pane::Chat, "pane=Chat;"),
        (Pane::Diff, "pane=Diff;"),
        (Pane::Tasks, "pane=Tasks;"),
        (Pane::Agents, "pane=Agents;"),
        (Pane::Status, "pane=Status;"),
        (Pane::Jobs, "pane=Jobs;"),
    ] {
        let mut state = UiState::default();
        state.active_pane = pane;
        assert!(state.snapshot().starts_with(name));
        assert!(state.snapshot().starts_with(&format!("pane={:?};", pane)));
    }
}
