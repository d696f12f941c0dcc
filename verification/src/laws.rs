//! Properties of the UI state machine that span events or hold of every
//! state, proved over the model that `UiState::reduce` is specified by.
use vstd::prelude::*;

use crate::model::{
    effects_of, initial_state, next_state, pane_name, persists, saturating_dec, saturating_inc, shown_progress,
    snapshot_text, status_for, Pane, UiEffectView, UiEventView, UiStateView,
};
use crate::state::{UiEffect, UiEvent, UiState};
use crate::text::{bool_word, decimal, digit_char};

verus! {

/// Whether a key is one of the pane keys `1` to `5`.
pub open spec fn is_pane_key(c: char) -> bool {
    c == '1' || c == '2' || c == '3' || c == '4' || c == '5'
}

/// Every key other than `1` to `5` leaves the state as it was and emits
/// nothing, whatever the state.
pub proof fn lemma_unknown_key_is_inert(s: UiStateView, c: char)
    requires
        !is_pane_key(c),
    ensures
        next_state(s, UiEventView::KeyPressed(c)) == s,
        effects_of(s, UiEventView::KeyPressed(c)) == Seq::<UiEffectView>::empty(),
{
}

/// Keys `1` to `5` focus the chat, diff, tasks, agents and jobs panes in
/// turn, change nothing else, and only render; pressing one a second time
/// changes nothing more.
pub proof fn lemma_pane_key_focuses_pane(s: UiStateView, c: char)
    requires
        is_pane_key(c),
    ensures
        next_state(s, UiEventView::KeyPressed(c)) == (UiStateView {
            active_pane: if c == '1' {
                Pane::Chat
            } else if c == '2' {
                Pane::Diff
            } else if c == '3' {
                Pane::Tasks
            } else if c == '4' {
                Pane::Agents
            } else {
                Pane::Jobs
            },
            ..s
        }),
        effects_of(s, UiEventView::KeyPressed(c)) == seq![UiEffectView::Render],
        next_state(next_state(s, UiEventView::KeyPressed(c)), UiEventView::KeyPressed(c))
            == next_state(s, UiEventView::KeyPressed(c)),
{
}

/// Only key events move the focus between panes.
pub proof fn lemma_focus_moves_only_on_keys(s: UiStateView, e: UiEventView)
    requires
        !(e is KeyPressed),
    ensures
        next_state(s, e).active_pane == s.active_pane,
{
}

/// Only pause and resume requests change the pause flag: a pause request sets
/// it, a resume request clears it.
pub proof fn lemma_pause_flag_follows_requests(s: UiStateView, e: UiEventView)
    ensures
        e is PauseRequested ==> next_state(s, e).paused,
        e is ResumeRequested ==> !next_state(s, e).paused,
        !(e is PauseRequested) && !(e is ResumeRequested) ==> next_state(s, e).paused == s.paused,
{
}

/// Pausing and then resuming leaves the UI unpaused with status `resumed`,
/// whatever the state before.
pub proof fn lemma_pause_then_resume(s: UiStateView)
    ensures
        !next_state(
            next_state(s, UiEventView::PauseRequested),
            UiEventView::ResumeRequested,
        ).paused,
        next_state(
            next_state(s, UiEventView::PauseRequested),
            UiEventView::ResumeRequested,
        ).status_line == "resumed"@,
{
}

/// A tick changes no state and only schedules a background refresh.
pub proof fn lemma_tick_is_pure_scheduling(s: UiStateView)
    ensures
        next_state(s, UiEventView::Tick) == s,
        effects_of(s, UiEventView::Tick) == seq![UiEffectView::ScheduleBackgroundRefresh],
{
}

/// Submitting a prompt and then finishing a tool brings the pending-task
/// count back to what it was, as long as it was below the counter's limit.
pub proof fn lemma_submit_then_finish_restores_tasks(
    s: UiStateView,
    prompt: Seq<char>,
    tool: Seq<char>,
)
    requires
        s.pending_tasks < usize::MAX,
    ensures
        next_state(
            next_state(s, UiEventView::PromptSubmitted(prompt)),
            UiEventView::ToolFinished(tool),
        ).pending_tasks == s.pending_tasks,
{
}

/// Queuing a job and then completing one brings the active-job count back to
/// what it was, as long as it was below the counter's limit.
pub proof fn lemma_queue_then_complete_restores_jobs(
    s: UiStateView,
    queued: Seq<char>,
    completed: Seq<char>,
)
    requires
        s.active_jobs < usize::MAX,
    ensures
        next_state(
            next_state(s, UiEventView::JobQueued(queued)),
            UiEventView::JobCompleted(completed),
        ).active_jobs == s.active_jobs,
{
}

/// Requesting an approval and then resolving one brings the pending-approval
/// count back to what it was, as long as it was below the counter's limit.
pub proof fn lemma_request_then_resolve_restores_approvals(
    s: UiStateView,
    requested: Seq<char>,
    resolved: Seq<char>,
)
    requires
        s.pending_approvals < usize::MAX,
    ensures
        next_state(
            next_state(s, UiEventView::ApprovalRequested(requested)),
            UiEventView::ApprovalResolved(resolved),
        ).pending_approvals == s.pending_approvals,
{
}

/// The counters never go below zero: finishing a tool, completing a job or
/// resolving an approval when the matching counter is zero leaves it at zero,
/// and otherwise takes exactly one from it.
pub proof fn lemma_counters_saturate_at_zero(s: UiStateView, name: Seq<char>)
    ensures
        next_state(s, UiEventView::ToolFinished(name)).pending_tasks == saturating_dec(
            s.pending_tasks,
        ),
        next_state(s, UiEventView::JobCompleted(name)).active_jobs == saturating_dec(
            s.active_jobs,
        ),
        next_state(s, UiEventView::ApprovalResolved(name)).pending_approvals == saturating_dec(
            s.pending_approvals,
        ),
        s.pending_tasks == 0 ==> next_state(s, UiEventView::ToolFinished(name)).pending_tasks == 0,
        s.active_jobs == 0 ==> next_state(s, UiEventView::JobCompleted(name)).active_jobs == 0,
        s.pending_approvals == 0 ==> next_state(
            s,
            UiEventView::ApprovalResolved(name),
        ).pending_approvals == 0,
        s.pending_tasks > 0 ==> next_state(s, UiEventView::ToolFinished(name)).pending_tasks
            == s.pending_tasks - 1,
{
}

/// The counters never wrap: an increment at the limit stays at the limit.
pub proof fn lemma_counters_saturate_at_limit(s: UiStateView, name: Seq<char>)
    ensures
        next_state(s, UiEventView::PromptSubmitted(name)).pending_tasks >= s.pending_tasks,
        next_state(s, UiEventView::JobQueued(name)).active_jobs >= s.active_jobs,
        next_state(s, UiEventView::ApprovalRequested(name)).pending_approvals
            >= s.pending_approvals,
        s.pending_tasks == usize::MAX ==> next_state(
            s,
            UiEventView::PromptSubmitted(name),
        ).pending_tasks == usize::MAX,
        next_state(s, UiEventView::PromptSubmitted(name)).pending_tasks == saturating_inc(
            s.pending_tasks,
        ),
{
}

/// Every status line that the UI emits is the status line of the state it
/// moves to.
pub proof fn lemma_emitted_status_is_current(s: UiStateView, e: UiEventView, i: int)
    requires
        0 <= i < effects_of(s, e).len(),
        effects_of(s, e)[i] is EmitStatusLine,
    ensures
        effects_of(s, e)[i]->EmitStatusLine_0 == next_state(s, e).status_line,
{
}

/// Every event but a tick and a key that selects no pane makes the UI render
/// first; an event persists a checkpoint exactly when `persists` says so.
pub proof fn lemma_events_render_first(s: UiStateView, e: UiEventView)
    requires
        !(e is Tick),
        !(e matches UiEventView::KeyPressed(c) && !is_pane_key(c)),
    ensures
        effects_of(s, e).len() > 0,
        effects_of(s, e)[0] == UiEffectView::Render,
        persists(e) <==> effects_of(s, e).contains(UiEffectView::PersistCheckpoint),
        persists(e) <==> (e is PromptSubmitted || e is ToolFinished || e is JobQueued
            || e is JobCompleted || e is ApprovalResolved),
{
    if persists(e) {
        assert(effects_of(s, e)[1] == UiEffectView::PersistCheckpoint);
    } else {
        assert forall|i: int| 0 <= i < effects_of(s, e).len() implies effects_of(s, e)[i]
            != UiEffectView::PersistCheckpoint by {}
    }
}

/// The progress that a status line reports never exceeds 100, and is the
/// reported value whenever that is at most 100.
pub proof fn lemma_progress_is_clamped(s: UiStateView, job_id: Seq<char>, progress: u8)
    ensures
        status_for(s, UiEventView::JobProgress { job_id, progress }) == "job progress: "@
            + decimal(shown_progress(progress)) + "%"@,
        shown_progress(progress) <= 100,
        progress <= 100 ==> shown_progress(progress) == progress,
{
}

/// The value of a digit character.
pub open spec fn digit_value(c: char) -> nat {
    if c == '1' {
        1
    } else if c == '2' {
        2
    } else if c == '3' {
        3
    } else if c == '4' {
        4
    } else if c == '5' {
        5
    } else if c == '6' {
        6
    } else if c == '7' {
        7
    } else if c == '8' {
        8
    } else if c == '9' {
        9
    } else {
        0
    }
}

/// The number that a string of decimal digits denotes.
pub open spec fn numeral_value(digits: Seq<char>) -> nat
    decreases digits.len(),
{
    if digits.len() == 0 {
        0
    } else {
        10 * numeral_value(digits.drop_last()) + digit_value(digits.last())
    }
}

/// The numeral written for a count reads back as that count, is never empty,
/// and starts with a non-zero digit unless the count is zero.
pub proof fn lemma_decimal_reads_back(n: nat)
    ensures
        numeral_value(decimal(n)) == n,
        decimal(n).len() > 0,
        n > 0 ==> decimal(n)[0] != '0',
    decreases n,
{
    if n >= 10 {
        lemma_decimal_reads_back(n / 10);
        let d = decimal(n / 10);
        assert(decimal(n).drop_last() =~= d);
        assert(digit_value(digit_char(n % 10)) == n % 10);
        assert(decimal(n)[0] == d[0]);
        assert(n == 10 * (n / 10) + n % 10) by (nonlinear_arith);
    } else {
        assert(decimal(n).drop_last() =~= Seq::<char>::empty());
        assert(digit_value(digit_char(n)) == n);
        assert(numeral_value(Seq::<char>::empty()) == 0);
    }
}

/// Every event other than a tick, a key or a queued job ends its effects by
/// sending the footer the new status line.
pub proof fn lemma_status_line_is_sent(s: UiStateView, e: UiEventView)
    requires
        !(e is Tick),
        !(e is KeyPressed),
        !(e is JobQueued),
    ensures
        effects_of(s, e).len() >= 2,
        effects_of(s, e).last() == UiEffectView::EmitStatusLine(next_state(s, e).status_line),
{
}

/// A submitted prompt adds a pending task (staying at the limit there), sets
/// the status to `prompt submitted`, changes nothing else, and renders,
/// persists and sends that status.
pub proof fn lemma_prompt_submitted(s: UiStateView, prompt: Seq<char>)
    ensures
        next_state(s, UiEventView::PromptSubmitted(prompt)) == (UiStateView {
            pending_tasks: if s.pending_tasks < usize::MAX {
                (s.pending_tasks + 1) as usize
            } else {
                s.pending_tasks
            },
            status_line: "prompt submitted"@,
            ..s
        }),
        effects_of(s, UiEventView::PromptSubmitted(prompt)) == seq![
            UiEffectView::Render,
            UiEffectView::PersistCheckpoint,
            UiEffectView::EmitStatusLine("prompt submitted"@),
        ],
{
}

/// A response delta becomes the latest delta, whatever the state (paused or
/// not) and whatever delta came before; the status becomes
/// `streaming response`, nothing else changes, and the UI renders and sends
/// that status.
pub proof fn lemma_response_delta_kept(s: UiStateView, delta: Seq<char>)
    ensures
        next_state(s, UiEventView::ResponseDelta(delta)).last_response_delta == Some(delta),
        next_state(s, UiEventView::ResponseDelta(delta)) == (UiStateView {
            last_response_delta: Some(delta),
            status_line: "streaming response"@,
            ..s
        }),
        effects_of(s, UiEventView::ResponseDelta(delta)) == seq![
            UiEffectView::Render,
            UiEffectView::EmitStatusLine("streaming response"@),
        ],
{
}

/// A started tool becomes the active tool, whatever tool was active before;
/// the status names it, nothing else changes, and the UI renders and sends
/// that status.
pub proof fn lemma_tool_started(s: UiStateView, name: Seq<char>)
    ensures
        next_state(s, UiEventView::ToolStarted(name)).active_tool == Some(name),
        next_state(s, UiEventView::ToolStarted(name)) == (UiStateView {
            active_tool: Some(name),
            status_line: "tool running: "@ + name,
            ..s
        }),
        effects_of(s, UiEventView::ToolStarted(name)) == seq![
            UiEffectView::Render,
            UiEffectView::EmitStatusLine("tool running: "@ + name),
        ],
{
}

/// A finished tool clears the active tool, whatever was active, takes a
/// pending task (staying at zero there), names the tool in the status, and
/// the UI renders, persists and sends that status.
pub proof fn lemma_tool_finished(s: UiStateView, name: Seq<char>)
    ensures
        next_state(s, UiEventView::ToolFinished(name)) == (UiStateView {
            active_tool: None,
            pending_tasks: if s.pending_tasks > 0 {
                (s.pending_tasks - 1) as usize
            } else {
                0
            },
            status_line: "tool finished: "@ + name,
            ..s
        }),
        effects_of(s, UiEventView::ToolFinished(name)) == seq![
            UiEffectView::Render,
            UiEffectView::PersistCheckpoint,
            UiEffectView::EmitStatusLine("tool finished: "@ + name),
        ],
{
}

/// Starting a tool and then another leaves the second one active.
pub proof fn lemma_latest_tool_is_active(s: UiStateView, first: Seq<char>, second: Seq<char>)
    ensures
        next_state(
            next_state(s, UiEventView::ToolStarted(first)),
            UiEventView::ToolStarted(second),
        ).active_tool == Some(second),
{
}

/// A queued job adds an active job (staying at the limit there), sets the
/// status to `job queued`, and the UI renders and persists without sending
/// a status line.
pub proof fn lemma_job_queued(s: UiStateView, job: Seq<char>)
    ensures
        next_state(s, UiEventView::JobQueued(job)) == (UiStateView {
            active_jobs: if s.active_jobs < usize::MAX {
                (s.active_jobs + 1) as usize
            } else {
                s.active_jobs
            },
            status_line: "job queued"@,
            ..s
        }),
        effects_of(s, UiEventView::JobQueued(job)) == seq![
            UiEffectView::Render,
            UiEffectView::PersistCheckpoint,
        ],
{
}

/// Job progress sets the status to the reported percentage clamped to 100,
/// changes nothing else, and the UI renders and sends that status, for every
/// percentage.
pub proof fn lemma_job_progress(s: UiStateView, job_id: Seq<char>, progress: u8)
    ensures
        next_state(s, UiEventView::JobProgress { job_id, progress }) == (UiStateView {
            status_line: "job progress: "@ + decimal(
                if progress <= 100 {
                    progress as nat
                } else {
                    100
                },
            ) + "%"@,
            ..s
        }),
        effects_of(s, UiEventView::JobProgress { job_id, progress }) == seq![
            UiEffectView::Render,
            UiEffectView::EmitStatusLine(
                "job progress: "@ + decimal(
                    if progress <= 100 {
                        progress as nat
                    } else {
                        100
                    },
                ) + "%"@,
            ),
        ],
{
}

/// A completed job takes an active job (staying at zero there), sets the
/// status to `job completed`, and the UI renders, persists and sends it.
pub proof fn lemma_job_completed(s: UiStateView, job: Seq<char>)
    ensures
        next_state(s, UiEventView::JobCompleted(job)) == (UiStateView {
            active_jobs: if s.active_jobs > 0 {
                (s.active_jobs - 1) as usize
            } else {
                0
            },
            status_line: "job completed"@,
            ..s
        }),
        effects_of(s, UiEventView::JobCompleted(job)) == seq![
            UiEffectView::Render,
            UiEffectView::PersistCheckpoint,
            UiEffectView::EmitStatusLine("job completed"@),
        ],
{
}

/// An approval request adds a pending approval (staying at the limit
/// there), sets the status to `approval requested`, and the UI renders and
/// sends it.
pub proof fn lemma_approval_requested(s: UiStateView, what: Seq<char>)
    ensures
        next_state(s, UiEventView::ApprovalRequested(what)) == (UiStateView {
            pending_approvals: if s.pending_approvals < usize::MAX {
                (s.pending_approvals + 1) as usize
            } else {
                s.pending_approvals
            },
            status_line: "approval requested"@,
            ..s
        }),
        effects_of(s, UiEventView::ApprovalRequested(what)) == seq![
            UiEffectView::Render,
            UiEffectView::EmitStatusLine("approval requested"@),
        ],
{
}

/// A resolved approval takes a pending approval (staying at zero there),
/// sets the status to `approval resolved`, and the UI renders, persists and
/// sends it.
pub proof fn lemma_approval_resolved(s: UiStateView, what: Seq<char>)
    ensures
        next_state(s, UiEventView::ApprovalResolved(what)) == (UiStateView {
            pending_approvals: if s.pending_approvals > 0 {
                (s.pending_approvals - 1) as usize
            } else {
                0
            },
            status_line: "approval resolved"@,
            ..s
        }),
        effects_of(s, UiEventView::ApprovalResolved(what)) == seq![
            UiEffectView::Render,
            UiEffectView::PersistCheckpoint,
            UiEffectView::EmitStatusLine("approval resolved"@),
        ],
{
}

/// A pause request pauses the UI with status `paused`, a resume request
/// unpauses it with status `resumed`; nothing else changes and the UI renders
/// and sends the status.
pub proof fn lemma_pause_and_resume(s: UiStateView)
    ensures
        next_state(s, UiEventView::PauseRequested) == (UiStateView {
            paused: true,
            status_line: "paused"@,
            ..s
        }),
        effects_of(s, UiEventView::PauseRequested) == seq![
            UiEffectView::Render,
            UiEffectView::EmitStatusLine("paused"@),
        ],
        next_state(s, UiEventView::ResumeRequested) == (UiStateView {
            paused: false,
            status_line: "resumed"@,
            ..s
        }),
        effects_of(s, UiEventView::ResumeRequested) == seq![
            UiEffectView::Render,
            UiEffectView::EmitStatusLine("resumed"@),
        ],
{
}

/// The snapshot ends with `;status=` and the whole status line, whatever its
/// length, and begins with `pane=` and the pane's name.
pub proof fn lemma_snapshot_ends_with_status(s: UiStateView)
    ensures
        snapshot_text(s).len() >= 8 + s.status_line.len(),
        snapshot_text(s).subrange(
            snapshot_text(s).len() - 8 - s.status_line.len(),
            snapshot_text(s).len() as int,
        ) == ";status="@ + s.status_line,
        snapshot_text(s).subrange(0, 5 + pane_name(s.active_pane).len() as int) == "pane="@
            + pane_name(s.active_pane),
{
    reveal_strlit(";status=");
    reveal_strlit("pane=");
    let t = snapshot_text(s);
    let tail = ";status="@ + s.status_line;
    let head = t.subrange(0, t.len() - tail.len());
    assert(t =~= head + tail);
    let front = "pane="@ + pane_name(s.active_pane);
    assert(t.subrange(0, front.len() as int) =~= front);
}

/// The pane names are those that `{:?}` prints.
pub proof fn lemma_pane_names()
    ensures
        pane_name(Pane::Chat) == seq!['C', 'h', 'a', 't'],
        pane_name(Pane::Diff) == seq!['D', 'i', 'f', 'f'],
        pane_name(Pane::Tasks) == seq!['T', 'a', 's', 'k', 's'],
        pane_name(Pane::Agents) == seq!['A', 'g', 'e', 'n', 't', 's'],
        pane_name(Pane::Status) == seq!['S', 't', 'a', 't', 'u', 's'],
        pane_name(Pane::Jobs) == seq!['J', 'o', 'b', 's'],
{
    reveal_strlit("Chat");
    reveal_strlit("Diff");
    reveal_strlit("Tasks");
    reveal_strlit("Agents");
    reveal_strlit("Status");
    reveal_strlit("Jobs");
}

/// Every character of a numeral is a decimal digit.
pub proof fn lemma_decimal_is_digits(n: nat)
    ensures
        forall|i: int|
            0 <= i < decimal(n).len() ==> '0' <= #[trigger] decimal(n)[i] && decimal(n)[i] <= '9',
    decreases n,
{
    if n >= 10 {
        lemma_decimal_is_digits(n / 10);
        assert forall|i: int| 0 <= i < decimal(n).len() implies '0' <= #[trigger] decimal(n)[i]
            && decimal(n)[i] <= '9' by {
            if i < decimal(n).len() - 1 {
                assert(decimal(n)[i] == decimal(n / 10)[i]);
            }
        }
    }
}

/// A fresh UI shows the chat pane, is not paused, has no response delta and
/// no active tool, no pending tasks, jobs or approvals, and status `ready`.
pub proof fn lemma_initial_state()
    ensures
        initial_state().active_pane == Pane::Chat,
        !initial_state().paused,
        initial_state().last_response_delta is None,
        initial_state().active_tool is None,
        initial_state().pending_tasks == 0,
        initial_state().active_jobs == 0,
        initial_state().pending_approvals == 0,
        initial_state().status_line == seq!['r', 'e', 'a', 'd', 'y'],
{
    reveal_strlit("ready");
}

/// Booleans are written as `true` and `false`.
pub proof fn lemma_bool_words()
    ensures
        bool_word(true) == seq!['t', 'r', 'u', 'e'],
        bool_word(false) == seq!['f', 'a', 'l', 's', 'e'],
{
    reveal_strlit("true");
    reveal_strlit("false");
}

/// The snapshot lists, in order and separated by `;`, the pane's name, the
/// pause flag, the pending-task, active-job and pending-approval counts in
/// decimal, the active tool (nothing where there is none) and the whole
/// status line, each after its key and `=`.
pub proof fn lemma_snapshot_fields(s: UiStateView)
    ensures
        snapshot_text(s) == seq!['p', 'a', 'n', 'e', '='] + pane_name(s.active_pane)
            + seq![';', 'p', 'a', 'u', 's', 'e', 'd', '='] + bool_word(s.paused)
            + seq![';', 'p', 'e', 'n', 'd', 'i', 'n', 'g', '_', 't', 'a', 's', 'k', 's', '=']
            + decimal(s.pending_tasks as nat)
            + seq![';', 'a', 'c', 't', 'i', 'v', 'e', '_', 'j', 'o', 'b', 's', '=']
            + decimal(s.active_jobs as nat)
            + seq![
            ';',
            'p',
            'e',
            'n',
            'd',
            'i',
            'n',
            'g',
            '_',
            'a',
            'p',
            'p',
            'r',
            'o',
            'v',
            'a',
            'l',
            's',
            '=',
        ] + decimal(s.pending_approvals as nat)
            + seq![';', 'a', 'c', 't', 'i', 'v', 'e', '_', 't', 'o', 'o', 'l', '='] + (
        match s.active_tool {
            Some(t) => t,
            None => Seq::<char>::empty(),
        }) + seq![';', 's', 't', 'a', 't', 'u', 's', '='] + s.status_line,
{
    reveal_strlit("pane=");
    reveal_strlit(";paused=");
    reveal_strlit(";pending_tasks=");
    reveal_strlit(";active_jobs=");
    reveal_strlit(";pending_approvals=");
    reveal_strlit(";active_tool=");
    reveal_strlit(";status=");
    assert("pane="@ =~= seq!['p', 'a', 'n', 'e', '=']);
    assert(";paused="@ =~= seq![';', 'p', 'a', 'u', 's', 'e', 'd', '=']);
    assert(";pending_tasks="@ =~= seq![
        ';',
        'p',
        'e',
        'n',
        'd',
        'i',
        'n',
        'g',
        '_',
        't',
        'a',
        's',
        'k',
        's',
        '=',
    ]);
    assert(";active_jobs="@ =~= seq![';', 'a', 'c', 't', 'i', 'v', 'e', '_', 'j', 'o', 'b', 's', '=']);
    assert(";pending_approvals="@ =~= seq![
        ';',
        'p',
        'e',
        'n',
        'd',
        'i',
        'n',
        'g',
        '_',
        'a',
        'p',
        'p',
        'r',
        'o',
        'v',
        'a',
        'l',
        's',
        '=',
    ]);
    assert(";active_tool="@ =~= seq![';', 'a', 'c', 't', 'i', 'v', 'e', '_', 't', 'o', 'o', 'l', '=']);
    assert(";status="@ =~= seq![';', 's', 't', 'a', 't', 'u', 's', '=']);
}

/// The abstract state keeps every field of the concrete state, strings as
/// their characters.
pub proof fn lemma_state_view_keeps_fields(st: UiState)
    ensures
        st@.active_pane == st.active_pane,
        st@.paused == st.paused,
        st@.pending_tasks == st.pending_tasks,
        st@.active_jobs == st.active_jobs,
        st@.pending_approvals == st.pending_approvals,
        st@.status_line == st.status_line@,
        st@.active_tool is Some <==> st.active_tool is Some,
        st.active_tool is Some ==> st@.active_tool->0 == st.active_tool->0@,
        st@.last_response_delta is Some <==> st.last_response_delta is Some,
        st.last_response_delta is Some ==> st@.last_response_delta->0
            == st.last_response_delta->0@,
{
}

/// Each event is seen as the event of the same kind, carrying the same
/// text or number.
pub proof fn lemma_event_view_keeps_kind(e: UiEvent)
    ensures
        e is KeyPressed ==> e@ == UiEventView::KeyPressed(e->KeyPressed_0),
        e is PromptSubmitted ==> e@ == UiEventView::PromptSubmitted(e->PromptSubmitted_0@),
        e is ResponseDelta ==> e@ == UiEventView::ResponseDelta(e->ResponseDelta_0@),
        e is ToolStarted ==> e@ == UiEventView::ToolStarted(e->ToolStarted_0@),
        e is ToolFinished ==> e@ == UiEventView::ToolFinished(e->ToolFinished_0@),
        e is JobQueued ==> e@ == UiEventView::JobQueued(e->JobQueued_0@),
        e is JobProgress ==> e@ == (UiEventView::JobProgress {
            job_id: e->job_id@,
            progress: e->progress,
        }),
        e is JobCompleted ==> e@ == UiEventView::JobCompleted(e->JobCompleted_0@),
        e is ApprovalRequested ==> e@ == UiEventView::ApprovalRequested(e->ApprovalRequested_0@),
        e is ApprovalResolved ==> e@ == UiEventView::ApprovalResolved(e->ApprovalResolved_0@),
        e is PauseRequested ==> e@ == UiEventView::PauseRequested,
        e is ResumeRequested ==> e@ == UiEventView::ResumeRequested,
        e is Tick ==> e@ == UiEventView::Tick,
{
}

/// Each effect is seen as the effect of the same kind, a status line as its
/// characters.
pub proof fn lemma_effect_view_keeps_kind(f: UiEffect)
    ensures
        f is Render ==> f.deep_view() == UiEffectView::Render,
        f is PersistCheckpoint ==> f.deep_view() == UiEffectView::PersistCheckpoint,
        f is ScheduleBackgroundRefresh ==> f.deep_view()
            == UiEffectView::ScheduleBackgroundRefresh,
        f is EmitStatusLine ==> f.deep_view() == UiEffectView::EmitStatusLine(
            f->EmitStatusLine_0@,
        ),
{
}

} // verus!
