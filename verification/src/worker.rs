use vstd::prelude::*;

use crate::button::MouseButton;
use crate::engine::{
    pause_for, PausePlan, RoundEnd, Shared, WorkerAction, ERROR_INPUT_REJECTED,
    ERROR_INPUT_UNAVAILABLE, ERROR_NONE,
};

verus! {

/// Where the click worker stands between two of its steps.
#[derive(Clone, Copy, Debug, PartialEq, Eq)]
pub enum WorkerPhase {
    /// About to decide what to do next.
    Deciding,
    /// Within a click action: `left` clicks of `button` still to press,
    /// counting the one asked for last.
    Clicking { button: MouseButton, left: u8 },
}

/// What the worker reports when it comes back for its next step.
#[derive(Clone, Copy, Debug, PartialEq, Eq)]
pub enum WorkerEvent {
    /// It is ready for the next decision: it has just begun, waited, or
    /// paused.
    Ready,
    /// The click it was asked for is done; `accepted` where the system took
    /// it.
    Clicked { accepted: bool },
}

/// What the worker is to do before it comes back.
#[derive(Clone, Copy, Debug, PartialEq, Eq)]
pub enum WorkerCommand {
    /// End the worker.
    Exit,
    /// Wait until woken, or for a second, then report `Ready`.
    Wait,
    /// Press the button once, then report `Clicked`.
    Press(MouseButton),
    /// Pause as planned (while `pause_continues` holds), then report `Ready`.
    Pause(PausePlan),
}

impl Shared {
    /// The worker's decision: end, wait, or begin an action with its first
    /// click.
    pub open spec fn decision(self) -> (Shared, WorkerPhase, WorkerCommand) {
        match self.planned_action() {
            WorkerAction::Exit => (self, WorkerPhase::Deciding, WorkerCommand::Exit),
            WorkerAction::Wait => (self, WorkerPhase::Deciding, WorkerCommand::Wait),
            WorkerAction::Click { button, repetitions } => (
                self,
                WorkerPhase::Clicking { button, left: repetitions },
                WorkerCommand::Press(button),
            ),
        }
    }

    /// One step of the worker: from the shared state, where the worker
    /// stands and what it reports, to the new shared state, where it then
    /// stands and what it is to do. Within an action each click is recorded;
    /// the next one is pressed while clicks are left and none was refused;
    /// then the action is counted, and a pause follows, or, where it
    /// completed a fixed run, the next decision at once.
    pub open spec fn worker_transition(self, phase: WorkerPhase, event: WorkerEvent) -> (
        Shared,
        WorkerPhase,
        WorkerCommand,
    ) {
        match phase {
            WorkerPhase::Deciding => self.decision(),
            WorkerPhase::Clicking { button, left } => match event {
                WorkerEvent::Ready => (self, phase, WorkerCommand::Press(button)),
                WorkerEvent::Clicked { accepted } => {
                    let clicked = self.after_click(accepted);
                    if accepted && left > 1 {
                        (
                            clicked,
                            WorkerPhase::Clicking { button, left: (left - 1) as u8 },
                            WorkerCommand::Press(button),
                        )
                    } else {
                        let counted = clicked.after_round();
                        match clicked.round_end() {
                            RoundEnd::TargetReached => counted.decision(),
                            RoundEnd::Pause(plan) => (
                                counted,
                                WorkerPhase::Deciding,
                                WorkerCommand::Pause(plan),
                            ),
                        }
                    }
                },
            },
        }
    }

    /// The worker's decision.
    fn decide(&self) -> (out: (WorkerPhase, WorkerCommand))
        ensures
            (*self, out.0, out.1) == self.decision(),
    {
        match self.next_action() {
            WorkerAction::Exit => (WorkerPhase::Deciding, WorkerCommand::Exit),
            WorkerAction::Wait => (WorkerPhase::Deciding, WorkerCommand::Wait),
            WorkerAction::Click { button, repetitions } => (
                WorkerPhase::Clicking { button, left: repetitions },
                WorkerCommand::Press(button),
            ),
        }
    }

    /// One step of the worker.
    pub fn worker_step(&mut self, phase: WorkerPhase, event: WorkerEvent) -> (out: (
        WorkerPhase,
        WorkerCommand,
    ))
        ensures
            (*final(self), out.0, out.1) == old(self).worker_transition(phase, event),
    {
        match phase {
            WorkerPhase::Deciding => self.decide(),
            WorkerPhase::Clicking { button, left } => match event {
                WorkerEvent::Ready => (phase, WorkerCommand::Press(button)),
                WorkerEvent::Clicked { accepted } => {
                    let go_on = self.record_click(accepted);
                    if go_on && left > 1 {
                        (
                            WorkerPhase::Clicking { button, left: left - 1 },
                            WorkerCommand::Press(button),
                        )
                    } else {
                        match self.finish_round() {
                            RoundEnd::TargetReached => self.decide(),
                            RoundEnd::Pause(plan) => (
                                WorkerPhase::Deciding,
                                WorkerCommand::Pause(plan),
                            ),
                        }
                    }
                },
            },
        }
    }
}

/// Each step of the worker, from any state: deciding, it ends once told to,
/// waits while stopped, else asks for the first click of an action of the
/// stored button (two clicks for a double click), leaving the shared state
/// as it is. Within an action, a report that is not a click asks for the
/// same click again; an accepted click with more left is recorded and the
/// next one asked for; otherwise the click is recorded, the action counted,
/// and no further click of it is asked for: a pause for the set interval
/// follows while the clicker still runs, else it waits (or ends).
pub proof fn lemma_worker_step_law(s: Shared, phase: WorkerPhase, event: WorkerEvent)
    ensures
        ({
            let (t, p, c) = s.worker_transition(phase, event);
            &&& phase == WorkerPhase::Deciding ==> {
                &&& t == s
                &&& s.shutdown ==> p == WorkerPhase::Deciding && c == WorkerCommand::Exit
                &&& !s.shutdown && !s.running ==> p == WorkerPhase::Deciding && c == WorkerCommand::Wait
                &&& !s.shutdown && s.running ==> {
                    &&& p == (WorkerPhase::Clicking {
                        button: MouseButton::decoded(s.button),
                        left: if s.double_click { 2u8 } else { 1u8 },
                    })
                    &&& c == WorkerCommand::Press(MouseButton::decoded(s.button))
                }
            }
            &&& phase matches WorkerPhase::Clicking { button, left } ==> {
                &&& event == WorkerEvent::Ready ==> t == s && p == phase && c == WorkerCommand::Press(button)
                &&& event == (WorkerEvent::Clicked { accepted: true }) && left > 1 ==> {
                    &&& t == s.after_click(true)
                    &&& p == (WorkerPhase::Clicking { button, left: (left - 1) as u8 })
                    &&& c == WorkerCommand::Press(button)
                }
                &&& event == (WorkerEvent::Clicked { accepted: false }) ==> {
                    &&& t == s.after_click(false).after_round()
                    &&& p == WorkerPhase::Deciding
                    &&& c !is Press
                    &&& c is Pause ==> c == WorkerCommand::Pause(pause_for(s.interval_us))
                    &&& t.running ==> c is Pause
                    &&& c !is Pause ==> !t.running && (c == WorkerCommand::Wait || c == WorkerCommand::Exit)
                }
                &&& event == (WorkerEvent::Clicked { accepted: true }) && left <= 1 ==> {
                    &&& t == s.after_click(true).after_round()
                    &&& p == WorkerPhase::Deciding
                    &&& c !is Press
                    &&& c is Pause ==> c == WorkerCommand::Pause(pause_for(s.interval_us))
                    &&& t.running ==> c is Pause
                    &&& c !is Pause ==> !t.running && (c == WorkerCommand::Wait || c == WorkerCommand::Exit)
                }
            }
        }),
{
}

/// The worker's steps through one action in which every click goes through:
/// ready, then each click reported in turn.
pub open spec fn accepted_action(s: Shared) -> (Shared, WorkerPhase, WorkerCommand) {
    let (s1, p1, _c1) = s.worker_transition(WorkerPhase::Deciding, WorkerEvent::Ready);
    let (s2, p2, c2) = s1.worker_transition(p1, WorkerEvent::Clicked { accepted: true });
    if s.double_click {
        s2.worker_transition(p2, WorkerEvent::Clicked { accepted: true })
    } else {
        (s2, p2, c2)
    }
}

/// Driven by its steps, a running worker presses the set button once, or
/// twice for a double click, records each click, then counts the action
/// (this is `clicked_round`, on which the fixed-run law is stated), and then
/// pauses for the set interval, or, where the action completed a fixed run,
/// waits.
pub proof fn lemma_worker_runs_one_action(s: Shared)
    requires
        s.running,
        !s.shutdown,
    ensures
        s.worker_transition(WorkerPhase::Deciding, WorkerEvent::Ready) == (
            s,
            WorkerPhase::Clicking {
                button: MouseButton::decoded(s.button),
                left: if s.double_click {
                    2u8
                } else {
                    1u8
                },
            },
            WorkerCommand::Press(MouseButton::decoded(s.button)),
        ),
        s.double_click ==> s.worker_transition(WorkerPhase::Deciding, WorkerEvent::Ready).0.worker_transition(
            s.worker_transition(WorkerPhase::Deciding, WorkerEvent::Ready).1,
            WorkerEvent::Clicked { accepted: true },
        ).2 == WorkerCommand::Press(MouseButton::decoded(s.button)),
        accepted_action(s).0 == s.clicked_round(),
        accepted_action(s).1 == WorkerPhase::Deciding,
        accepted_action(s).2 == (if s.clicked_round().running {
            WorkerCommand::Pause(pause_for(s.interval_us))
        } else {
            WorkerCommand::Wait
        }),
{
}

/// A refused click ends the action at once: it is counted, the clicker is
/// stopped with the error, and the worker pauses (or, where the action
/// completed a fixed run, waits); no further click of that action is asked
/// for.
pub proof fn lemma_refused_click_ends_action(s: Shared, button: MouseButton, left: u8)
    requires
        !s.shutdown,
    ensures
        ({
            let (t, p, c) = s.worker_transition(
                WorkerPhase::Clicking { button, left },
                WorkerEvent::Clicked { accepted: false },
            );
            &&& t == s.after_click(false).after_round()
            &&& !t.running
            &&& t.error_code == ERROR_INPUT_REJECTED
            &&& p == WorkerPhase::Deciding
            &&& c !is Press
        }),
{
}

/// Whatever changes the shared state: the window's operations and the
/// worker's.
#[derive(Clone, Copy, Debug, PartialEq, Eq)]
pub enum Operation {
    Start,
    Stop,
    Toggle,
    Shutdown,
    Settings {
        interval_us: u64,
        button: MouseButton,
        double_click: bool,
        repeat_until_stopped: bool,
        repeat_count: u64,
    },
    InputUnavailable,
    Click { accepted: bool },
    Round,
    Step { phase: WorkerPhase, event: WorkerEvent },
}

/// The shared state after an operation.
pub open spec fn apply(s: Shared, op: Operation) -> Shared {
    match op {
        Operation::Start => s.started(),
        Operation::Stop => s.stopped(),
        Operation::Toggle => s.toggled(),
        Operation::Shutdown => s.shut_down(),
        Operation::Settings {
            interval_us,
            button,
            double_click,
            repeat_until_stopped,
            repeat_count,
        } => s.with_settings(interval_us, button, double_click, repeat_until_stopped, repeat_count),
        Operation::InputUnavailable => s.input_lost(),
        Operation::Click { accepted } => s.after_click(accepted),
        Operation::Round => s.after_round(),
        Operation::Step { phase, event } => s.worker_transition(phase, event).0,
    }
}

/// The shared state after a series of operations on a new state.
pub open spec fn run_ops(ops: Seq<Operation>) -> Shared
    decreases ops.len(),
{
    if ops.len() == 0 {
        Shared::initial()
    } else {
        apply(run_ops(ops.drop_last()), ops.last())
    }
}

/// Whether an operation on a state opens a new session.
pub open spec fn starts_session(s: Shared, op: Operation) -> bool {
    op == Operation::Start || (op == Operation::Toggle && !s.running)
}

/// Whether an operation records a click that the system refused.
pub open spec fn refuses_click(op: Operation) -> bool {
    ||| op == (Operation::Click { accepted: false })
    ||| (op matches Operation::Step { phase, event } && phase is Clicking && event == (
        WorkerEvent::Clicked { accepted: false }))
}

/// Whether no operation after the `i`-th of the series opens a new session.
pub open spec fn no_start_after(ops: Seq<Operation>, i: int) -> bool {
    forall|j: int| i < j < ops.len() ==> !starts_session(run_ops(ops.take(j)), #[trigger] ops[j])
}

proof fn lemma_apply_error(s: Shared, op: Operation)
    ensures
        apply(s, op).error_code == (if starts_session(s, op) {
            ERROR_NONE
        } else if op == Operation::InputUnavailable {
            ERROR_INPUT_UNAVAILABLE
        } else if refuses_click(op) {
            ERROR_INPUT_REJECTED
        } else {
            s.error_code
        }),
{
}

/// Every state reached from a new one holds one of the three error codes;
/// it holds that the input service could not be reached only where that was
/// recorded since the last start, and that a click was refused only where a
/// refused click was recorded since the last start.
pub proof fn lemma_error_code_explained(ops: Seq<Operation>)
    ensures
        run_ops(ops).error_code == ERROR_NONE || run_ops(ops).error_code == ERROR_INPUT_UNAVAILABLE
            || run_ops(ops).error_code == ERROR_INPUT_REJECTED,
        run_ops(ops).error_code == ERROR_INPUT_UNAVAILABLE ==> exists|i: int|
            0 <= i < ops.len() && ops[i] == Operation::InputUnavailable && no_start_after(ops, i),
        run_ops(ops).error_code == ERROR_INPUT_REJECTED ==> exists|i: int|
            0 <= i < ops.len() && refuses_click(ops[i]) && no_start_after(ops, i),
    decreases ops.len(),
{
    if ops.len() > 0 {
        let pre = ops.drop_last();
        let op = ops.last();
        let n = ops.len() as int;
        lemma_error_code_explained(pre);
        lemma_apply_error(run_ops(pre), op);
        assert(ops.take(n - 1) =~= pre);
        let e = run_ops(ops).error_code;
        if e != ERROR_NONE {
            assert forall|i: int| 0 <= i < pre.len() && no_start_after(pre, i) && !starts_session(run_ops(pre), op)
                implies no_start_after(ops, i) by {
                assert forall|j: int| i < j < n implies !starts_session(run_ops(ops.take(j)), #[trigger] ops[j]) by {
                    if j < n - 1 {
                        assert(ops.take(j) =~= pre.take(j));
                        assert(ops[j] == pre[j]);
                    }
                }
            }
            if e == ERROR_INPUT_UNAVAILABLE && op != Operation::InputUnavailable {
                let i = choose|i: int| 0 <= i < pre.len() && pre[i] == Operation::InputUnavailable && no_start_after(pre, i);
                assert(ops[i] == pre[i]);
            }
            if e == ERROR_INPUT_REJECTED && !refuses_click(op) {
                let i = choose|i: int| 0 <= i < pre.len() && refuses_click(pre[i]) && no_start_after(pre, i);
                assert(ops[i] == pre[i]);
            }
            if e == ERROR_INPUT_UNAVAILABLE && op == Operation::InputUnavailable {
                assert(no_start_after(ops, n - 1));
            }
            if e == ERROR_INPUT_REJECTED && refuses_click(op) {
                assert(no_start_after(ops, n - 1));
            }
        }
    }
}

} // verus!
