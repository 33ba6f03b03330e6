use vstd::prelude::*;

use crate::button::MouseButton;

verus! {

/// The interval between two click actions before any setting is applied.
pub const DEFAULT_INTERVAL_US: u64 = 10_000;

/// The number of actions of a fixed run before any setting is applied.
pub const DEFAULT_TARGET: u64 = 100;

/// Pauses longer than this are mostly slept; shorter ones are spent yielding.
pub const SLEEP_THRESHOLD_US: u64 = 2_000;

/// The part at the end of a long pause that is spent yielding, not sleeping.
pub const YIELD_TAIL_US: u64 = 500;

/// No error.
pub const ERROR_NONE: u32 = 0;

/// The system's input service could not be reached.
pub const ERROR_INPUT_UNAVAILABLE: u32 = 1;

/// The operating system refused a simulated click.
pub const ERROR_INPUT_REJECTED: u32 = 2;

/// The state that the control side (window, hotkey) and the click worker
/// share: the settings of the clicker, whether it runs, and its counters.
pub struct Shared {
    /// Whether the worker clicks.
    pub running: bool,
    /// Whether the worker is to end for good.
    pub shutdown: bool,
    /// The time between the starts of two click actions, in microseconds.
    pub interval_us: u64,
    /// The code of the button to press (see `MouseButton::code`).
    pub button: u8,
    /// Whether each action is a double click.
    pub double_click: bool,
    /// Whether a run stops by itself after `target` actions.
    pub finite: bool,
    /// The number of actions of a fixed run.
    pub target: u64,
    /// The actions done since the last start.
    pub session_clicks: u64,
    /// The single clicks done since the state was made.
    pub total_clicks: u64,
    /// The last error (`ERROR_NONE`, `ERROR_INPUT_UNAVAILABLE` or
    /// `ERROR_INPUT_REJECTED`).
    pub error_code: u32,
}

/// What the click worker does next.
#[derive(Clone, Copy, Debug, PartialEq, Eq)]
pub enum WorkerAction {
    /// End the worker.
    Exit,
    /// Wait until woken, or for a second, then decide again.
    Wait,
    /// Press `button` `repetitions` times, one click after the other.
    Click { button: MouseButton, repetitions: u8 },
}

/// How the worker passes the time between two click actions.
#[derive(Clone, Copy, Debug, PartialEq, Eq)]
pub struct PausePlan {
    /// The time from the end of the action to the next one, in microseconds.
    pub wait_us: u64,
    /// The part of it to spend blocked (woken early by a stop or a
    /// shutdown), where the pause is long enough for that at all; the rest
    /// is spent yielding. Either part lasts only while `pause_continues`.
    pub sleep_us: Option<u64>,
}

/// What follows a click action.
#[derive(Clone, Copy, Debug, PartialEq, Eq)]
pub enum RoundEnd {
    /// The fixed run is complete and the clicker has stopped: decide again at
    /// once.
    TargetReached,
    /// Pause as planned, then decide again.
    Pause(PausePlan),
}

/// A counter after one more count; it wraps round at the end of its range.
pub open spec fn next_count(n: u64) -> u64 {
    if n == u64::MAX {
        0
    } else {
        (n + 1) as u64
    }
}

/// The pause after an action, for the interval in the shared state: the
/// interval, but at least one microsecond; slept but for its last 500 µs
/// where it is longer than 2 ms.
pub open spec fn pause_for(interval_us: u64) -> PausePlan {
    let wait_us: u64 = if interval_us == 0 {
        1
    } else {
        interval_us
    };
    PausePlan {
        wait_us,
        sleep_us: if wait_us > SLEEP_THRESHOLD_US {
            Some((wait_us - YIELD_TAIL_US) as u64)
        } else {
            None
        },
    }
}

/// The pause after an action, for the interval in the shared state.
pub fn pause_plan(interval_us: u64) -> (plan: PausePlan)
    ensures
        plan == pause_for(interval_us),
        plan.wait_us >= 1,
        plan.sleep_us matches Some(s) ==> s < plan.wait_us,
{
    let wait_us: u64 = if interval_us == 0 {
        1
    } else {
        interval_us
    };
    let sleep_us = if wait_us > SLEEP_THRESHOLD_US {
        Some(wait_us - YIELD_TAIL_US)
    } else {
        None
    };
    PausePlan { wait_us, sleep_us }
}

impl Shared {
    /// The state before any setting is applied: stopped, left button,
    /// single clicks every 10 ms, until stopped, fixed runs of 100, no
    /// clicks, no error.
    pub open spec fn initial() -> Shared {
        Shared {
            running: false,
            shutdown: false,
            interval_us: DEFAULT_INTERVAL_US,
            button: 0,
            double_click: false,
            finite: false,
            target: DEFAULT_TARGET,
            session_clicks: 0,
            total_clicks: 0,
            error_code: ERROR_NONE,
        }
    }

    /// A new session: running, with no action and no error so far.
    pub open spec fn started(self) -> Shared {
        Shared { running: true, session_clicks: 0, error_code: ERROR_NONE, ..self }
    }

    /// Not running; counters and error are kept.
    pub open spec fn stopped(self) -> Shared {
        Shared { running: false, ..self }
    }

    /// Stopped if it ran, started if it did not.
    pub open spec fn toggled(self) -> Shared {
        if self.running {
            self.stopped()
        } else {
            self.started()
        }
    }

    /// Stopped, and the worker is to end.
    pub open spec fn shut_down(self) -> Shared {
        Shared { running: false, shutdown: true, ..self }
    }

    /// The settings of the window taken over: the interval as given, the
    /// button by its code, at least one action for a fixed run.
    pub open spec fn with_settings(
        self,
        interval_us: u64,
        button: MouseButton,
        double_click: bool,
        repeat_until_stopped: bool,
        repeat_count: u64,
    ) -> Shared {
        Shared {
            interval_us,
            button: button.spec_code(),
            double_click,
            finite: !repeat_until_stopped,
            target: if repeat_count == 0 {
                1
            } else {
                repeat_count
            },
            ..self
        }
    }

    /// The input service could not be reached.
    pub open spec fn input_lost(self) -> Shared {
        Shared { error_code: ERROR_INPUT_UNAVAILABLE, ..self }
    }

    /// The worker's next step: end after a shutdown, wait while stopped,
    /// else one action of the set button, two clicks for a double click.
    pub open spec fn planned_action(self) -> WorkerAction {
        if self.shutdown {
            WorkerAction::Exit
        } else if !self.running {
            WorkerAction::Wait
        } else {
            WorkerAction::Click {
                button: MouseButton::decoded(self.button),
                repetitions: if self.double_click {
                    2
                } else {
                    1
                },
            }
        }
    }

    /// One click done: counted where it went through; where the system
    /// refused it, the clicker stops with that error.
    pub open spec fn after_click(self, accepted: bool) -> Shared {
        if accepted {
            Shared { total_clicks: next_count(self.total_clicks), ..self }
        } else {
            Shared { running: false, error_code: ERROR_INPUT_REJECTED, ..self }
        }
    }

    /// Whether the action that ends now completes a fixed run.
    pub open spec fn completes_run(self) -> bool {
        self.finite && next_count(self.session_clicks) >= self.target
    }

    /// One action done: counted, and the clicker stopped where that
    /// completes a fixed run.
    pub open spec fn after_round(self) -> Shared {
        Shared {
            session_clicks: next_count(self.session_clicks),
            running: if self.completes_run() {
                false
            } else {
                self.running
            },
            ..self
        }
    }

    /// What follows the action that ends now.
    pub open spec fn round_end(self) -> RoundEnd {
        if self.completes_run() {
            RoundEnd::TargetReached
        } else {
            RoundEnd::Pause(pause_for(self.interval_us))
        }
    }

    /// Whether the worker's pause after an action goes on: only while the
    /// clicker runs, the worker is not to end, and the pause's deadline (or
    /// the end of its sleeping part) is still ahead.
    pub open spec fn pause_goes_on(self, before_deadline: bool) -> bool {
        self.running && !self.shutdown && before_deadline
    }

    /// One action in which every click went through.
    pub open spec fn clicked_round(self) -> Shared {
        let once = self.after_click(true);
        let clicked = if self.double_click {
            once.after_click(true)
        } else {
            once
        };
        clicked.after_round()
    }

    /// `k` actions in a row in which every click went through.
    pub open spec fn rounds(self, k: nat) -> Shared
        decreases k,
    {
        if k == 0 {
            self
        } else {
            self.rounds((k - 1) as nat).clicked_round()
        }
    }

    /// The state before any setting is applied.
    pub fn new() -> (shared: Shared)
        ensures
            shared == Shared::initial(),
    {
        Shared {
            running: false,
            shutdown: false,
            interval_us: DEFAULT_INTERVAL_US,
            button: 0,
            double_click: false,
            finite: false,
            target: DEFAULT_TARGET,
            session_clicks: 0,
            total_clicks: 0,
            error_code: ERROR_NONE,
        }
    }

    /// Starts a new session.
    pub fn start(&mut self)
        ensures
            *final(self) == old(self).started(),
    {
        self.session_clicks = 0;
        self.error_code = ERROR_NONE;
        self.running = true;
    }

    /// Stops clicking.
    pub fn stop(&mut self)
        ensures
            *final(self) == old(self).stopped(),
    {
        self.running = false;
    }

    /// Stops if running, starts if not.
    pub fn toggle(&mut self)
        ensures
            *final(self) == old(self).toggled(),
    {
        if self.is_running() {
            self.stop();
        } else {
            self.start();
        }
    }

    /// Whether the clicker runs.
    pub fn is_running(&self) -> (running: bool)
        ensures
            running == self.running,
    {
        self.running
    }

    /// Stops clicking and tells the worker to end.
    pub fn request_shutdown(&mut self)
        ensures
            *final(self) == old(self).shut_down(),
    {
        self.shutdown = true;
        self.running = false;
    }

    /// Takes over the settings of the window.
    pub fn sync_settings(
        &mut self,
        interval_us: u64,
        button: MouseButton,
        double_click: bool,
        repeat_until_stopped: bool,
        repeat_count: u64,
    )
        ensures
            *final(self) == old(self).with_settings(
                interval_us,
                button,
                double_click,
                repeat_until_stopped,
                repeat_count,
            ),
    {
        self.interval_us = interval_us;
        self.button = button.code();
        self.double_click = double_click;
        self.finite = !repeat_until_stopped;
        self.target = if repeat_count == 0 {
            1
        } else {
            repeat_count
        };
    }

    /// Records that the system's input service could not be reached.
    pub fn mark_input_unavailable(&mut self)
        ensures
            *final(self) == old(self).input_lost(),
    {
        self.error_code = ERROR_INPUT_UNAVAILABLE;
    }

    /// The worker's next step.
    pub fn next_action(&self) -> (action: WorkerAction)
        ensures
            action == self.planned_action(),
    {
        if self.shutdown {
            WorkerAction::Exit
        } else if !self.running {
            WorkerAction::Wait
        } else {
            let repetitions: u8 = if self.double_click {
                2
            } else {
                1
            };
            WorkerAction::Click { button: MouseButton::from_code(self.button), repetitions }
        }
    }

    /// Records one click, `accepted` where the system took it, and says
    /// whether the action goes on with its next click: not after a refusal.
    pub fn record_click(&mut self, accepted: bool) -> (go_on: bool)
        ensures
            *final(self) == old(self).after_click(accepted),
            go_on == accepted,
    {
        if accepted {
            self.total_clicks = if self.total_clicks == u64::MAX {
                0
            } else {
                self.total_clicks + 1
            };
        } else {
            self.error_code = ERROR_INPUT_REJECTED;
            self.running = false;
        }
        accepted
    }

    /// Whether the worker's pause after an action goes on, given whether its
    /// deadline (or the end of its sleeping part) is still ahead.
    pub fn pause_continues(&self, before_deadline: bool) -> (go_on: bool)
        ensures
            go_on == self.pause_goes_on(before_deadline),
    {
        self.running && !self.shutdown && before_deadline
    }

    /// Records the end of one action and says what follows it.
    pub fn finish_round(&mut self) -> (end: RoundEnd)
        ensures
            *final(self) == old(self).after_round(),
            end == old(self).round_end(),
    {
        let completed: u64 = if self.session_clicks == u64::MAX {
            0
        } else {
            self.session_clicks + 1
        };
        self.session_clicks = completed;
        if self.finite && completed >= self.target {
            self.running = false;
            RoundEnd::TargetReached
        } else {
            RoundEnd::Pause(pause_plan(self.interval_us))
        }
    }
}

/// Toggling flips whether the clicker runs; a toggle that starts it opens a
/// new session with no action and no error, and two toggles in a row from a
/// stopped state leave it stopped with the session reset.
pub proof fn lemma_toggle_flips(s: Shared)
    ensures
        s.toggled().running == !s.running,
        !s.running ==> s.toggled().session_clicks == 0 && s.toggled().error_code == ERROR_NONE,
        !s.running ==> s.toggled().toggled() == (Shared { session_clicks: 0, error_code: ERROR_NONE, ..s }),
        s.toggled().shutdown == s.shutdown,
{
}

/// Once the worker is told to end, nothing the window or the worker does
/// takes that back, and the worker's next step is always to end.
pub proof fn lemma_shutdown_is_final(
    s: Shared,
    interval_us: u64,
    button: MouseButton,
    double_click: bool,
    repeat_until_stopped: bool,
    repeat_count: u64,
    accepted: bool,
)
    requires
        s.shutdown,
    ensures
        s.planned_action() == WorkerAction::Exit,
        s.started().shutdown,
        s.stopped().shutdown,
        s.toggled().shutdown,
        s.shut_down().shutdown,
        s.with_settings(interval_us, button, double_click, repeat_until_stopped, repeat_count).shutdown,
        s.input_lost().shutdown,
        s.after_click(accepted).shutdown,
        s.after_round().shutdown,
        !s.pause_goes_on(true),
        !s.started().pause_goes_on(true),
{
}

/// After the settings of the window are taken over, the worker keeps the
/// interval it was given, presses the chosen button, and a fixed run has at
/// least one action; whether the clicker runs and its session are left as
/// they were.
pub proof fn lemma_settings_in_range(
    s: Shared,
    interval_us: u64,
    button: MouseButton,
    double_click: bool,
    repeat_until_stopped: bool,
    repeat_count: u64,
)
    ensures
        ({
            let t = s.with_settings(interval_us, button, double_click, repeat_until_stopped, repeat_count);
            &&& t.interval_us == interval_us
            &&& MouseButton::decoded(t.button) == button
            &&& t.target >= 1
            &&& repeat_count >= 1 ==> t.target == repeat_count
            &&& t.finite == !repeat_until_stopped
            &&& t.running == s.running
            &&& t.session_clicks == s.session_clicks
        }),
{
}

/// Once the worker is told to end, a pause under way ends at its next check,
/// and the worker's next step is to end: it stops after at most the action
/// that was under way, whatever the interval. A stop ends the pause too.
pub proof fn lemma_shutdown_ends_pause(s: Shared, before_deadline: bool)
    ensures
        !s.shut_down().pause_goes_on(before_deadline),
        s.shut_down().planned_action() == WorkerAction::Exit,
        !s.stopped().pause_goes_on(before_deadline),
        s.shut_down().after_click(true).planned_action() == WorkerAction::Exit,
        s.shut_down().after_round().planned_action() == WorkerAction::Exit,
        !s.shut_down().after_round().pause_goes_on(before_deadline),
{
}

/// Running until stopped, an action never stops the clicker by itself, and
/// it is always followed by a pause of the set interval.
pub proof fn lemma_until_stopped_runs_on(s: Shared)
    requires
        !s.finite,
    ensures
        s.after_round().running == s.running,
        s.round_end() == RoundEnd::Pause(pause_for(s.interval_us)),
        s.clicked_round().running == s.running,
{
}

/// A click that the system refuses stops the clicker with that error, and
/// the worker then waits (unless it is to end); the next start clears the
/// error.
pub proof fn lemma_refused_click_stops(s: Shared)
    ensures
        !s.after_click(false).running,
        s.after_click(false).error_code == ERROR_INPUT_REJECTED,
        !s.shutdown ==> s.after_click(false).planned_action() == WorkerAction::Wait,
        s.after_click(false).started().error_code == ERROR_NONE,
{
}

/// A fixed run of `target` actions, started afresh and with every click
/// going through, keeps running through its first `target - 1` actions and
/// stops right after the last; each action adds one click, or two for a
/// double click, to the total.
pub proof fn lemma_fixed_run_stops_at_target(s: Shared, k: nat)
    requires
        s.running,
        s.finite,
        s.session_clicks == 0,
        s.target >= 1,
        k <= s.target,
        s.total_clicks + 2 * s.target <= u64::MAX,
    ensures
        s.rounds(k).session_clicks == k,
        s.rounds(k).running == (k < s.target),
        s.rounds(k).total_clicks == s.total_clicks + (if s.double_click {
            2 * k
        } else {
            k
        }),
        s.rounds(k).target == s.target,
        s.rounds(k).finite,
        s.rounds(k).double_click == s.double_click,
        s.rounds(k).shutdown == s.shutdown,
        s.rounds(k).error_code == s.error_code,
        0 < k ==> (s.rounds((k - 1) as nat).round_end() == RoundEnd::TargetReached <==> k == s.target),
    decreases k,
{
    if k > 0 {
        lemma_fixed_run_stops_at_target(s, (k - 1) as nat);
    }
}

/// The worker's pause is never shorter than a microsecond, follows the set
/// interval, and sleeps only through a pause longer than 2 ms, waking 0.5 ms
/// before its end.
pub proof fn lemma_pause_follows_interval(interval_us: u64)
    ensures
        pause_for(interval_us).wait_us >= 1,
        interval_us >= 1 ==> pause_for(interval_us).wait_us == interval_us,
        pause_for(interval_us).sleep_us is Some <==> pause_for(interval_us).wait_us > SLEEP_THRESHOLD_US,
        pause_for(interval_us).sleep_us matches Some(t) ==> t + YIELD_TAIL_US == pause_for(interval_us).wait_us,
{
}

/// Starting opens a new session and changes nothing else: it runs, with no
/// action and no error so far. Stopping changes only whether it runs, and
/// keeps the session's count. A toggle stops a running clicker and starts a
/// stopped one. A shutdown stops it and marks the worker to end; nothing
/// else changes.
pub proof fn lemma_start_stop_toggle(s: Shared)
    ensures
        s.started() == (Shared { running: true, session_clicks: 0, error_code: 0, ..s }),
        s.stopped() == (Shared { running: false, ..s }),
        s.running ==> s.toggled() == (Shared { running: false, ..s }),
        s.running ==> s.toggled().session_clicks == s.session_clicks,
        !s.running ==> s.toggled() == (Shared { running: true, session_clicks: 0, error_code: 0, ..s }),
        s.shut_down() == (Shared { running: false, shutdown: true, ..s }),
        s.input_lost() == (Shared { error_code: 1, ..s }),
{
}

/// The worker's next step from any state: it ends once told to; otherwise a
/// stopped clicker always waits, whatever its settings and counters; a
/// running one presses the button stored under the code (1 the right one, 2
/// the middle one, any other the left one), twice for a double click, once
/// otherwise. Right after a start it clicks; right after a stop it waits.
pub proof fn lemma_next_action_law(s: Shared)
    ensures
        s.shutdown ==> s.planned_action() == WorkerAction::Exit,
        !s.running && !s.shutdown ==> s.planned_action() == WorkerAction::Wait,
        s.running && !s.shutdown ==> (s.planned_action() matches WorkerAction::Click { button, repetitions }
            && (repetitions == 2 <==> s.double_click) && (repetitions == 1 <==> !s.double_click)
            && (s.button == 1 ==> button == MouseButton::Right)
            && (s.button == 2 ==> button == MouseButton::Middle)
            && (s.button != 1 && s.button != 2 ==> button == MouseButton::Left)),
        !s.shutdown ==> s.started().planned_action() is Click,
        !s.shutdown ==> s.stopped().planned_action() == WorkerAction::Wait,
{
}

/// While the clicker runs and the worker is not told to end, a pause goes on
/// exactly as long as its deadline is ahead, whatever the other settings and
/// counters; once stopped or told to end, no pause goes on.
pub proof fn lemma_pause_continues_law(s: Shared, before_deadline: bool)
    ensures
        s.running && !s.shutdown ==> s.pause_goes_on(before_deadline) == before_deadline,
        !s.running || s.shutdown ==> !s.pause_goes_on(before_deadline),
{
}

/// Taking over the settings stores the interval, the double-click choice and
/// the repeat mode as given, the chosen button under its code (the left one
/// 0, the right one 1, the middle one 2), the fixed count as given where it
/// is at least 1 (else 1), and changes nothing else.
pub proof fn lemma_settings_law(
    s: Shared,
    interval_us: u64,
    button: MouseButton,
    double_click: bool,
    repeat_until_stopped: bool,
    repeat_count: u64,
)
    ensures
        ({
            let t = s.with_settings(interval_us, button, double_click, repeat_until_stopped, repeat_count);
            &&& t == (Shared {
                interval_us: interval_us,
                button: t.button,
                double_click: double_click,
                finite: !repeat_until_stopped,
                target: t.target,
                ..s
            })
            &&& button == MouseButton::Left ==> t.button == 0
            &&& button == MouseButton::Right ==> t.button == 1
            &&& button == MouseButton::Middle ==> t.button == 2
            &&& repeat_count >= 1 ==> t.target == repeat_count
            &&& repeat_count == 0 ==> t.target == 1
        }),
{
}

/// Counting: an accepted click adds one to the total (wrapping round at the
/// end of the range) and changes nothing else; a refused one stops the
/// clicker with error 2 and changes nothing else. The end of an action adds
/// one to the session's count (wrapping likewise) and stops the clicker
/// exactly where that count completes a fixed run; then the decision comes
/// at once, else a pause for the set interval.
pub proof fn lemma_counting_law(s: Shared)
    ensures
        s.after_click(true) == (Shared {
            total_clicks: ((s.total_clicks + 1) % 0x1_0000_0000_0000_0000) as u64,
            ..s
        }),
        s.after_click(false) == (Shared { running: false, error_code: 2, ..s }),
        ({
            let c = ((s.session_clicks + 1) % 0x1_0000_0000_0000_0000) as u64;
            let done = s.finite && c >= s.target;
            &&& s.after_round() == (Shared {
                session_clicks: c,
                running: s.running && !done,
                ..s
            })
            &&& done ==> s.round_end() == RoundEnd::TargetReached
            &&& !done ==> s.round_end() == RoundEnd::Pause(PausePlan {
                wait_us: if s.interval_us == 0 { 1 } else { s.interval_us },
                sleep_us: if s.interval_us > 2000 { Some((s.interval_us - 500) as u64) } else { None },
            })
        }),
{
}

} // verus!
