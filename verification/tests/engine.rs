use emberclick::button::MouseButton;
use emberclick::engine::{
    pause_plan, PausePlan, RoundEnd, Shared, WorkerAction, ERROR_INPUT_REJECTED,
    ERROR_INPUT_UNAVAILABLE, ERROR_NONE,
};

fn run_one_round(s: &mut Shared) -> RoundEnd {
    match s.next_action() {
        WorkerAction::Click { repetitions, .. } => {
            for _ in 0..repetitions {
                s.record_click(true);
            }
            s.finish_round()
        }
        other => panic!("expected a click action, got {:?}", other),
    }
}

#[test]
fn new_state_defaults() {
    let s = Shared::new();
    assert!(!s.running);
    assert!(!s.shutdown);
    assert_eq!(s.interval_us, 10_000);
    assert_eq!(s.button, 0);
    assert!(!s.double_click);
    assert!(!s.finite);
    assert_eq!(s.target, 100);
    assert_eq!(s.session_clicks, 0);
    assert_eq!(s.total_clicks, 0);
    assert_eq!(s.error_code, ERROR_NONE);
    assert_eq!(s.next_action(), WorkerAction::Wait);
}

#[test]
fn start_resets_the_session() {
    let mut s = Shared::new();
    s.session_clicks = 41;
    s.error_code = ERROR_INPUT_REJECTED;
    s.total_clicks = 90;
    s.start();
    assert!(s.is_running());
    assert_eq!(s.session_clicks, 0);
    assert_eq!(s.error_code, ERROR_NONE);
    assert_eq!(s.total_clicks, 90);
}

#[test]
fn stop_keeps_counters() {
    let mut s = Shared::new();
    s.start();
    run_one_round(&mut s);
    s.stop();
    assert!(!s.is_running());
    assert_eq!(s.session_clicks, 1);
    assert_eq!(s.next_action(), WorkerAction::Wait);
}

#[test]
fn toggle_flips_running() {
    let mut s = Shared::new();
    s.toggle();
    assert!(s.is_running());
    s.toggle();
    assert!(!s.is_running());
}

#[test]
fn shutdown_ends_the_worker_for_good() {
    let mut s = Shared::new();
    s.start();
    s.request_shutdown();
    assert!(!s.running);
    assert_eq!(s.next_action(), WorkerAction::Exit);
    s.start();
    assert_eq!(s.next_action(), WorkerAction::Exit);
    s.toggle();
    s.sync_settings(500, MouseButton::Right, true, false, 3);
    assert_eq!(s.next_action(), WorkerAction::Exit);
}

#[test]
fn settings_are_taken_over() {
    let mut s = Shared::new();
    s.sync_settings(0, MouseButton::Middle, false, true, 0);
    assert_eq!(s.interval_us, 0);
    assert_eq!(s.target, 1);
    assert_eq!(s.button, 2);
    assert!(!s.finite);
    s.sync_settings(3_600_000_000, MouseButton::Right, true, false, 250);
    assert_eq!(s.interval_us, 3_600_000_000);
    assert_eq!(s.target, 250);
    assert_eq!(s.button, 1);
    assert!(s.double_click);
    assert!(s.finite);
    s.sync_settings(100, MouseButton::Left, false, true, 5);
    assert_eq!(s.interval_us, 100);
}

#[test]
fn zero_interval_pauses_one_microsecond() {
    let mut s = Shared::new();
    s.sync_settings(0, MouseButton::Left, false, true, 1);
    s.start();
    assert_eq!(
        run_one_round(&mut s),
        RoundEnd::Pause(PausePlan { wait_us: 1, sleep_us: None })
    );
}

#[test]
fn pause_goes_on_only_while_running() {
    let mut s = Shared::new();
    s.sync_settings(3_600_000_000, MouseButton::Left, false, true, 1);
    s.start();
    assert!(s.pause_continues(true));
    assert!(!s.pause_continues(false));
    s.stop();
    assert!(!s.pause_continues(true));
}

#[test]
fn shutdown_ends_a_long_pause() {
    let mut s = Shared::new();
    s.sync_settings(3_600_000_000, MouseButton::Left, false, true, 1);
    s.start();
    assert!(matches!(run_one_round(&mut s), RoundEnd::Pause(_)));
    assert!(s.pause_continues(true));
    s.request_shutdown();
    assert!(!s.pause_continues(true));
    assert_eq!(s.next_action(), WorkerAction::Exit);
    s.start();
    assert!(!s.pause_continues(true));
}

#[test]
fn refused_click_breaks_off_the_action() {
    let mut s = Shared::new();
    s.start();
    assert!(s.record_click(true));
    assert!(!s.record_click(false));
}

#[test]
fn action_follows_the_settings() {
    let mut s = Shared::new();
    s.sync_settings(1000, MouseButton::Middle, true, true, 1);
    s.start();
    assert_eq!(
        s.next_action(),
        WorkerAction::Click { button: MouseButton::Middle, repetitions: 2 }
    );
    s.sync_settings(1000, MouseButton::Right, false, true, 1);
    assert_eq!(
        s.next_action(),
        WorkerAction::Click { button: MouseButton::Right, repetitions: 1 }
    );
}

#[test]
fn double_click_counts_two_clicks_per_action() {
    let mut s = Shared::new();
    s.sync_settings(10_000, MouseButton::Left, true, true, 1);
    s.start();
    run_one_round(&mut s);
    run_one_round(&mut s);
    assert_eq!(s.session_clicks, 2);
    assert_eq!(s.total_clicks, 4);
}

#[test]
fn fixed_run_stops_at_target() {
    let mut s = Shared::new();
    s.sync_settings(10_000, MouseButton::Left, false, false, 3);
    s.start();
    assert!(matches!(run_one_round(&mut s), RoundEnd::Pause(_)));
    assert!(s.running);
    assert!(matches!(run_one_round(&mut s), RoundEnd::Pause(_)));
    assert!(s.running);
    assert_eq!(run_one_round(&mut s), RoundEnd::TargetReached);
    assert!(!s.running);
    assert_eq!(s.session_clicks, 3);
    assert_eq!(s.total_clicks, 3);
    assert_eq!(s.next_action(), WorkerAction::Wait);
}

#[test]
fn until_stopped_runs_on() {
    let mut s = Shared::new();
    s.sync_settings(10_000, MouseButton::Left, false, true, 2);
    s.start();
    for _ in 0..10 {
        assert_eq!(
            run_one_round(&mut s),
            RoundEnd::Pause(PausePlan { wait_us: 10_000, sleep_us: Some(9_500) })
        );
    }
    assert!(s.running);
    assert_eq!(s.session_clicks, 10);
}

#[test]
fn refused_click_stops_with_error() {
    let mut s = Shared::new();
    s.start();
    s.record_click(false);
    assert!(!s.running);
    assert_eq!(s.error_code, ERROR_INPUT_REJECTED);
    assert_eq!(s.total_clicks, 0);
    assert_eq!(s.next_action(), WorkerAction::Wait);
    s.start();
    assert_eq!(s.error_code, ERROR_NONE);
}

#[test]
fn unavailable_input_is_recorded() {
    let mut s = Shared::new();
    s.mark_input_unavailable();
    assert_eq!(s.error_code, ERROR_INPUT_UNAVAILABLE);
}

#[test]
fn counters_wrap_round() {
    let mut s = Shared::new();
    s.start();
    s.total_clicks = u64::MAX;
    s.session_clicks = u64::MAX;
    run_one_round(&mut s);
    assert_eq!(s.total_clicks, 0);
    assert_eq!(s.session_clicks, 0);
}

#[test]
fn pause_plans() {
    assert_eq!(pause_plan(0), PausePlan { wait_us: 1, sleep_us: None });
    assert_eq!(pause_plan(100), PausePlan { wait_us: 100, sleep_us: None });
    assert_eq!(pause_plan(2_000), PausePlan { wait_us: 2_000, sleep_us: None });
    assert_eq!(pause_plan(2_001), PausePlan { wait_us: 2_001, sleep_us: Some(1_501) });
    assert_eq!(
        pause_plan(3_600_000_000),
        PausePlan { wait_us: 3_600_000_000, sleep_us: Some(3_599_999_500) }
    );
}
