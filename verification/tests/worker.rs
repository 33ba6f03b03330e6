use emberclick::button::MouseButton;
use emberclick::engine::{PausePlan, Shared, ERROR_INPUT_REJECTED, ERROR_NONE};
use emberclick::worker::{WorkerCommand, WorkerEvent, WorkerPhase};

#[test]
fn stopped_worker_waits() {
    let mut s = Shared::new();
    let (phase, command) = s.worker_step(WorkerPhase::Deciding, WorkerEvent::Ready);
    assert_eq!(phase, WorkerPhase::Deciding);
    assert_eq!(command, WorkerCommand::Wait);
}

#[test]
fn shut_down_worker_exits() {
    let mut s = Shared::new();
    s.request_shutdown();
    let (_, command) = s.worker_step(WorkerPhase::Deciding, WorkerEvent::Ready);
    assert_eq!(command, WorkerCommand::Exit);
}

#[test]
fn double_click_action_in_steps() {
    let mut s = Shared::new();
    s.sync_settings(5_000, MouseButton::Right, true, true, 1);
    s.start();
    let (phase, command) = s.worker_step(WorkerPhase::Deciding, WorkerEvent::Ready);
    assert_eq!(phase, WorkerPhase::Clicking { button: MouseButton::Right, left: 2 });
    assert_eq!(command, WorkerCommand::Press(MouseButton::Right));
    let (phase, command) = s.worker_step(phase, WorkerEvent::Clicked { accepted: true });
    assert_eq!(phase, WorkerPhase::Clicking { button: MouseButton::Right, left: 1 });
    assert_eq!(command, WorkerCommand::Press(MouseButton::Right));
    assert_eq!(s.total_clicks, 1);
    assert_eq!(s.session_clicks, 0);
    let (phase, command) = s.worker_step(phase, WorkerEvent::Clicked { accepted: true });
    assert_eq!(phase, WorkerPhase::Deciding);
    assert_eq!(
        command,
        WorkerCommand::Pause(PausePlan { wait_us: 5_000, sleep_us: Some(4_500) })
    );
    assert_eq!(s.total_clicks, 2);
    assert_eq!(s.session_clicks, 1);
}

#[test]
fn fixed_run_in_steps_ends_waiting() {
    let mut s = Shared::new();
    s.sync_settings(1_000, MouseButton::Left, false, false, 2);
    s.start();
    let mut phase = WorkerPhase::Deciding;
    let mut event = WorkerEvent::Ready;
    let mut presses = 0;
    loop {
        let (next, command) = s.worker_step(phase, event);
        phase = next;
        match command {
            WorkerCommand::Press(_) => {
                presses += 1;
                event = WorkerEvent::Clicked { accepted: true };
            }
            WorkerCommand::Pause(_) => event = WorkerEvent::Ready,
            WorkerCommand::Wait => break,
            WorkerCommand::Exit => panic!("unexpected exit"),
        }
    }
    assert_eq!(presses, 2);
    assert_eq!(s.session_clicks, 2);
    assert!(!s.running);
}

#[test]
fn refused_click_ends_the_action() {
    let mut s = Shared::new();
    s.sync_settings(1_000, MouseButton::Middle, true, true, 1);
    s.start();
    let (phase, _) = s.worker_step(WorkerPhase::Deciding, WorkerEvent::Ready);
    let (phase, command) = s.worker_step(phase, WorkerEvent::Clicked { accepted: false });
    assert_eq!(phase, WorkerPhase::Deciding);
    assert!(matches!(command, WorkerCommand::Pause(_)));
    assert!(!s.running);
    assert_eq!(s.error_code, ERROR_INPUT_REJECTED);
    assert_eq!(s.session_clicks, 1);
    assert_eq!(s.total_clicks, 0);
    let (_, command) = s.worker_step(phase, WorkerEvent::Ready);
    assert_eq!(command, WorkerCommand::Wait);
    s.toggle();
    assert_eq!(s.error_code, ERROR_NONE);
}
