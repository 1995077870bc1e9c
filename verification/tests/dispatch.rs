use desklift::actuator::{ERRNO_GPIO_LED, ERRNO_GPIO_UPDN};
use desklift::dispatch::ERRNO_QUEUE_FULL;
use desklift::{
    status_byte, Action, Actuator, Command, Direction, DispatchError, Dispatcher, Fault, Stage,
};

fn run_until_settled(dispatcher: &mut Dispatcher) -> (Vec<Action>, Vec<u8>) {
    let mut actions = Vec::new();
    let mut reports = Vec::new();
    while let Some(action) = dispatcher.poll() {
        actions.push(action);
        if let Some(outcome) = dispatcher.complete(true) {
            reports.push(status_byte(&outcome));
        }
    }
    (actions, reports)
}

#[test]
fn three_commands_run_in_order() {
    let mut dispatcher = Dispatcher::new();
    for byte in [10u8, 246, 128] {
        assert_eq!(dispatcher.enqueue(byte), Ok(()));
    }
    let (actions, reports) = run_until_settled(&mut dispatcher);
    assert_eq!(
        actions,
        vec![
            Action::AssertUp,
            Action::StatusBusy,
            Action::Wait(100),
            Action::ReleaseUp,
            Action::ReleaseDown,
            Action::StatusIdle,
            Action::AssertDown,
            Action::StatusBusy,
            Action::Wait(100),
            Action::ReleaseUp,
            Action::ReleaseDown,
            Action::StatusIdle,
            Action::AssertDown,
            Action::StatusBusy,
            Action::Wait(1280),
            Action::ReleaseUp,
            Action::ReleaseDown,
            Action::StatusIdle,
        ]
    );
    assert_eq!(reports, vec![0, 0, 0]);
    assert_eq!(dispatcher.poll(), None);
}

#[test]
fn outputs_never_overlap() {
    let mut dispatcher = Dispatcher::new();
    for byte in [10u8, 246, 128, 0, 255, 127] {
        dispatcher.enqueue(byte).unwrap();
    }
    let (mut up, mut down, mut busy) = (false, false, false);
    let mut motions = 0;
    while let Some(action) = dispatcher.poll() {
        match action {
            Action::AssertUp => up = true,
            Action::AssertDown => down = true,
            Action::StatusBusy => busy = true,
            Action::Wait(_) => {
                assert!(busy);
                assert!(up != down);
            }
            Action::ReleaseUp => up = false,
            Action::ReleaseDown => down = false,
            Action::StatusIdle => busy = false,
        }
        assert!(!(up && down));
        if dispatcher.complete(true) == Some(Ok(())) {
            motions += 1;
            assert!(!up && !down && !busy);
        }
    }
    assert_eq!(motions, 6);
}

#[test]
fn queue_holds_sixty_four_commands() {
    let mut dispatcher = Dispatcher::new();
    for byte in 0..64u8 {
        assert_eq!(dispatcher.enqueue(byte), Ok(()));
    }
    assert_eq!(dispatcher.enqueue(64), Err(DispatchError::QueueFull));
    assert_eq!(dispatcher.enqueue(65), Err(DispatchError::QueueFull));

    // The oldest command runs to its end, which frees its place.
    for _ in 0..6 {
        assert!(dispatcher.poll().is_some());
        dispatcher.complete(true);
    }
    assert_eq!(dispatcher.enqueue(66), Ok(()));
    assert_eq!(dispatcher.enqueue(67), Err(DispatchError::QueueFull));
}

#[test]
fn dropped_command_is_never_run() {
    let mut dispatcher = Dispatcher::new();
    for _ in 0..64 {
        dispatcher.enqueue(1).unwrap();
    }
    assert_eq!(dispatcher.enqueue(200), Err(DispatchError::QueueFull));
    let (actions, reports) = run_until_settled(&mut dispatcher);
    assert_eq!(actions.len(), 64 * 6);
    assert_eq!(reports.len(), 64);
    assert!(!actions.contains(&Action::AssertDown));
    assert!(!actions.contains(&Action::Wait(560)));
}

#[test]
fn command_waits_while_a_motion_is_under_way() {
    let mut dispatcher = Dispatcher::new();
    dispatcher.enqueue(5).unwrap();
    assert_eq!(dispatcher.poll(), Some(Action::AssertUp));
    dispatcher.enqueue(251).unwrap();
    // Polling again does not start the later command.
    assert_eq!(dispatcher.poll(), Some(Action::AssertUp));
    assert_eq!(dispatcher.complete(true), None);
    assert_eq!(dispatcher.poll(), Some(Action::StatusBusy));
    assert_eq!(dispatcher.complete(true), None);
    assert_eq!(dispatcher.poll(), Some(Action::Wait(50)));
    assert_eq!(dispatcher.complete(true), None);
    assert_eq!(dispatcher.poll(), Some(Action::ReleaseUp));
    assert_eq!(dispatcher.complete(true), None);
    assert_eq!(dispatcher.poll(), Some(Action::ReleaseDown));
    assert_eq!(dispatcher.complete(true), None);
    assert_eq!(dispatcher.poll(), Some(Action::StatusIdle));
    assert_eq!(dispatcher.complete(true), Some(Ok(())));
    assert_eq!(dispatcher.poll(), Some(Action::AssertDown));
}

#[test]
fn nothing_to_do_without_commands() {
    let mut dispatcher = Dispatcher::new();
    assert_eq!(dispatcher.poll(), None);
    assert_eq!(dispatcher.complete(true), None);
    assert_eq!(dispatcher.complete(false), None);
    assert_eq!(dispatcher.poll(), None);
}

#[test]
fn receive_queues_what_fits() {
    let mut dispatcher = Dispatcher::new();
    let bytes: Vec<u8> = (0..70u8).collect();
    assert_eq!(dispatcher.receive(&bytes[0..8]), 8);
    assert_eq!(dispatcher.receive(&bytes[8..60]), 52);
    assert_eq!(dispatcher.receive(&bytes[60..70]), 4);
    assert_eq!(dispatcher.receive(&bytes[0..3]), 0);
    assert_eq!(dispatcher.receive(&[]), 0);
    let (actions, reports) = run_until_settled(&mut dispatcher);
    assert_eq!(reports.len(), 64);
    let waits: Vec<Action> =
        actions.iter().copied().filter(|action| matches!(action, Action::Wait(_))).collect();
    let expected: Vec<Action> = (0..64u16).map(|i| Action::Wait(i * 10)).collect();
    assert_eq!(waits, expected);
}

#[test]
fn zero_duration_command_is_still_a_motion() {
    let mut dispatcher = Dispatcher::new();
    dispatcher.enqueue(0).unwrap();
    let (actions, reports) = run_until_settled(&mut dispatcher);
    assert_eq!(
        actions,
        vec![
            Action::AssertUp,
            Action::StatusBusy,
            Action::Wait(0),
            Action::ReleaseUp,
            Action::ReleaseDown,
            Action::StatusIdle,
        ]
    );
    assert_eq!(reports, vec![0]);
}

#[test]
fn actuator_refuses_a_command_while_busy() {
    let mut actuator = Actuator::new();
    assert!(actuator.is_idle());
    assert_eq!(actuator.action(), None);
    assert!(actuator.begin(Command::new(-3)));
    assert!(!actuator.is_idle());
    assert_eq!(
        actuator,
        Actuator::Actuating {
            direction: Direction::Down,
            remaining: 30,
            stage: Stage::Assert,
            fault: None,
        }
    );
    assert!(!actuator.begin(Command::new(9)));
    assert_eq!(
        actuator,
        Actuator::Actuating {
            direction: Direction::Down,
            remaining: 30,
            stage: Stage::Assert,
            fault: None,
        }
    );
    assert_eq!(actuator.action(), Some(Action::AssertDown));
}

#[test]
fn nothing_remains_after_the_wait() {
    let mut actuator = Actuator::new();
    actuator.begin(Command::new(12));
    actuator.complete(true);
    actuator.complete(true);
    assert_eq!(actuator.action(), Some(Action::Wait(120)));
    actuator.complete(true);
    assert_eq!(
        actuator,
        Actuator::Actuating {
            direction: Direction::Up,
            remaining: 0,
            stage: Stage::ReleaseUp,
            fault: None,
        }
    );
}

/// Runs one motion with the given reports and returns the actions that were
/// due, the outcome of each step and the state at the end.
fn run_motion(
    command: Command,
    reports: &[bool],
) -> (Vec<Action>, Vec<Option<Result<(), Fault>>>, Actuator) {
    let mut actuator = Actuator::new();
    assert!(actuator.begin(command));
    let mut actions = Vec::new();
    let mut outcomes = Vec::new();
    for success in reports {
        match actuator.action() {
            Some(action) => actions.push(action),
            None => break,
        }
        outcomes.push(actuator.complete(*success));
    }
    (actions, outcomes, actuator)
}

#[test]
fn failed_assert_ends_the_motion_at_once() {
    let (actions, outcomes, actuator) = run_motion(Command::new(4), &[false, true, true]);
    assert_eq!(actions, vec![Action::AssertUp]);
    assert_eq!(outcomes, vec![Some(Err(Fault::UpDown))]);
    assert_eq!(actuator, Actuator::Idle);
}

#[test]
fn failed_status_indicator_still_releases_the_outputs() {
    let (actions, outcomes, actuator) =
        run_motion(Command::new(4), &[true, false, true, true, true, true]);
    assert_eq!(
        actions,
        vec![
            Action::AssertUp,
            Action::StatusBusy,
            Action::ReleaseUp,
            Action::ReleaseDown,
            Action::StatusIdle,
        ]
    );
    assert_eq!(outcomes, vec![None, None, None, None, Some(Err(Fault::Led))]);
    assert_eq!(actuator, Actuator::Idle);
}

#[test]
fn fault_is_on_record_while_the_motion_is_wound_up() {
    let mut actuator = Actuator::new();
    actuator.begin(Command::new(-4));
    assert_eq!(actuator.complete(true), None);
    assert_eq!(actuator.complete(false), None);
    assert_eq!(
        actuator,
        Actuator::Actuating {
            direction: Direction::Down,
            remaining: 0,
            stage: Stage::ReleaseUp,
            fault: Some(Fault::Led),
        }
    );
    assert!(!actuator.begin(Command::new(9)));
    assert_eq!(actuator.action(), Some(Action::ReleaseUp));
}

#[test]
fn failed_release_still_releases_the_other_output() {
    let (actions, outcomes, actuator) =
        run_motion(Command::new(-4), &[true, true, true, false, true, true]);
    assert_eq!(
        actions,
        vec![
            Action::AssertDown,
            Action::StatusBusy,
            Action::Wait(40),
            Action::ReleaseUp,
            Action::ReleaseDown,
            Action::StatusIdle,
        ]
    );
    assert_eq!(outcomes, vec![None, None, None, None, None, Some(Err(Fault::UpDown))]);
    assert_eq!(actuator, Actuator::Idle);

    let (actions, outcomes, actuator) =
        run_motion(Command::new(-4), &[true, true, true, true, false, true]);
    assert_eq!(actions.len(), 6);
    assert_eq!(actions[5], Action::StatusIdle);
    assert_eq!(outcomes[5], Some(Err(Fault::UpDown)));
    assert_eq!(actuator, Actuator::Idle);
}

#[test]
fn failed_last_action_ends_the_motion_with_its_fault() {
    let (actions, outcomes, actuator) =
        run_motion(Command::new(4), &[true, true, true, true, true, false]);
    assert_eq!(actions.len(), 6);
    assert_eq!(outcomes, vec![None, None, None, None, None, Some(Err(Fault::Led))]);
    assert_eq!(actuator, Actuator::Idle);
}

#[test]
fn first_fault_is_the_one_reported() {
    let (_, outcomes, _) = run_motion(Command::new(4), &[true, false, false, false, false]);
    assert_eq!(outcomes.last(), Some(&Some(Err(Fault::Led))));
    let (_, outcomes, _) = run_motion(Command::new(4), &[true, true, true, false, true, false]);
    assert_eq!(outcomes.last(), Some(&Some(Err(Fault::UpDown))));
    let (_, outcomes, _) = run_motion(Command::new(4), &[true, true, true, true, false, false]);
    assert_eq!(outcomes.last(), Some(&Some(Err(Fault::UpDown))));
}

#[test]
fn waiting_cannot_fail() {
    let (actions, outcomes, actuator) =
        run_motion(Command::new(4), &[true, true, false, true, true, true]);
    assert_eq!(actions[2], Action::Wait(40));
    assert_eq!(actions.len(), 6);
    assert_eq!(outcomes, vec![None, None, None, None, None, Some(Ok(()))]);
    assert_eq!(actuator, Actuator::Idle);
}

#[test]
fn outputs_are_released_before_rest_whatever_is_reported() {
    for pattern in 0..64u32 {
        let reports: Vec<bool> = (0..6).map(|bit| pattern & (1 << bit) != 0).collect();
        for command in [Command::new(7), Command::new(-7)] {
            let (actions, outcomes, actuator) = run_motion(command, &reports);
            if !reports[0] {
                assert_eq!(actions.len(), 1);
                assert_eq!(actuator, Actuator::Idle);
                continue;
            }
            if actuator != Actuator::Idle {
                assert!(!reports[1]);
                continue;
            }
            let n = actions.len();
            assert!(n == 5 || n == 6);
            assert_eq!(actions[n - 3], Action::ReleaseUp);
            assert_eq!(actions[n - 2], Action::ReleaseDown);
            assert_eq!(actions[n - 1], Action::StatusIdle);
            for action in &actions[1..] {
                assert!(*action != Action::AssertUp && *action != Action::AssertDown);
            }
            for outcome in &outcomes[..n - 1] {
                assert_eq!(*outcome, None);
            }
            let all_well = reports[..n].iter().enumerate().all(|(i, ok)| *ok || (n == 6 && i == 2));
            assert_eq!(outcomes[n - 1] == Some(Ok(())), all_well);
        }
    }
}

#[test]
fn next_command_starts_only_after_the_release() {
    let mut dispatcher = Dispatcher::new();
    dispatcher.enqueue(10).unwrap();
    dispatcher.enqueue(246).unwrap();
    assert_eq!(dispatcher.poll(), Some(Action::AssertUp));
    assert_eq!(dispatcher.complete(true), None);
    assert_eq!(dispatcher.poll(), Some(Action::StatusBusy));
    assert_eq!(dispatcher.complete(false), None);
    assert_eq!(dispatcher.poll(), Some(Action::ReleaseUp));
    assert_eq!(dispatcher.complete(true), None);
    assert_eq!(dispatcher.poll(), Some(Action::ReleaseDown));
    assert_eq!(dispatcher.complete(true), None);
    assert_eq!(dispatcher.poll(), Some(Action::StatusIdle));
    let outcome = dispatcher.complete(true);
    assert_eq!(outcome, Some(Err(Fault::Led)));
    assert_eq!(status_byte(&outcome.unwrap()), 2);
    assert_eq!(dispatcher.poll(), Some(Action::AssertDown));
}

#[test]
fn next_command_runs_after_a_failed_assert() {
    let mut dispatcher = Dispatcher::new();
    dispatcher.enqueue(2).unwrap();
    dispatcher.enqueue(254).unwrap();
    assert_eq!(dispatcher.poll(), Some(Action::AssertUp));
    assert_eq!(dispatcher.complete(false), Some(Err(Fault::UpDown)));
    assert_eq!(dispatcher.poll(), Some(Action::AssertDown));
}

#[test]
fn directions_never_overlap_whatever_is_reported() {
    let mut seed: u32 = 0x9e37_79b9;
    let mut dispatcher = Dispatcher::new();
    let (mut up, mut down) = (false, false);
    for step in 0..30_000u32 {
        seed = seed.wrapping_mul(1_664_525).wrapping_add(1_013_904_223);
        if (seed >> 20) % 4 == 0 {
            let _ = dispatcher.enqueue((seed >> 8) as u8);
        }
        let success = (seed >> 12) % 5 != 0 || step % 7 == 0;
        if let Some(action) = dispatcher.poll() {
            match action {
                Action::AssertUp => {
                    assert!(!up && !down);
                    up = success;
                }
                Action::AssertDown => {
                    assert!(!up && !down);
                    down = success;
                }
                Action::ReleaseUp => up = false,
                Action::ReleaseDown => down = false,
                _ => {}
            }
            assert!(!(up && down));
            if dispatcher.complete(success).is_some() {
                assert!(!up && !down);
            }
        }
    }
}

#[test]
fn equal_values_make_equal_commands() {
    for a in -128..=127i8 {
        for b in -128..=127i8 {
            assert_eq!(Command::new(a) == Command::new(b), a == b);
        }
    }
}

#[test]
fn status_bytes() {
    assert_eq!(status_byte(&Ok(())), 0);
    assert_eq!(status_byte(&Err(Fault::UpDown)), 1);
    assert_eq!(status_byte(&Err(Fault::Led)), 2);
    assert_eq!(Fault::UpDown.errno(), ERRNO_GPIO_UPDN);
    assert_eq!(Fault::Led.errno(), ERRNO_GPIO_LED);
    assert_eq!(ERRNO_GPIO_UPDN, 1);
    assert_eq!(ERRNO_GPIO_LED, 2);
    assert_eq!(DispatchError::QueueFull.errno(), ERRNO_QUEUE_FULL);
    assert_eq!(ERRNO_QUEUE_FULL, 4);
}
