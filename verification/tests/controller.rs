use confirm_dialog::action::Action;
use confirm_dialog::command::CommandLine;
use confirm_dialog::controller::{Callback, DialogController, Event, Outcome};
use confirm_dialog::notice::Notice;

fn confirmation_of(command: &str, program: &str, args: &[&str]) -> Vec<Action> {
    vec![
        Action::Announce(Notice::Confirmed),
        Action::Announce(Notice::Executing(command.to_string())),
        Action::Spawn(CommandLine {
            program: program.to_string(),
            args: args.iter().map(|arg| arg.to_string()).collect(),
        }),
        Action::Dismiss,
    ]
}

fn is_spawn(action: &Action) -> bool {
    matches!(action, Action::Spawn(_))
}

#[test]
fn new_controller_is_running_with_the_timeout() {
    let controller = DialogController::new(15, Some("true".to_string()));
    assert_eq!(controller.remaining_seconds(), 15);
    assert_eq!(controller.command(), Some(&"true".to_string()));
    assert_eq!(controller.resolution(), None);
    assert!(!controller.is_resolved());
}

#[test]
fn start_displays_the_timeout_and_asks_for_a_tick() {
    let mut controller = DialogController::new(15, None);
    assert_eq!(
        controller.start_countdown(true),
        vec![Action::Display(15), Action::ScheduleTick]
    );
    assert_eq!(controller.remaining_seconds(), 15);
    assert!(!controller.is_resolved());
}

#[test]
fn tick_counts_down_by_one() {
    let mut controller = DialogController::new(4, None);
    controller.start_countdown(true);
    assert_eq!(controller.on_tick(true), vec![Action::Display(3), Action::ScheduleTick]);
    assert_eq!(controller.remaining_seconds(), 3);
    assert_eq!(controller.on_tick(true), vec![Action::Display(2), Action::ScheduleTick]);
    assert_eq!(controller.remaining_seconds(), 2);
    assert_eq!(controller.on_tick(true), vec![Action::Display(1), Action::ScheduleTick]);
    assert_eq!(controller.remaining_seconds(), 1);
    assert!(!controller.is_resolved());
}

#[test]
fn cancel_during_countdown_spawns_nothing() {
    let mut controller = DialogController::new(3, None);
    controller.start_countdown(true);
    controller.on_tick(true);
    assert_eq!(controller.remaining_seconds(), 2);
    let actions = controller.on_cancel(true);
    assert_eq!(actions, vec![Action::Announce(Notice::Cancelled), Action::Dismiss]);
    assert!(!actions.iter().any(is_spawn));
    assert_eq!(controller.resolution(), Some(Outcome::ManualCancel));
    assert!(controller.is_resolved());
    assert_eq!(controller.remaining_seconds(), 2);
}

#[test]
fn cancel_with_a_command_spawns_nothing() {
    let mut controller = DialogController::new(3, Some("rm -rf /tmp/x".to_string()));
    controller.start_countdown(true);
    let actions = controller.on_cancel(true);
    assert_eq!(actions, vec![Action::Announce(Notice::Cancelled), Action::Dismiss]);
    assert_eq!(controller.resolution(), Some(Outcome::ManualCancel));
}

#[test]
fn countdown_runs_out_and_confirms_once() {
    let mut controller = DialogController::new(2, Some("true".to_string()));
    let mut trace: Vec<Action> = controller.start_countdown(true);
    assert_eq!(trace, vec![Action::Display(2), Action::ScheduleTick]);
    let first = controller.on_tick(true);
    assert_eq!(first, vec![Action::Display(1), Action::ScheduleTick]);
    assert!(!controller.is_resolved());
    let second = controller.on_tick(true);
    let mut expected = vec![Action::Announce(Notice::AutoConfirmed)];
    expected.extend(confirmation_of("true", "true", &[]));
    assert_eq!(second, expected);
    assert_eq!(controller.resolution(), Some(Outcome::AutoConfirm));
    assert_eq!(controller.remaining_seconds(), 0);
    trace.extend(first);
    trace.extend(second);
    trace.extend(controller.on_tick(true));
    trace.extend(controller.on_tick(true));
    let auto_lines = trace
        .iter()
        .filter(|action| **action == Action::Announce(Notice::AutoConfirmed))
        .count();
    assert_eq!(auto_lines, 1);
    assert_eq!(trace.iter().filter(|action| is_spawn(action)).count(), 1);
}

#[test]
fn ok_at_once_resolves_whatever_the_spawn_does() {
    let mut controller = DialogController::new(5, Some("/nonexistent/binary".to_string()));
    controller.start_countdown(true);
    let actions = controller.on_ok(true);
    assert_eq!(
        actions,
        confirmation_of("/nonexistent/binary", "/nonexistent/binary", &[])
    );
    assert_eq!(actions.iter().filter(|action| is_spawn(action)).count(), 1);
    let report = Notice::of_spawn(Err("No such file or directory (os error 2)".to_string()));
    assert!(report.is_error());
    assert_eq!(
        report.text(),
        "Failed to run command: No such file or directory (os error 2)"
    );
    assert_eq!(actions.last(), Some(&Action::Dismiss));
    assert_eq!(controller.resolution(), Some(Outcome::ManualConfirm));
    assert_eq!(controller.remaining_seconds(), 5);
}

#[test]
fn zero_timeout_confirms_at_the_start() {
    let mut controller = DialogController::new(0, Some("echo done".to_string()));
    let actions = controller.start_countdown(true);
    let mut expected = vec![Action::Announce(Notice::AutoConfirmed)];
    expected.extend(confirmation_of("echo done", "echo", &["done"]));
    assert_eq!(actions, expected);
    assert_eq!(controller.resolution(), Some(Outcome::AutoConfirm));
    assert_eq!(controller.remaining_seconds(), 0);
    assert!(controller.on_tick(true).is_empty());
    assert!(controller.on_ok(true).is_empty());
    assert_eq!(controller.resolution(), Some(Outcome::AutoConfirm));
}

#[test]
fn zero_timeout_without_a_start_confirms_at_the_first_tick() {
    let mut controller = DialogController::new(0, None);
    assert_eq!(
        controller.on_tick(true),
        vec![
            Action::Announce(Notice::AutoConfirmed),
            Action::Announce(Notice::Confirmed),
            Action::Dismiss,
        ]
    );
    assert_eq!(controller.resolution(), Some(Outcome::AutoConfirm));
}

#[test]
fn ok_without_a_command_only_confirms() {
    let mut controller = DialogController::new(7, None);
    controller.start_countdown(true);
    assert_eq!(
        controller.on_ok(true),
        vec![Action::Announce(Notice::Confirmed), Action::Dismiss]
    );
    assert_eq!(controller.resolution(), Some(Outcome::ManualConfirm));
}

#[test]
fn ok_with_a_blank_command_announces_and_spawns_nothing() {
    let mut controller = DialogController::new(7, Some("  ".to_string()));
    assert_eq!(
        controller.on_ok(true),
        vec![
            Action::Announce(Notice::Confirmed),
            Action::Announce(Notice::Executing("  ".to_string())),
            Action::Dismiss,
        ]
    );
}

#[test]
fn ok_after_resolution_changes_nothing() {
    let mut controller = DialogController::new(3, Some("true".to_string()));
    controller.start_countdown(true);
    assert!(!controller.on_ok(true).is_empty());
    assert!(controller.on_ok(true).is_empty());
    assert!(controller.on_cancel(true).is_empty());
    assert!(controller.on_tick(true).is_empty());
    assert!(controller.start_countdown(true).is_empty());
    assert_eq!(controller.resolution(), Some(Outcome::ManualConfirm));
    assert_eq!(controller.remaining_seconds(), 3);
}

#[test]
fn cancel_after_resolution_changes_nothing() {
    let mut controller = DialogController::new(3, Some("true".to_string()));
    controller.start_countdown(true);
    assert!(!controller.on_cancel(true).is_empty());
    assert!(controller.on_cancel(true).is_empty());
    assert!(controller.on_ok(true).is_empty());
    assert!(controller.on_tick(true).is_empty());
    assert_eq!(controller.resolution(), Some(Outcome::ManualCancel));
    assert_eq!(controller.remaining_seconds(), 3);
}

#[test]
fn callbacks_without_a_window_are_passed_over() {
    let mut controller = DialogController::new(3, Some("true".to_string()));
    assert!(controller.start_countdown(false).is_empty());
    assert!(controller.on_tick(false).is_empty());
    assert!(controller.on_ok(false).is_empty());
    assert!(controller.on_cancel(false).is_empty());
    assert_eq!(controller.resolution(), None);
    assert_eq!(controller.remaining_seconds(), 3);
    assert_eq!(controller.on_tick(true), vec![Action::Display(2), Action::ScheduleTick]);
}

#[test]
fn handle_goes_to_the_handler_of_the_event() {
    let mut ticking = DialogController::new(2, None);
    assert_eq!(
        ticking.handle(Callback { event: Event::Tick, window_alive: true }),
        vec![Action::Display(1), Action::ScheduleTick]
    );
    let mut confirmed = DialogController::new(2, None);
    assert_eq!(
        confirmed.handle(Callback { event: Event::OkClicked, window_alive: true }),
        vec![Action::Announce(Notice::Confirmed), Action::Dismiss]
    );
    assert_eq!(confirmed.resolution(), Some(Outcome::ManualConfirm));
    let mut cancelled = DialogController::new(2, None);
    assert_eq!(
        cancelled.handle(Callback { event: Event::CancelClicked, window_alive: true }),
        vec![Action::Announce(Notice::Cancelled), Action::Dismiss]
    );
    assert_eq!(cancelled.resolution(), Some(Outcome::ManualCancel));
    let mut gone = DialogController::new(2, None);
    assert!(gone.handle(Callback { event: Event::OkClicked, window_alive: false }).is_empty());
    assert_eq!(gone.resolution(), None);
}

#[test]
fn tick_from_the_largest_timeout_counts_down() {
    let mut controller = DialogController::new(u64::MAX, None);
    assert_eq!(
        controller.start_countdown(true),
        vec![Action::Display(u64::MAX), Action::ScheduleTick]
    );
    assert_eq!(
        controller.on_tick(true),
        vec![Action::Display(u64::MAX - 1), Action::ScheduleTick]
    );
}
