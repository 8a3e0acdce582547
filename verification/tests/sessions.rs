use confirm_dialog::action::Action;
use confirm_dialog::controller::{Callback, DialogController, Event, Outcome};
use confirm_dialog::notice::Notice;

fn play(timeout: u64, command: Option<&str>, callbacks: &[Callback]) -> (DialogController, Vec<Action>) {
    let mut controller = DialogController::new(timeout, command.map(|text| text.to_string()));
    let mut trace: Vec<Action> = controller.start_countdown(true);
    for callback in callbacks {
        trace.extend(controller.handle(*callback));
    }
    (controller, trace)
}

fn occurrences(trace: &[Action], wanted: &Action) -> usize {
    trace.iter().filter(|action| *action == wanted).count()
}

fn spawns(trace: &[Action]) -> usize {
    trace.iter().filter(|action| matches!(action, Action::Spawn(_))).count()
}

fn live(event: Event) -> Callback {
    Callback { event, window_alive: true }
}

fn stale(event: Event) -> Callback {
    Callback { event, window_alive: false }
}

/// Every sequence of the given length over the six callbacks there are.
fn sequences(length: usize) -> Vec<Vec<Callback>> {
    let alphabet = [
        live(Event::OkClicked),
        live(Event::CancelClicked),
        live(Event::Tick),
        stale(Event::OkClicked),
        stale(Event::CancelClicked),
        stale(Event::Tick),
    ];
    let mut all: Vec<Vec<Callback>> = vec![Vec::new()];
    for _ in 0..length {
        let mut longer: Vec<Vec<Callback>> = Vec::new();
        for sequence in &all {
            for callback in alphabet {
                let mut next = sequence.clone();
                next.push(callback);
                longer.push(next);
            }
        }
        all = longer;
    }
    all
}

#[test]
fn every_short_session_resolves_at_most_once() {
    for timeout in 0u64..4 {
        for length in 0usize..5 {
            for callbacks in sequences(length) {
                let (controller, trace) = play(timeout, Some("echo hi"), &callbacks);
                let resolved: usize = if controller.is_resolved() { 1 } else { 0 };
                assert_eq!(occurrences(&trace, &Action::Dismiss), resolved);
                let confirmed: usize = match controller.resolution() {
                    Some(Outcome::ManualConfirm) | Some(Outcome::AutoConfirm) => 1,
                    _ => 0,
                };
                let cancelled: usize = match controller.resolution() {
                    Some(Outcome::ManualCancel) => 1,
                    _ => 0,
                };
                let auto: usize = match controller.resolution() {
                    Some(Outcome::AutoConfirm) => 1,
                    _ => 0,
                };
                assert_eq!(occurrences(&trace, &Action::Announce(Notice::Confirmed)), confirmed);
                assert_eq!(occurrences(&trace, &Action::Announce(Notice::Cancelled)), cancelled);
                assert_eq!(occurrences(&trace, &Action::Announce(Notice::AutoConfirmed)), auto);
                assert_eq!(spawns(&trace), confirmed);
            }
        }
    }
}

#[test]
fn a_session_resolves_exactly_when_a_click_or_enough_ticks_arrive() {
    for timeout in 0u64..4 {
        for length in 0usize..5 {
            for callbacks in sequences(length) {
                let (controller, _) = play(timeout, None, &callbacks);
                let clicks = callbacks
                    .iter()
                    .filter(|callback| callback.window_alive && callback.event != Event::Tick)
                    .count();
                let ticks = callbacks
                    .iter()
                    .filter(|callback| callback.window_alive && callback.event == Event::Tick)
                    .count();
                let expected = clicks > 0 || ticks as u64 >= timeout;
                assert_eq!(controller.is_resolved(), expected);
            }
        }
    }
}

#[test]
fn ticks_alone_count_down_and_then_confirm() {
    for timeout in 0u64..6 {
        for passed in 0u64..9 {
            let callbacks: Vec<Callback> = (0..passed).map(|_| live(Event::Tick)).collect();
            let (controller, trace) = play(timeout, None, &callbacks);
            if passed < timeout {
                assert_eq!(controller.resolution(), None);
                assert_eq!(controller.remaining_seconds(), timeout - passed);
                assert_eq!(occurrences(&trace, &Action::Announce(Notice::Confirmed)), 0);
            } else {
                assert_eq!(controller.resolution(), Some(Outcome::AutoConfirm));
                assert_eq!(controller.remaining_seconds(), 0);
                assert_eq!(occurrences(&trace, &Action::Announce(Notice::Confirmed)), 1);
                assert_eq!(occurrences(&trace, &Action::Announce(Notice::AutoConfirmed)), 1);
            }
        }
    }
}

#[test]
fn a_resolved_dialog_ignores_every_callback() {
    for callbacks in sequences(3) {
        let (mut controller, _) = play(1, Some("true"), &[live(Event::CancelClicked)]);
        let remaining = controller.remaining_seconds();
        for callback in callbacks {
            assert!(controller.handle(callback).is_empty());
        }
        assert_eq!(controller.resolution(), Some(Outcome::ManualCancel));
        assert_eq!(controller.remaining_seconds(), remaining);
    }
}

#[test]
fn a_tick_is_asked_for_only_while_the_dialog_runs() {
    let (controller, trace) = play(3, None, &[live(Event::Tick), live(Event::Tick), live(Event::Tick), live(Event::Tick)]);
    assert!(controller.is_resolved());
    assert_eq!(occurrences(&trace, &Action::ScheduleTick), 3);
    assert_eq!(
        trace,
        vec![
            Action::Display(3),
            Action::ScheduleTick,
            Action::Display(2),
            Action::ScheduleTick,
            Action::Display(1),
            Action::ScheduleTick,
            Action::Announce(Notice::AutoConfirmed),
            Action::Announce(Notice::Confirmed),
            Action::Dismiss,
        ]
    );
}

#[test]
fn a_click_before_the_last_tick_wins() {
    let (controller, trace) = play(2, Some("true"), &[live(Event::Tick), live(Event::OkClicked), live(Event::Tick)]);
    assert_eq!(controller.resolution(), Some(Outcome::ManualConfirm));
    assert_eq!(controller.remaining_seconds(), 1);
    assert_eq!(occurrences(&trace, &Action::Announce(Notice::AutoConfirmed)), 0);
    assert_eq!(spawns(&trace), 1);
}
