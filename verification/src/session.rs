//! A dialog from its start to any point of its life, and what holds of it
//! whatever the user and the timer do.

use vstd::prelude::*;
use crate::action::{launch, ActionView};
use crate::command::parsed;
use crate::controller::{confirmation, Callback, DialogState, Event, Outcome, Reaction};
use crate::notice::NoticeView;

verus! {

/// How many of `items` are `wanted`.
pub open spec fn count<T>(items: Seq<T>, wanted: spec_fn(T) -> bool) -> nat
    decreases items.len(),
{
    if items.len() == 0 {
        0
    } else {
        count(items.drop_last(), wanted) + if wanted(items.last()) {
            1nat
        } else {
            0nat
        }
    }
}

/// How often `actions` asks to dismiss the window.
pub open spec fn dismissals(actions: Seq<ActionView>) -> nat {
    count(actions, |action: ActionView| action is Dismiss)
}

/// How often `actions` asks to start a program.
pub open spec fn spawns(actions: Seq<ActionView>) -> nat {
    count(actions, |action: ActionView| action is Spawn)
}

/// How often `actions` asks to write the line `notice`.
pub open spec fn announcements(actions: Seq<ActionView>, notice: NoticeView) -> nat {
    count(actions, |action: ActionView| action == ActionView::Announce(notice))
}

/// Whether `callback` is a click that reaches the controller.
pub open spec fn is_click(callback: Callback) -> bool {
    callback.window_alive && callback.event != Event::Tick
}

/// Whether `callback` is a tick that reaches the controller.
pub open spec fn is_tick(callback: Callback) -> bool {
    callback.window_alive && callback.event == Event::Tick
}

/// How many clicks reach the controller.
pub open spec fn clicks(callbacks: Seq<Callback>) -> nat {
    count(callbacks, |callback: Callback| is_click(callback))
}

/// How many ticks reach the controller.
pub open spec fn ticks(callbacks: Seq<Callback>) -> nat {
    count(callbacks, |callback: Callback| is_tick(callback))
}

/// Where `state` is after `callbacks`, one after the other, and all that was
/// asked for on the way.
pub open spec fn run(state: DialogState, callbacks: Seq<Callback>) -> Reaction
    decreases callbacks.len(),
{
    if callbacks.len() == 0 {
        state.idle()
    } else {
        let (before, earlier) = run(state, callbacks.drop_last());
        let (after, later) = before.step(callbacks.last());
        (after, earlier + later)
    }
}

/// A dialog that is started with `timeout` seconds and then receives
/// `callbacks`: its state at the end, and every action from the start on.
pub open spec fn session(
    timeout: nat,
    command: Option<Seq<char>>,
    callbacks: Seq<Callback>,
) -> Reaction {
    let (started, first) = DialogState::initial(timeout, command).start();
    let (ended, rest) = run(started, callbacks);
    (ended, first + rest)
}

/// Whether the launch of `command` starts a program.
pub open spec fn starts_program(command: Option<Seq<char>>) -> bool {
    command matches Some(text) && parsed(text) is Some
}

/// One or zero.
pub open spec fn one_if(condition: bool) -> nat {
    if condition {
        1
    } else {
        0
    }
}

/// What `actions` must hold for a dialog in `state`: the traces of exactly
/// one resolution where it is resolved, and of none where it is not.
pub open spec fn accounted(state: DialogState, actions: Seq<ActionView>) -> bool {
    let confirmed = state.resolution == Some(Outcome::ManualConfirm) || state.resolution == Some(
        Outcome::AutoConfirm,
    );
    &&& dismissals(actions) == one_if(state.is_resolved())
    &&& announcements(actions, NoticeView::Confirmed) == one_if(confirmed)
    &&& announcements(actions, NoticeView::Cancelled) == one_if(
        state.resolution == Some(Outcome::ManualCancel),
    )
    &&& announcements(actions, NoticeView::AutoConfirmed) == one_if(
        state.resolution == Some(Outcome::AutoConfirm),
    )
    &&& spawns(actions) == one_if(confirmed && starts_program(state.command))
}

/// How far a dialog started with `timeout` seconds has come after
/// `callbacks`, if it is in `state`.
pub open spec fn on_course(timeout: nat, callbacks: Seq<Callback>, state: DialogState) -> bool {
    match state.resolution {
        None => clicks(callbacks) == 0 && ticks(callbacks) < timeout && state.remaining == timeout
            - ticks(callbacks),
        Some(Outcome::AutoConfirm) => ticks(callbacks) >= timeout && state.remaining == 0,
        Some(_) => clicks(callbacks) > 0,
    }
}

proof fn lemma_count_push<T>(items: Seq<T>, item: T, wanted: spec_fn(T) -> bool)
    ensures
        count(items.push(item), wanted) == count(items, wanted) + one_if(wanted(item)),
{
    assert(items.push(item).drop_last() =~= items);
}

proof fn lemma_count_add<T>(front: Seq<T>, back: Seq<T>, wanted: spec_fn(T) -> bool)
    ensures
        count(front + back, wanted) == count(front, wanted) + count(back, wanted),
    decreases back.len(),
{
    if back.len() == 0 {
        assert(front + back =~= front);
    } else {
        assert((front + back).drop_last() =~= front + back.drop_last());
        lemma_count_add(front, back.drop_last(), wanted);
    }
}

proof fn lemma_count_one<T>(item: T, wanted: spec_fn(T) -> bool)
    ensures
        count(seq![item], wanted) == one_if(wanted(item)),
{
    lemma_count_push(Seq::empty(), item, wanted);
}

proof fn lemma_count_two<T>(first: T, second: T, wanted: spec_fn(T) -> bool)
    ensures
        count(seq![first, second], wanted) == one_if(wanted(first)) + one_if(wanted(second)),
{
    lemma_count_one(first, wanted);
    lemma_count_push(seq![first], second, wanted);
    assert(seq![first, second] =~= seq![first].push(second));
}

proof fn lemma_count_launch(text: Seq<char>, wanted: spec_fn(ActionView) -> bool)
    ensures
        count(launch(text), wanted) == one_if(
            wanted(ActionView::Announce(NoticeView::Executing(text))),
        ) + match parsed(text) {
            Some(line) => one_if(wanted(ActionView::Spawn(line))),
            None => 0,
        },
{
    let announce = ActionView::Announce(NoticeView::Executing(text));
    lemma_count_one(announce, wanted);
    match parsed(text) {
        Some(line) => {
            lemma_count_one(ActionView::Spawn(line), wanted);
            lemma_count_add(seq![announce], seq![ActionView::Spawn(line)], wanted);
        },
        None => {},
    }
}

proof fn lemma_count_confirmation(command: Option<Seq<char>>, wanted: spec_fn(ActionView) -> bool)
    ensures
        count(confirmation(command), wanted) == one_if(
            wanted(ActionView::Announce(NoticeView::Confirmed)),
        ) + one_if(wanted(ActionView::Dismiss)) + match command {
            Some(text) => count(launch(text), wanted),
            None => 0,
        },
{
    let head = seq![ActionView::Announce(NoticeView::Confirmed)];
    let launched = match command {
        Some(text) => launch(text),
        None => Seq::empty(),
    };
    lemma_count_one(ActionView::Announce(NoticeView::Confirmed), wanted);
    lemma_count_one(ActionView::Dismiss, wanted);
    lemma_count_add(head, launched, wanted);
    lemma_count_add(head + launched, seq![ActionView::Dismiss], wanted);
}

/// What a confirmation adds to the actions `before` it.
proof fn lemma_after_confirmation(before: Seq<ActionView>, command: Option<Seq<char>>)
    ensures
        dismissals(before + confirmation(command)) == dismissals(before) + 1,
        spawns(before + confirmation(command)) == spawns(before) + one_if(
            starts_program(command),
        ),
        announcements(before + confirmation(command), NoticeView::Confirmed) == announcements(
            before,
            NoticeView::Confirmed,
        ) + 1,
        announcements(before + confirmation(command), NoticeView::Cancelled) == announcements(
            before,
            NoticeView::Cancelled,
        ),
        announcements(before + confirmation(command), NoticeView::AutoConfirmed)
            == announcements(before, NoticeView::AutoConfirmed),
{
    let added = confirmation(command);
    let dismiss = |action: ActionView| action is Dismiss;
    let spawn = |action: ActionView| action is Spawn;
    let confirmed = |action: ActionView| action == ActionView::Announce(NoticeView::Confirmed);
    let cancelled = |action: ActionView| action == ActionView::Announce(NoticeView::Cancelled);
    let auto = |action: ActionView| action == ActionView::Announce(NoticeView::AutoConfirmed);
    lemma_count_add(before, added, dismiss);
    lemma_count_add(before, added, spawn);
    lemma_count_add(before, added, confirmed);
    lemma_count_add(before, added, cancelled);
    lemma_count_add(before, added, auto);
    lemma_count_confirmation(command, dismiss);
    lemma_count_confirmation(command, spawn);
    lemma_count_confirmation(command, confirmed);
    lemma_count_confirmation(command, cancelled);
    lemma_count_confirmation(command, auto);
    match command {
        Some(text) => {
            lemma_count_launch(text, dismiss);
            lemma_count_launch(text, spawn);
            lemma_count_launch(text, confirmed);
            lemma_count_launch(text, cancelled);
            lemma_count_launch(text, auto);
        },
        None => {},
    }
}

/// What two actions add to the actions `before` them.
proof fn lemma_after_pair(
    before: Seq<ActionView>,
    first: ActionView,
    second: ActionView,
    notice: NoticeView,
)
    ensures
        dismissals(before + seq![first, second]) == dismissals(before) + one_if(first is Dismiss)
            + one_if(second is Dismiss),
        spawns(before + seq![first, second]) == spawns(before) + one_if(first is Spawn) + one_if(
            second is Spawn,
        ),
        announcements(before + seq![first, second], notice) == announcements(before, notice)
            + one_if(first == ActionView::Announce(notice)) + one_if(
            second == ActionView::Announce(notice),
        ),
{
    let added = seq![first, second];
    let dismiss = |action: ActionView| action is Dismiss;
    let spawn = |action: ActionView| action is Spawn;
    let line = |action: ActionView| action == ActionView::Announce(notice);
    lemma_count_add(before, added, dismiss);
    lemma_count_add(before, added, spawn);
    lemma_count_add(before, added, line);
    lemma_count_two(first, second, dismiss);
    lemma_count_two(first, second, spawn);
    lemma_count_two(first, second, line);
}

/// What one line adds to the actions `before` it.
proof fn lemma_after_line(before: Seq<ActionView>, written: NoticeView, notice: NoticeView)
    ensures
        dismissals(before + seq![ActionView::Announce(written)]) == dismissals(before),
        spawns(before + seq![ActionView::Announce(written)]) == spawns(before),
        announcements(before + seq![ActionView::Announce(written)], notice) == announcements(
            before,
            notice,
        ) + one_if(written == notice),
{
    let line = ActionView::Announce(written);
    let added = seq![line];
    let dismiss = |action: ActionView| action is Dismiss;
    let spawn = |action: ActionView| action is Spawn;
    let wanted = |action: ActionView| action == ActionView::Announce(notice);
    lemma_count_add(before, added, dismiss);
    lemma_count_add(before, added, spawn);
    lemma_count_add(before, added, wanted);
    lemma_count_one(line, dismiss);
    lemma_count_one(line, spawn);
    lemma_count_one(line, wanted);
}

/// A running dialog and its actions stay accounted for over a look at the
/// time that remains.
proof fn lemma_countdown_accounted(state: DialogState, actions: Seq<ActionView>)
    requires
        !state.is_resolved(),
        accounted(state, actions),
    ensures
        accounted(state.countdown().0, actions + state.countdown().1),
{
    if state.remaining > 0 {
        let show = ActionView::Display(state.remaining);
        lemma_after_pair(actions, show, ActionView::ScheduleTick, NoticeView::Confirmed);
        lemma_after_pair(actions, show, ActionView::ScheduleTick, NoticeView::Cancelled);
        lemma_after_pair(actions, show, ActionView::ScheduleTick, NoticeView::AutoConfirmed);
    } else {
        let announced = actions + seq![ActionView::Announce(NoticeView::AutoConfirmed)];
        lemma_after_line(actions, NoticeView::AutoConfirmed, NoticeView::Confirmed);
        lemma_after_line(actions, NoticeView::AutoConfirmed, NoticeView::Cancelled);
        lemma_after_line(actions, NoticeView::AutoConfirmed, NoticeView::AutoConfirmed);
        lemma_after_confirmation(announced, state.command);
        assert(actions + state.countdown().1 =~= announced + confirmation(state.command));
    }
}

/// A dialog and its actions stay accounted for over a callback.
proof fn lemma_step_accounted(state: DialogState, actions: Seq<ActionView>, callback: Callback)
    requires
        accounted(state, actions),
    ensures
        accounted(state.step(callback).0, actions + state.step(callback).1),
{
    if !callback.window_alive || state.is_resolved() {
        assert(actions + state.step(callback).1 =~= actions);
    } else {
        match callback.event {
            Event::OkClicked => {
                lemma_after_confirmation(actions, state.command);
            },
            Event::CancelClicked => {
                let line = ActionView::Announce(NoticeView::Cancelled);
                lemma_after_pair(actions, line, ActionView::Dismiss, NoticeView::Confirmed);
                lemma_after_pair(actions, line, ActionView::Dismiss, NoticeView::Cancelled);
                lemma_after_pair(actions, line, ActionView::Dismiss, NoticeView::AutoConfirmed);
            },
            Event::Tick => {
                if state.remaining > 0 {
                    lemma_countdown_accounted(
                        DialogState { remaining: (state.remaining - 1) as nat, ..state },
                        actions,
                    );
                } else {
                    lemma_countdown_accounted(state, actions);
                }
            },
        }
    }
}

/// A resolved dialog is at its end: whatever arrives, it stays as it is and
/// asks for nothing.
pub proof fn law_resolved_is_final(state: DialogState, callbacks: Seq<Callback>)
    requires
        state.is_resolved(),
    ensures
        run(state, callbacks) == state.idle(),
    decreases callbacks.len(),
{
    if callbacks.len() > 0 {
        law_resolved_is_final(state, callbacks.drop_last());
        assert(Seq::<ActionView>::empty() + Seq::<ActionView>::empty() =~= Seq::<
            ActionView,
        >::empty());
    }
}

/// Every dialog comes to at most one end, and its actions show which: over
/// its whole life the window is dismissed once if the dialog is resolved and
/// never if it is not; the line of a confirmation, of a cancellation and of
/// the countdown are each written once if that is how it was resolved and
/// never otherwise; a program is started once if the dialog was confirmed
/// and its command names one, and never otherwise.
pub proof fn law_one_resolution(
    timeout: nat,
    command: Option<Seq<char>>,
    callbacks: Seq<Callback>,
)
    ensures
        accounted(session(timeout, command, callbacks).0, session(timeout, command, callbacks).1),
        session(timeout, command, callbacks).0.command == command,
    decreases callbacks.len(),
{
    let origin = DialogState::initial(timeout, command);
    let (started, first) = origin.start();
    if callbacks.len() == 0 {
        assert(accounted(origin, Seq::empty()));
        lemma_countdown_accounted(origin, Seq::empty());
        assert(Seq::<ActionView>::empty() + first =~= first);
        assert(first + Seq::<ActionView>::empty() =~= first);
    } else {
        law_one_resolution(timeout, command, callbacks.drop_last());
        let (before, earlier) = run(started, callbacks.drop_last());
        let (after, later) = before.step(callbacks.last());
        lemma_step_accounted(before, first + earlier, callbacks.last());
        assert(first + (earlier + later) =~= (first + earlier) + later);
    }
}

/// How far the countdown has come: a dialog runs as long as no click has
/// reached it and fewer ticks than its timeout, and then the time that
/// remains is the timeout less the ticks; a dialog with a click before the
/// countdown ran out was resolved by hand; every other dialog was confirmed
/// by the countdown and has no time left.
pub proof fn law_session_course(
    timeout: nat,
    command: Option<Seq<char>>,
    callbacks: Seq<Callback>,
)
    ensures
        on_course(timeout, callbacks, session(timeout, command, callbacks).0),
    decreases callbacks.len(),
{
    if callbacks.len() > 0 {
        law_session_course(timeout, command, callbacks.drop_last());
    }
}

/// Every dialog comes to an end, and to one only: it is resolved as soon as
/// a click has reached it or as many ticks as its timeout has seconds, and
/// not before.
pub proof fn law_session_resolves(
    timeout: nat,
    command: Option<Seq<char>>,
    callbacks: Seq<Callback>,
)
    ensures
        session(timeout, command, callbacks).0.is_resolved() <==> (clicks(callbacks) > 0 || ticks(
            callbacks,
        ) >= timeout),
{
    law_session_course(timeout, command, callbacks);
}

/// Ticks alone, `passed` of them.
pub open spec fn only_ticks(passed: nat) -> Seq<Callback> {
    Seq::new(passed, |i: int| Callback { event: Event::Tick, window_alive: true })
}

proof fn lemma_only_ticks(passed: nat)
    ensures
        ticks(only_ticks(passed)) == passed,
        clicks(only_ticks(passed)) == 0,
    decreases passed,
{
    if passed > 0 {
        lemma_only_ticks((passed - 1) as nat);
        assert(only_ticks(passed).drop_last() =~= only_ticks((passed - 1) as nat));
    }
}

/// Left alone, a dialog counts down by one second a tick and confirms when
/// it reaches zero, once: after fewer ticks than its timeout it is running
/// with the timeout less the ticks to go, and from then on it is confirmed
/// by the countdown, with the confirmation written once.
pub proof fn law_countdown(timeout: nat, command: Option<Seq<char>>, passed: nat)
    ensures
        passed < timeout ==> session(timeout, command, only_ticks(passed)).0 == (DialogState {
            remaining: (timeout - passed) as nat,
            command,
            resolution: None,
        }),
        passed >= timeout ==> session(timeout, command, only_ticks(passed)).0 == (DialogState {
            remaining: 0,
            command,
            resolution: Some(Outcome::AutoConfirm),
        }),
        announcements(session(timeout, command, only_ticks(passed)).1, NoticeView::Confirmed)
            == one_if(passed >= timeout),
        announcements(session(timeout, command, only_ticks(passed)).1, NoticeView::AutoConfirmed)
            == one_if(passed >= timeout),
{
    lemma_only_ticks(passed);
    law_session_course(timeout, command, only_ticks(passed));
    law_one_resolution(timeout, command, only_ticks(passed));
}

} // verus!
