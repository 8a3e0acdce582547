//! The dialog controller: a countdown that confirms by itself when it runs
//! out, unless the user confirms or cancels first.
//!
//! The controller is a state machine. While it is running it holds the
//! seconds that remain; once it is resolved, by a click or by the countdown,
//! it stays as it is and asks for nothing more, whatever arrives. The
//! confirmation is the same whether the user or the countdown brought it
//! about, and it alone launches the command.
//!
//! A countdown that starts at zero confirms when it is started, before the
//! window is shown; it does not wait for a tick.

use vstd::prelude::*;
use crate::action::{launch, launch_command, Action, ActionView};
use crate::notice::{Notice, NoticeView};

verus! {

/// How a dialog came to its end.
#[derive(Clone, Copy, Debug, PartialEq, Eq, Structural)]
pub enum Outcome {
    /// The user pressed OK.
    ManualConfirm,
    /// The user pressed Cancel.
    ManualCancel,
    /// The countdown ran out.
    AutoConfirm,
}

/// What the window or the timer reports.
#[derive(Clone, Copy, Debug, PartialEq, Eq, Structural)]
pub enum Event {
    OkClicked,
    CancelClicked,
    Tick,
}

/// An event as it reaches the controller, together with the answer of the
/// lookup of the window made at that moment.
#[derive(Clone, Copy, Debug, PartialEq, Eq, Structural)]
pub struct Callback {
    pub event: Event,
    pub window_alive: bool,
}

/// The state of a dialog.
pub ghost struct DialogState {
    /// Seconds until the dialog confirms by itself.
    pub remaining: nat,
    /// Text of the command to launch on confirmation.
    pub command: Option<Seq<char>>,
    /// `None` while the dialog is running.
    pub resolution: Option<Outcome>,
}

/// A state together with the actions that led to it.
pub type Reaction = (DialogState, Seq<ActionView>);

/// The actions of a confirmation: its line, the launch of the command if
/// there is one, and the dismissal of the window.
pub open spec fn confirmation(command: Option<Seq<char>>) -> Seq<ActionView> {
    let launched = match command {
        Some(text) => launch(text),
        None => Seq::empty(),
    };
    seq![ActionView::Announce(NoticeView::Confirmed)] + launched + seq![ActionView::Dismiss]
}

/// The actions of a cancellation.
pub open spec fn cancellation() -> Seq<ActionView> {
    seq![ActionView::Announce(NoticeView::Cancelled), ActionView::Dismiss]
}

impl DialogState {
    /// A running dialog with `timeout` seconds to go.
    pub open spec fn initial(timeout: nat, command: Option<Seq<char>>) -> DialogState {
        DialogState { remaining: timeout, command, resolution: None }
    }

    /// Whether the dialog has come to its end.
    pub open spec fn is_resolved(self) -> bool {
        self.resolution is Some
    }

    /// The state with nothing to do.
    pub open spec fn idle(self) -> Reaction {
        (self, Seq::empty())
    }

    /// Resolves the dialog by a confirmation.
    pub open spec fn confirm(self, outcome: Outcome) -> Reaction {
        (DialogState { resolution: Some(outcome), ..self }, confirmation(self.command))
    }

    /// Looks at the time that remains: shows it and waits a second more, or,
    /// at zero, confirms in the user's place.
    pub open spec fn countdown(self) -> Reaction {
        if self.remaining > 0 {
            (self, seq![ActionView::Display(self.remaining), ActionView::ScheduleTick])
        } else {
            let (resolved, actions) = self.confirm(Outcome::AutoConfirm);
            (resolved, seq![ActionView::Announce(NoticeView::AutoConfirmed)] + actions)
        }
    }

    /// The start of the countdown.
    pub open spec fn start(self) -> Reaction {
        if self.is_resolved() {
            self.idle()
        } else {
            self.countdown()
        }
    }

    /// A click on OK.
    pub open spec fn ok(self) -> Reaction {
        if self.is_resolved() {
            self.idle()
        } else {
            self.confirm(Outcome::ManualConfirm)
        }
    }

    /// A click on Cancel.
    pub open spec fn cancel(self) -> Reaction {
        if self.is_resolved() {
            self.idle()
        } else {
            (DialogState { resolution: Some(Outcome::ManualCancel), ..self }, cancellation())
        }
    }

    /// A tick of the timer: one second less, and a look at what remains.
    pub open spec fn tick(self) -> Reaction {
        if self.is_resolved() {
            self.idle()
        } else if self.remaining > 0 {
            DialogState { remaining: (self.remaining - 1) as nat, ..self }.countdown()
        } else {
            self.countdown()
        }
    }

    /// The reaction to one callback. A callback that finds the window gone
    /// is passed over.
    pub open spec fn step(self, callback: Callback) -> Reaction {
        if !callback.window_alive {
            self.idle()
        } else {
            match callback.event {
                Event::OkClicked => self.ok(),
                Event::CancelClicked => self.cancel(),
                Event::Tick => self.tick(),
            }
        }
    }
}

/// The controller of one dialog.
pub struct DialogController {
    remaining_seconds: u64,
    command: Option<String>,
    resolution: Option<Outcome>,
}

impl View for DialogController {
    type V = DialogState;

    closed spec fn view(&self) -> DialogState {
        DialogState {
            remaining: self.remaining_seconds as nat,
            command: self.command.deep_view(),
            resolution: self.resolution,
        }
    }
}

impl DialogController {
    /// A running dialog that confirms by itself after `timeout` seconds and
    /// launches `command`, if there is one, when it is confirmed.
    pub fn new(timeout: u64, command: Option<String>) -> (controller: DialogController)
        ensures
            controller@ == DialogState::initial(timeout as nat, command.deep_view()),
    {
        DialogController { remaining_seconds: timeout, command, resolution: None }
    }

    /// Seconds until the dialog confirms by itself.
    pub fn remaining_seconds(&self) -> (seconds: u64)
        ensures
            seconds == self@.remaining,
    {
        self.remaining_seconds
    }

    /// The command to launch on confirmation.
    pub fn command(&self) -> (command: Option<&String>)
        ensures
            command.deep_view() == self@.command,
    {
        self.command.as_ref()
    }

    /// How the dialog was resolved; `None` while it is running.
    pub fn resolution(&self) -> (outcome: Option<Outcome>)
        ensures
            outcome == self@.resolution,
    {
        self.resolution
    }

    /// Whether the dialog has come to its end.
    pub fn is_resolved(&self) -> (resolved: bool)
        ensures
            resolved == self@.is_resolved(),
    {
        self.resolution.is_some()
    }

    /// Resolves the dialog by a confirmation and lists what confirming takes.
    fn confirm(&mut self, outcome: Outcome) -> (actions: Vec<Action>)
        ensures
            (final(self)@, actions.deep_view()) == old(self)@.confirm(outcome),
    {
        let mut actions: Vec<Action> = Vec::new();
        actions.push(Action::Announce(Notice::Confirmed));
        match &self.command {
            Some(command) => {
                let mut launched = launch_command(command.as_str());
                let ghost head = actions.deep_view();
                let ghost tail = launched.deep_view();
                actions.append(&mut launched);
                assert(actions.deep_view() =~= head + tail);
            },
            None => {},
        }
        let ghost body = actions.deep_view();
        actions.push(Action::Dismiss);
        assert(actions.deep_view() =~= body + seq![ActionView::Dismiss]);
        self.resolution = Some(outcome);
        assert(actions.deep_view() =~= confirmation(old(self)@.command));
        actions
    }

    /// Shows the time that remains and asks for the next tick, or confirms
    /// where no time remains.
    fn countdown(&mut self) -> (actions: Vec<Action>)
        ensures
            (final(self)@, actions.deep_view()) == old(self)@.countdown(),
    {
        let mut actions: Vec<Action> = Vec::new();
        if self.remaining_seconds > 0 {
            actions.push(Action::Display(self.remaining_seconds));
            actions.push(Action::ScheduleTick);
            assert(actions.deep_view() =~= old(self)@.countdown().1);
        } else {
            actions.push(Action::Announce(Notice::AutoConfirmed));
            let mut confirmed = self.confirm(Outcome::AutoConfirm);
            let ghost head = actions.deep_view();
            let ghost tail = confirmed.deep_view();
            actions.append(&mut confirmed);
            assert(actions.deep_view() =~= head + tail);
            assert(head =~= seq![ActionView::Announce(NoticeView::AutoConfirmed)]);
        }
        actions
    }

    /// Starts the countdown, before the window is shown. With time left the
    /// time is displayed and the first tick is asked for; with none the dialog
    /// confirms here and now, as if the user had pressed OK. Nothing happens
    /// where the window is gone or the dialog is resolved.
    pub fn start_countdown(&mut self, window_alive: bool) -> (actions: Vec<Action>)
        ensures
            window_alive ==> (final(self)@, actions.deep_view()) == old(self)@.start(),
            !window_alive ==> (final(self)@, actions.deep_view()) == old(self)@.idle(),
    {
        if !window_alive || self.resolution.is_some() {
            let actions: Vec<Action> = Vec::new();
            assert(actions.deep_view() =~= Seq::<ActionView>::empty());
            actions
        } else {
            self.countdown()
        }
    }

    /// The user pressed OK: the dialog is confirmed, its command launched and
    /// its window dismissed. A resolved dialog, or one whose window is gone,
    /// stays as it is and asks for nothing.
    pub fn on_ok(&mut self, window_alive: bool) -> (actions: Vec<Action>)
        ensures
            (final(self)@, actions.deep_view()) == old(self)@.step(
                Callback { event: Event::OkClicked, window_alive },
            ),
            old(self)@.is_resolved() ==> final(self)@ == old(self)@ && actions@.len() == 0,
    {
        if !window_alive || self.resolution.is_some() {
            let actions: Vec<Action> = Vec::new();
            assert(actions.deep_view() =~= Seq::<ActionView>::empty());
            actions
        } else {
            self.confirm(Outcome::ManualConfirm)
        }
    }

    /// The user pressed Cancel: the dialog is cancelled and its window
    /// dismissed; nothing is launched. A resolved dialog, or one whose window
    /// is gone, stays as it is and asks for nothing.
    pub fn on_cancel(&mut self, window_alive: bool) -> (actions: Vec<Action>)
        ensures
            (final(self)@, actions.deep_view()) == old(self)@.step(
                Callback { event: Event::CancelClicked, window_alive },
            ),
            old(self)@.is_resolved() ==> final(self)@ == old(self)@ && actions@.len() == 0,
    {
        let mut actions: Vec<Action> = Vec::new();
        if !window_alive || self.resolution.is_some() {
            assert(actions.deep_view() =~= Seq::<ActionView>::empty());
        } else {
            actions.push(Action::Announce(Notice::Cancelled));
            actions.push(Action::Dismiss);
            self.resolution = Some(Outcome::ManualCancel);
            assert(actions.deep_view() =~= cancellation());
        }
        actions
    }

    /// The timer ticked: a second has passed. The time that remains goes down
    /// by one; if some is left it is displayed and the next tick asked for,
    /// and if none is left the dialog confirms by the same path as a click on
    /// OK. A resolved dialog, or one whose window is gone, stays as it is and
    /// asks for nothing, not even for another tick.
    pub fn on_tick(&mut self, window_alive: bool) -> (actions: Vec<Action>)
        ensures
            (final(self)@, actions.deep_view()) == old(self)@.step(
                Callback { event: Event::Tick, window_alive },
            ),
            old(self)@.is_resolved() ==> final(self)@ == old(self)@ && actions@.len() == 0,
    {
        if !window_alive || self.resolution.is_some() {
            let actions: Vec<Action> = Vec::new();
            assert(actions.deep_view() =~= Seq::<ActionView>::empty());
            actions
        } else {
            if self.remaining_seconds > 0 {
                self.remaining_seconds = self.remaining_seconds - 1;
            }
            self.countdown()
        }
    }

    /// Hands `callback` to the handler of its event.
    pub fn handle(&mut self, callback: Callback) -> (actions: Vec<Action>)
        ensures
            (final(self)@, actions.deep_view()) == old(self)@.step(callback),
    {
        match callback.event {
            Event::OkClicked => self.on_ok(callback.window_alive),
            Event::CancelClicked => self.on_cancel(callback.window_alive),
            Event::Tick => self.on_tick(callback.window_alive),
        }
    }
}

} // verus!
