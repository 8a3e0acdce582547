//! What the controller asks its surroundings to do.

use vstd::prelude::*;
use crate::command::{parsed, CommandLine, CommandLineView};
use crate::notice::{Notice, NoticeView};

verus! {

/// One thing to carry out, in the order given.
#[derive(Clone, Debug, PartialEq, Eq)]
pub enum Action {
    /// Write the line for the operator.
    Announce(Notice),
    /// Start the program as a detached process and do not wait for it.
    Spawn(CommandLine),
    /// Hide the window.
    Dismiss,
    /// Show this many seconds as the time that remains.
    Display(u64),
    /// Arm the timer to tick once, one second from now.
    ScheduleTick,
}

/// An `Action` over texts and natural numbers.
pub ghost enum ActionView {
    Announce(NoticeView),
    Spawn(CommandLineView),
    Dismiss,
    Display(nat),
    ScheduleTick,
}

impl View for Action {
    type V = ActionView;

    open spec fn view(&self) -> ActionView {
        match self {
            Action::Announce(notice) => ActionView::Announce(notice@),
            Action::Spawn(command) => ActionView::Spawn(command@),
            Action::Dismiss => ActionView::Dismiss,
            Action::Display(seconds) => ActionView::Display(*seconds as nat),
            Action::ScheduleTick => ActionView::ScheduleTick,
        }
    }
}

impl DeepView for Action {
    type V = ActionView;

    open spec fn deep_view(&self) -> ActionView {
        self@
    }
}

/// The actions that launch the command with the text `command`: the line
/// that announces it, then the start of its program with its arguments. A
/// text without a word is announced and starts nothing.
pub open spec fn launch(command: Seq<char>) -> Seq<ActionView> {
    let announce = seq![ActionView::Announce(NoticeView::Executing(command))];
    match parsed(command) {
        Some(line) => announce + seq![ActionView::Spawn(line)],
        None => announce,
    }
}

/// Prepares the launch of `command`: it is announced, cut at white space
/// into a program and its arguments, and the program is to be started.
pub fn launch_command(command: &str) -> (actions: Vec<Action>)
    ensures
        actions.deep_view() == launch(command@),
{
    let mut actions: Vec<Action> = Vec::new();
    actions.push(Action::Announce(Notice::Executing(command.to_owned())));
    match CommandLine::parse(command) {
        Some(line) => {
            actions.push(Action::Spawn(line));
        },
        None => {},
    }
    assert(actions.deep_view() =~= launch(command@));
    actions
}

} // verus!
