//! The lines that the dialog writes for its operator.

use vstd::prelude::*;

verus! {

/// One console line.
#[derive(Clone, Debug, PartialEq, Eq)]
pub enum Notice {
    /// The dialog was confirmed, by hand or by the countdown.
    Confirmed,
    /// The dialog was cancelled.
    Cancelled,
    /// The countdown ran out; a `Confirmed` line follows.
    AutoConfirmed,
    /// The command with this text is about to be launched.
    Executing(String),
    /// The launched program was started.
    Started,
    /// The program could not be started, for the reason given.
    SpawnFailed(String),
}

/// A `Notice` with its texts as sequences of characters.
pub ghost enum NoticeView {
    Confirmed,
    Cancelled,
    AutoConfirmed,
    Executing(Seq<char>),
    Started,
    SpawnFailed(Seq<char>),
}

impl View for Notice {
    type V = NoticeView;

    open spec fn view(&self) -> NoticeView {
        match self {
            Notice::Confirmed => NoticeView::Confirmed,
            Notice::Cancelled => NoticeView::Cancelled,
            Notice::AutoConfirmed => NoticeView::AutoConfirmed,
            Notice::Executing(command) => NoticeView::Executing(command@),
            Notice::Started => NoticeView::Started,
            Notice::SpawnFailed(reason) => NoticeView::SpawnFailed(reason@),
        }
    }
}

impl DeepView for Notice {
    type V = NoticeView;

    open spec fn deep_view(&self) -> NoticeView {
        self@
    }
}

impl NoticeView {
    /// The line as it is written.
    pub open spec fn text(self) -> Seq<char> {
        match self {
            NoticeView::Confirmed => "Confirmed"@,
            NoticeView::Cancelled => "Cancelled"@,
            NoticeView::AutoConfirmed => "Auto-confirmed after timeout"@,
            NoticeView::Executing(command) => "Executing command: "@ + command,
            NoticeView::Started => "Command started successfully"@,
            NoticeView::SpawnFailed(reason) => "Failed to run command: "@ + reason,
        }
    }

    /// Whether the line belongs on the error channel.
    pub open spec fn is_error(self) -> bool {
        self is SpawnFailed
    }
}

impl Notice {
    /// The line as it is written, without a line end.
    pub fn text(&self) -> (line: String)
        ensures
            line@ == self@.text(),
    {
        match self {
            Notice::Confirmed => String::from_str("Confirmed"),
            Notice::Cancelled => String::from_str("Cancelled"),
            Notice::AutoConfirmed => String::from_str("Auto-confirmed after timeout"),
            Notice::Executing(command) => String::from_str("Executing command: ").concat(
                command.as_str(),
            ),
            Notice::Started => String::from_str("Command started successfully"),
            Notice::SpawnFailed(reason) => String::from_str("Failed to run command: ").concat(
                reason.as_str(),
            ),
        }
    }

    /// Whether the line belongs on the error channel rather than on standard
    /// output. Only a failed launch does.
    pub fn is_error(&self) -> (error: bool)
        ensures
            error == self@.is_error(),
    {
        match self {
            Notice::SpawnFailed(_) => true,
            _ => false,
        }
    }

    /// The line that reports how a launch went: `started` is `Ok` where the
    /// program runs and holds the reason where it does not. A failure is
    /// reported and nothing else follows from it.
    pub fn of_spawn(started: Result<(), String>) -> (notice: Notice)
        ensures
            started is Ok ==> notice@ == NoticeView::Started,
            started matches Err(reason) ==> notice@ == NoticeView::SpawnFailed(reason@),
    {
        match started {
            Ok(_) => Notice::Started,
            Err(reason) => Notice::SpawnFailed(reason),
        }
    }
}

} // verus!
