//! The progress of a to-do item and the text that stands for it.

use vstd::prelude::*;

verus! {

/// How far a to-do item has come. Any value may follow any other.
#[derive(Clone, Copy, Debug, PartialEq, Eq, Structural)]
pub enum Status {
    Todo,
    InProgress,
    Completed,
}

impl Status {
    /// The text that stands for this status in documents and messages.
    pub open spec fn text(self) -> Seq<char> {
        match self {
            Status::Todo => "todo"@,
            Status::InProgress => "in_progress"@,
            Status::Completed => "completed"@,
        }
    }

    /// The status that `text` stands for, if it stands for one.
    pub open spec fn from_text(text: Seq<char>) -> Option<Status> {
        if text == "todo"@ {
            Some(Status::Todo)
        } else if text == "in_progress"@ {
            Some(Status::InProgress)
        } else if text == "completed"@ {
            Some(Status::Completed)
        } else {
            None
        }
    }

    /// The text that stands for this status.
    pub fn as_str(self) -> (text: &'static str)
        ensures
            text@ == self.text(),
    {
        match self {
            Status::Todo => "todo",
            Status::InProgress => "in_progress",
            Status::Completed => "completed",
        }
    }

    /// Reads a status from its text; `None` for any other text.
    pub fn parse(text: &str) -> (status: Option<Status>)
        ensures
            status == Status::from_text(text@),
    {
        let given: String = text.to_owned();
        if given == Status::Todo.as_str().to_owned() {
            Some(Status::Todo)
        } else if given == Status::InProgress.as_str().to_owned() {
            Some(Status::InProgress)
        } else if given == Status::Completed.as_str().to_owned() {
            Some(Status::Completed)
        } else {
            None
        }
    }
}

impl Default for Status {
    /// A new item has not been started.
    fn default() -> (status: Status)
        ensures
            status == Status::Todo,
    {
        Status::Todo
    }
}

/// The three texts differ from one another, so reading back the text of a
/// status gives that status.
pub proof fn lemma_status_text_round_trip(status: Status)
    ensures
        Status::from_text(status.text()) == Some(status),
{
    reveal_strlit("todo");
    reveal_strlit("in_progress");
    reveal_strlit("completed");
    assert("todo"@.len() == 4);
    assert("in_progress"@.len() == 11);
    assert("completed"@.len() == 9);
}

} // verus!
