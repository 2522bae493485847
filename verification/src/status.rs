use vstd::prelude::*;

verus! {

/// Progress of a todo. The three values form a cycle
/// `ToDo -> InProgress -> Done -> ToDo`.
#[derive(Debug, Clone, Copy, PartialEq, Eq, Structural, Hash)]
pub enum Status {
    ToDo,
    InProgress,
    Done,
}

/// The status that follows `s` in the cycle.
pub open spec fn spec_next(s: Status) -> Status {
    match s {
        Status::ToDo => Status::InProgress,
        Status::InProgress => Status::Done,
        Status::Done => Status::ToDo,
    }
}

/// The status that precedes `s` in the cycle.
pub open spec fn spec_previous(s: Status) -> Status {
    match s {
        Status::ToDo => Status::Done,
        Status::InProgress => Status::ToDo,
        Status::Done => Status::InProgress,
    }
}

/// The name under which a status is stored.
pub open spec fn stored_name(s: Status) -> Seq<char> {
    match s {
        Status::ToDo => "todo"@,
        Status::InProgress => "in_progress"@,
        Status::Done => "done"@,
    }
}

/// The text shown to the user for a status.
pub open spec fn shown_label(s: Status) -> Seq<char> {
    match s {
        Status::ToDo => "To Do"@,
        Status::InProgress => "In Progress"@,
        Status::Done => "Done"@,
    }
}

/// The icon shown in front of a todo: a tick once it is done, an empty box before.
pub open spec fn shown_icon(s: Status) -> Seq<char> {
    match s {
        Status::Done => "\u{2713}"@,
        _ => "\u{25a1}"@,
    }
}

/// The parse of a stored name: the status whose name it is, if any.
pub open spec fn parse_stored(name: Seq<char>) -> Option<Status> {
    if name == "todo"@ {
        Some(Status::ToDo)
    } else if name == "in_progress"@ {
        Some(Status::InProgress)
    } else if name == "done"@ {
        Some(Status::Done)
    } else {
        None
    }
}

/// Equality of two string slices, as `==` on `str` computes it.
#[verifier::external_body]
pub(crate) fn str_eq(a: &str, b: &str) -> (r: bool)
    ensures
        r == (a@ == b@),
{
    a == b
}

/// Icon shown for a todo that is done.
pub const DONE_ICON: &'static str = "\u{2713}";

/// Icon shown for a todo that is not done yet.
pub const TODO_IN_PROGRESS_ICON: &'static str = "\u{25a1}";

impl Status {
    /// The status that follows in the cycle.
    pub fn next(&self) -> (r: Self)
        ensures
            r == spec_next(*self),
    {
        match self {
            Status::ToDo => Status::InProgress,
            Status::InProgress => Status::Done,
            Status::Done => Status::ToDo,
        }
    }

    /// The status that precedes in the cycle.
    pub fn previous(&self) -> (r: Self)
        ensures
            r == spec_previous(*self),
    {
        match self {
            Status::ToDo => Status::Done,
            Status::InProgress => Status::ToDo,
            Status::Done => Status::InProgress,
        }
    }

    /// The name under which the status is stored.
    pub fn as_str(&self) -> (r: &'static str)
        ensures
            r@ == stored_name(*self),
    {
        proof {
            reveal_strlit("todo");
            reveal_strlit("in_progress");
            reveal_strlit("done");
        }
        match self {
            Status::ToDo => "todo",
            Status::InProgress => "in_progress",
            Status::Done => "done",
        }
    }

    /// Parses a stored name; any other text is refused with the message
    /// `Invalid status: <text>`.
    pub fn from_str(status: &str) -> (r: Result<Self, String>)
        ensures
            match r {
                Ok(s) => parse_stored(status@) == Some(s),
                Err(msg) => parse_stored(status@) is None && msg@ == "Invalid status: "@
                    + status@,
            },
    {
        proof {
            reveal_strlit("todo");
            reveal_strlit("in_progress");
            reveal_strlit("done");
        }
        if str_eq(status, "todo") {
            Ok(Status::ToDo)
        } else if str_eq(status, "in_progress") {
            Ok(Status::InProgress)
        } else if str_eq(status, "done") {
            Ok(Status::Done)
        } else {
            let mut msg = String::from_str("Invalid status: ");
            msg.append(status);
            Err(msg)
        }
    }

    /// The text shown for the status.
    pub fn label(&self) -> (r: &'static str)
        ensures
            r@ == shown_label(*self),
    {
        proof {
            reveal_strlit("To Do");
            reveal_strlit("In Progress");
            reveal_strlit("Done");
        }
        match self {
            Status::ToDo => "To Do",
            Status::InProgress => "In Progress",
            Status::Done => "Done",
        }
    }
}

/// The icon shown in front of a todo with the given status.
pub fn status_icon(status: Status) -> (r: &'static str)
    ensures
        r@ == shown_icon(status),
{
    proof {
        reveal_strlit("\u{2713}");
        reveal_strlit("\u{25a1}");
    }
    match status {
        Status::ToDo => TODO_IN_PROGRESS_ICON,
        Status::InProgress => TODO_IN_PROGRESS_ICON,
        Status::Done => DONE_ICON,
    }
}

/// Going forward and then back in the status cycle returns to the start,
/// and so does going back and then forward.
pub proof fn lemma_next_previous_inverse(s: Status)
    ensures
        spec_previous(spec_next(s)) == s,
        spec_next(spec_previous(s)) == s,
{
}

/// Three steps forward in the status cycle return to the start.
pub proof fn lemma_next_cycle(s: Status)
    ensures
        spec_next(spec_next(spec_next(s))) == s,
        spec_next(s) != s,
{
}

/// The stored name of a status parses back to that status, and distinct
/// statuses have distinct stored names.
pub proof fn lemma_stored_name_round_trip(s: Status, t: Status)
    ensures
        parse_stored(stored_name(s)) == Some(s),
        stored_name(s) == stored_name(t) ==> s == t,
{
    reveal_strlit("todo");
    reveal_strlit("in_progress");
    reveal_strlit("done");
    assert("todo"@.len() != "in_progress"@.len());
    assert("todo"@[0] != "done"@[0]);
    assert("done"@.len() != "in_progress"@.len());
}

} // verus!
