//! The lifecycle state of the supervised child process, and its wire names.

use vstd::prelude::*;
use crate::text::{has_no_char, str_eq};

verus! {

/// Lifecycle state of the supervised process.
#[derive(Debug, Clone, Copy, PartialEq, Eq, Structural)]
pub enum SubState {
    Stopped,
    Starting,
    Running,
    Stopping,
}

/// The lower-case wire name of a state, as it appears in status replies.
pub open spec fn state_name(s: SubState) -> Seq<char> {
    match s {
        SubState::Stopped => "stopped"@,
        SubState::Starting => "starting"@,
        SubState::Running => "running"@,
        SubState::Stopping => "stopping"@,
    }
}

/// The state a wire name denotes, if any.
pub open spec fn spec_state_of_name(s: Seq<char>) -> Option<SubState> {
    if s == "stopped"@ {
        Some(SubState::Stopped)
    } else if s == "starting"@ {
        Some(SubState::Starting)
    } else if s == "running"@ {
        Some(SubState::Running)
    } else if s == "stopping"@ {
        Some(SubState::Stopping)
    } else {
        None
    }
}

impl SubState {
    /// The lower-case name of this state.
    pub fn name(&self) -> (r: String)
        ensures
            r@ == state_name(*self),
    {
        match self {
            SubState::Stopped => String::from_str("stopped"),
            SubState::Starting => String::from_str("starting"),
            SubState::Running => String::from_str("running"),
            SubState::Stopping => String::from_str("stopping"),
        }
    }
}

/// The state a wire name denotes, if any.
pub fn state_of_name(s: &str) -> (r: Option<SubState>)
    ensures
        r == spec_state_of_name(s@),
{
    if str_eq(s, "stopped") {
        Some(SubState::Stopped)
    } else if str_eq(s, "starting") {
        Some(SubState::Starting)
    } else if str_eq(s, "running") {
        Some(SubState::Running)
    } else if str_eq(s, "stopping") {
        Some(SubState::Stopping)
    } else {
        None
    }
}

/// State names hold neither a quote nor a line break, so they can stand
/// unescaped inside a status reply and inside the identity document.
pub proof fn lemma_state_name_chars(s: SubState)
    ensures
        has_no_char(state_name(s), '"'),
        has_no_char(state_name(s), '\n'),
{
    reveal_strlit("stopped");
    reveal_strlit("starting");
    reveal_strlit("running");
    reveal_strlit("stopping");
}

/// Every state name can be read back as the state it names.
pub proof fn lemma_state_name_roundtrip(s: SubState)
    ensures
        spec_state_of_name(state_name(s)) == Some(s),
{
    reveal_strlit("stopped");
    reveal_strlit("starting");
    reveal_strlit("running");
    reveal_strlit("stopping");
    assert("stopped"@.len() == 7);
    assert("starting"@.len() == 8);
    assert("running"@.len() == 7);
    assert("stopping"@.len() == 8);
    assert("stopped"@[0] == 's' && "running"@[0] == 'r');
    assert("starting"@[2] == 'a' && "stopping"@[2] == 'o');
}

} // verus!
