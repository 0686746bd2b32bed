use vstd::prelude::*;

use crate::text::same_text;

verus! {

/// The state of a server-sent-event stream as the panel reports it.
#[derive(Clone, Copy, Debug, PartialEq, Eq, Structural)]
pub enum ConnectionStatus {
    Connected,
    Error,
    Unknown,
}

/// What the panel knows of a valve.
#[derive(Clone, Copy, Debug, PartialEq, Eq, Structural)]
pub enum ValveState {
    Open,
    Close,
    Error,
    Unknown,
}

impl ConnectionStatus {
    /// The text under which a status is shown.
    pub open spec fn spec_label(self) -> Seq<char> {
        match self {
            ConnectionStatus::Connected => "Connected"@,
            ConnectionStatus::Error => "Error"@,
            ConnectionStatus::Unknown => "Unknown"@,
        }
    }

    /// The displayed text of the status.
    pub fn label(&self) -> (r: &'static str)
        ensures
            r@ == self.spec_label(),
    {
        match self {
            ConnectionStatus::Connected => "Connected",
            ConnectionStatus::Error => "Error",
            ConnectionStatus::Unknown => "Unknown",
        }
    }
}

impl Default for ConnectionStatus {
    fn default() -> (r: Self)
        ensures
            r == ConnectionStatus::Unknown,
    {
        ConnectionStatus::Unknown
    }
}

impl ValveState {
    /// The name under which a valve state is shown (its variant's name).
    pub open spec fn spec_label(self) -> Seq<char> {
        match self {
            ValveState::Open => "Open"@,
            ValveState::Close => "Close"@,
            ValveState::Error => "Error"@,
            ValveState::Unknown => "Unknown"@,
        }
    }

    /// The displayed name of the state.
    pub fn label(&self) -> (r: &'static str)
        ensures
            r@ == self.spec_label(),
    {
        match self {
            ValveState::Open => "Open",
            ValveState::Close => "Close",
            ValveState::Error => "Error",
            ValveState::Unknown => "Unknown",
        }
    }
}

impl Default for ValveState {
    fn default() -> (r: Self)
        ensures
            r == ValveState::Unknown,
    {
        ValveState::Unknown
    }
}

/// The valve state that a command value names: `"open"` and `"closed"`,
/// anything else is unknown.
pub open spec fn spec_valve_state_of(value: Seq<char>) -> ValveState {
    if value == "open"@ {
        ValveState::Open
    } else if value == "closed"@ {
        ValveState::Close
    } else {
        ValveState::Unknown
    }
}

/// Maps a command value to the valve state it names.
pub fn map_to_valve_state(value: &str) -> (r: ValveState)
    ensures
        r == spec_valve_state_of(value@),
{
    if same_text(value, "open") {
        ValveState::Open
    } else if same_text(value, "closed") {
        ValveState::Close
    } else {
        ValveState::Unknown
    }
}

/// The colour of a badge whose subject is shown as `label`.
pub open spec fn spec_color(label: Seq<char>) -> Seq<char> {
    if label == "Connected"@ {
        "green"@
    } else if label == "Error"@ {
        "red"@
    } else if label == "Unknown"@ {
        "gray"@
    } else if label == "Open"@ {
        "green"@
    } else if label == "Close"@ {
        "red"@
    } else {
        "gray"@
    }
}

/// The colour used to style a status or state, given the text it is shown as.
pub fn color_map(label: &str) -> (r: &'static str)
    ensures
        r@ == spec_color(label@),
{
    if same_text(label, "Connected") {
        "green"
    } else if same_text(label, "Error") {
        "red"
    } else if same_text(label, "Unknown") {
        "gray"
    } else if same_text(label, "Open") {
        "green"
    } else if same_text(label, "Close") {
        "red"
    } else {
        "gray"
    }
}

} // verus!

verus! {

/// The command values offered for every valve, each with the name it is
/// offered under: "open" as "Open" and "closed" as "Close".
pub open spec fn spec_valve_actions() -> Seq<(Seq<char>, Seq<char>)> {
    seq![("open"@, "Open"@), ("closed"@, "Close"@)]
}

/// The command values offered for every valve, each with its displayed name.
pub fn valve_actions() -> (r: Vec<(String, String)>)
    ensures
        r@.len() == spec_valve_actions().len(),
        forall|i: int|
            0 <= i < r@.len() ==> (#[trigger] r@[i].0@, r@[i].1@) == spec_valve_actions()[i],
{
    let mut r: Vec<(String, String)> = Vec::new();
    r.push((String::from_str("open"), String::from_str("Open")));
    r.push((String::from_str("closed"), String::from_str("Close")));
    r
}

} // verus!
