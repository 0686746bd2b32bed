use vstd::prelude::*;

use crate::status::{color_map, spec_color, ConnectionStatus, ValveState};

verus! {

/// A coloured badge: its text and the colour of its background.
pub struct Badge {
    pub text: String,
    pub color: &'static str,
}

/// The inline style of a badge with the given background colour.
pub open spec fn spec_badge_style(color: Seq<char>) -> Seq<char> {
    "background-color: "@ + color + "; color: white;"@
}

/// The inline style of a badge with the given background colour.
pub fn badge_style(color: &str) -> (r: String)
    ensures
        r@ == spec_badge_style(color@),
{
    String::from_str("background-color: ").concat(color).concat("; color: white;")
}

/// The text that `{:?}` renders for a string.
pub uninterp spec fn debug_text(s: Seq<char>) -> Seq<char>;

/// `format!("{:?}", s)` of std, which renders `s` between double quotes
/// with its special characters escaped. The contract names the result and
/// states only that it starts and ends with a double quote; the escaping
/// itself is left unsaid.
#[verifier::external_body]
fn debug_string(s: &str) -> (r: String)
    ensures
        r@ == debug_text(s@),
        r@.len() >= 2,
        r@[0] == '"',
        r@[r@.len() - 1] == '"',
{
    format!("{:?}", s)
}

/// The badge of an event stream: the caption followed by the stream's
/// status text rendered with `{:?}` (that is, in double quotes), coloured by
/// the status itself.
pub fn stream_badge(caption: &str, status: &str) -> (r: Badge)
    ensures
        r.text@ == caption@ + debug_text(status@),
        r.color@ == spec_color(status@),
{
    let shown = debug_string(status);
    Badge { text: String::from_str(caption).concat(shown.as_str()), color: color_map(status) }
}

/// The badge of a valve: the state's name, coloured by that name.
pub fn valve_badge(state: ValveState) -> (r: Badge)
    ensures
        r.text@ == state.spec_label(),
        r.color@ == spec_color(state.spec_label()),
{
    let label = state.label();
    Badge { text: String::from_str(label), color: color_map(label) }
}

/// The badge of the data logger: "Active" in green or "Inactive" in red.
pub fn logging_badge(is_logging: bool) -> (r: Badge)
    ensures
        r.text@ == (if is_logging { "Active"@ } else { "Inactive"@ }),
        r.color@ == (if is_logging { "green"@ } else { "red"@ }),
{
    if is_logging {
        Badge { text: String::from_str("Active"), color: "green" }
    } else {
        Badge { text: String::from_str("Inactive"), color: "red" }
    }
}

/// A reading followed by a space and its unit, as the panel shows it.
pub fn reading_text(value: &str, unit: &str) -> (r: String)
    ensures
        r@ == value@ + " "@ + unit@,
{
    String::from_str(value).concat(" ").concat(unit)
}

/// The colour that a valve state is shown in.
pub open spec fn spec_valve_color(state: ValveState) -> Seq<char> {
    match state {
        ValveState::Open => "green"@,
        ValveState::Close => "red"@,
        ValveState::Error => "red"@,
        ValveState::Unknown => "gray"@,
    }
}

/// The colour that a connection status is shown in.
pub open spec fn spec_status_color(status: ConnectionStatus) -> Seq<char> {
    match status {
        ConnectionStatus::Connected => "green"@,
        ConnectionStatus::Error => "red"@,
        ConnectionStatus::Unknown => "gray"@,
    }
}

/// A valve shown by its state's name is open in green, closed or in error
/// in red, and unknown in gray.
pub proof fn law_valve_colors(state: ValveState)
    ensures
        spec_color(state.spec_label()) == spec_valve_color(state),
{
    lemma_labels_differ();
}

/// A connection status shown by its name is connected in green, in error
/// in red, and unknown in gray.
pub proof fn law_status_colors(status: ConnectionStatus)
    ensures
        spec_color(status.spec_label()) == spec_status_color(status),
{
    lemma_labels_differ();
}

/// The five labels that have a colour of their own are pairwise different.
proof fn lemma_labels_differ()
    ensures
        "Connected"@ != "Error"@,
        "Connected"@ != "Unknown"@,
        "Connected"@ != "Open"@,
        "Connected"@ != "Close"@,
        "Error"@ != "Unknown"@,
        "Error"@ != "Open"@,
        "Error"@ != "Close"@,
        "Unknown"@ != "Open"@,
        "Unknown"@ != "Close"@,
        "Open"@ != "Close"@,
{
    reveal_strlit("Connected");
    reveal_strlit("Error");
    reveal_strlit("Unknown");
    reveal_strlit("Open");
    reveal_strlit("Close");
    assert("Connected"@[0] == 'C' && "Connected"@[1] == 'o');
    assert("Error"@[0] == 'E');
    assert("Unknown"@[0] == 'U');
    assert("Open"@[0] == 'O');
    assert("Close"@[0] == 'C' && "Close"@[1] == 'l');
}

} // verus!
