use vstd::prelude::*;

verus! {

/// The pad station that the panel talks to.
pub const BASE_URL: &'static str = "http://padstation-prod.local:8000";

/// The valves that the panel actuates.
#[derive(Clone, Copy, Debug, PartialEq, Eq, Structural)]
pub enum Valve {
    /// The fill valve, driven through the engine valve endpoint.
    Fill,
    /// The supply (dump) valve, driven through the relief valve endpoint.
    Supply,
    /// The pilot valve.
    Pilot,
}

/// The commands that carry no argument.
#[derive(Clone, Copy, Debug, PartialEq, Eq, Structural)]
pub enum Command {
    StartLogging,
    StopLogging,
    Ignite,
    FireQd,
    FireVent,
}

/// The path, below the base URL, that a command is sent to.
pub open spec fn spec_command_path(command: Command) -> Seq<char> {
    match command {
        Command::StartLogging => "/log_data/start"@,
        Command::StopLogging => "/log_data/stop"@,
        Command::Ignite => "/ignition?delay=1"@,
        Command::FireQd => "/relays/qd"@,
        Command::FireVent => "/relays/vent"@,
    }
}

/// The URL that a command is sent to.
pub open spec fn spec_command_url(base: Seq<char>, command: Command) -> Seq<char> {
    base + spec_command_path(command)
}

/// The URL that sets `valve` to the state named by `selected`.
pub open spec fn spec_valve_url(base: Seq<char>, valve: Valve, selected: Seq<char>) -> Seq<char> {
    match valve {
        Valve::Fill => base + "/valve/engine?state="@ + selected,
        Valve::Supply => base + "/valve/relief?state="@ + selected,
        Valve::Pilot => base + "/pilot_valve/pilot_valve?state="@ + selected + "&timeout=5"@,
    }
}

/// The URL of the fill pressure event stream.
pub open spec fn spec_fill_stream_url(base: Seq<char>) -> Seq<char> {
    base + "/pressure/fill/datastream"@
}

/// The path, below the base URL, that a command is sent to.
pub fn command_path(command: Command) -> (r: &'static str)
    ensures
        r@ == spec_command_path(command),
{
    match command {
        Command::StartLogging => "/log_data/start",
        Command::StopLogging => "/log_data/stop",
        Command::Ignite => "/ignition?delay=1",
        Command::FireQd => "/relays/qd",
        Command::FireVent => "/relays/vent",
    }
}

/// The URL that a command is sent to.
pub fn command_url(base: &str, command: Command) -> (r: String)
    ensures
        r@ == spec_command_url(base@, command),
{
    String::from_str(base).concat(command_path(command))
}

/// The URL that sets `valve` to the state named by `selected`.
pub fn valve_url(base: &str, valve: Valve, selected: &str) -> (r: String)
    ensures
        r@ == spec_valve_url(base@, valve, selected@),
{
    let url = String::from_str(base);
    match valve {
        Valve::Fill => url.concat("/valve/engine?state=").concat(selected),
        Valve::Supply => url.concat("/valve/relief?state=").concat(selected),
        Valve::Pilot => url.concat("/pilot_valve/pilot_valve?state=").concat(selected).concat(
            "&timeout=5",
        ),
    }
}

/// The URL of the fill pressure event stream.
pub fn fill_stream_url(base: &str) -> (r: String)
    ensures
        r@ == spec_fill_stream_url(base@),
{
    String::from_str(base).concat("/pressure/fill/datastream")
}

} // verus!
