use vstd::prelude::*;

use crate::badge::spec_badge_style;
use crate::endpoints::{
    spec_command_path, spec_command_url, spec_fill_stream_url, spec_valve_url, Command, Valve,
};
use crate::panel::{
    spec_effect, spec_initial, spec_next, ActionView, EventView, FollowUpView, Panel, PanelState,
};
use crate::reply::{spec_is_success, Reply};
use crate::status::{
    spec_color, spec_valve_actions, spec_valve_state_of, ConnectionStatus, ValveState,
};

verus! {

/// Every command value offered for a valve names the valve state that is
/// shown under the same name as the offer: choosing "Open" and getting a
/// successful reply shows "Open", choosing "Close" shows "Close".
pub proof fn law_offered_actions_name_their_states(i: int)
    requires
        0 <= i < spec_valve_actions().len(),
    ensures
        spec_valve_state_of(spec_valve_actions()[i].0).spec_label() == spec_valve_actions()[i].1,
{
    reveal_strlit("open");
    reveal_strlit("closed");
    assert("closed"@.len() != "open"@.len());
}

/// Pressing "Execute" for a valve with a chosen value changes nothing yet and
/// sends the valve's request for that value; when its reply comes back, in
/// whatever state the panel is then, that valve, and nothing else, shows the
/// state the value names if the reply was a success, and an error otherwise.
pub proof fn law_valve_request_and_reply(s: PanelState, later: PanelState, valve: Valve, reply: Reply)
    requires
        s.selected(valve).len() > 0,
        reply.valid(),
    ensures
        spec_next(s, EventView::ExecutePressed(valve)) == s,
        spec_effect(s, EventView::ExecutePressed(valve)) == (ActionView::Get {
            url: spec_valve_url(s.base_url, valve, s.selected(valve)),
            then: FollowUpView::ValveReply(valve, s.selected(valve)),
        }),
        ({
            let t = spec_next(later, EventView::ValveReplied(valve, s.selected(valve), reply));
            &&& t.valve_state(valve) == (if reply.spec_succeeded() {
                spec_valve_state_of(s.selected(valve))
            } else {
                ValveState::Error
            })
            &&& forall|other: Valve| other != valve ==> #[trigger] t.valve_state(other)
                == later.valve_state(other)
            &&& forall|other: Valve| #[trigger] t.selected(other) == later.selected(other)
            &&& t.is_logging == later.is_logging
            &&& t.fill_pt == later.fill_pt
            &&& t.base_url == later.base_url
        }),
{
}

/// A valve reply with a success status sets the valve to the state named by
/// the value that was sent; any other reply sets it to an error.
pub proof fn law_valve_reply_outcome(s: PanelState, valve: Valve, value: Seq<char>, code: u16)
    requires
        100 <= code <= 999,
    ensures
        spec_next(s, EventView::ValveReplied(valve, value, Reply::Status(code))).valve_state(valve)
            == (if spec_is_success(code) {
            spec_valve_state_of(value)
        } else {
            ValveState::Error
        }),
        spec_next(s, EventView::ValveReplied(valve, value, Reply::Failed)).valve_state(valve)
            == ValveState::Error,
{
}

/// Pressing "Execute" with no value chosen sends nothing and changes nothing.
pub proof fn law_empty_choice_does_nothing(s: PanelState, valve: Valve)
    requires
        s.selected(valve).len() == 0,
    ensures
        spec_next(s, EventView::ExecutePressed(valve)) == s,
        spec_effect(s, EventView::ExecutePressed(valve)) == ActionView::Nothing,
{
}

/// Starting the logger shows it active at once and sends the start request;
/// the reply to that request leaves it active when it is a success and shows
/// it inactive otherwise. Stopping shows it inactive at once and sends the
/// stop request, whose reply is not looked at.
pub proof fn law_logging(s: PanelState, reply: Reply)
    requires
        reply.valid(),
    ensures
        spec_next(s, EventView::StartLoggingPressed).is_logging,
        spec_effect(s, EventView::StartLoggingPressed) == (ActionView::Get {
            url: s.base_url + "/log_data/start"@,
            then: FollowUpView::LoggingStartReply,
        }),
        spec_next(
            spec_next(s, EventView::StartLoggingPressed),
            EventView::LoggingStartReplied(reply),
        ).is_logging == reply.spec_succeeded(),
        !spec_next(s, EventView::StopLoggingPressed).is_logging,
        spec_effect(s, EventView::StopLoggingPressed) == (ActionView::Get {
            url: s.base_url + "/log_data/stop"@,
            then: FollowUpView::Ignore,
        }),
{
}

/// The commands that fire the igniter, the quick disconnect and the vent
/// send their request and change nothing on the panel.
pub proof fn law_fire_commands(s: PanelState)
    ensures
        spec_next(s, EventView::IgnitePressed) == s,
        spec_next(s, EventView::FireQdPressed) == s,
        spec_next(s, EventView::FireVentPressed) == s,
        spec_effect(s, EventView::IgnitePressed) == (ActionView::Get {
            url: s.base_url + "/ignition?delay=1"@,
            then: FollowUpView::Ignore,
        }),
        spec_effect(s, EventView::FireQdPressed) == (ActionView::Get {
            url: s.base_url + "/relays/qd"@,
            then: FollowUpView::Ignore,
        }),
        spec_effect(s, EventView::FireVentPressed) == (ActionView::Get {
            url: s.base_url + "/relays/vent"@,
            then: FollowUpView::Ignore,
        }),
{
}

/// The fill pressure reading changes only when the stream delivers a
/// message with text, and then it becomes that text.
pub proof fn law_fill_reading(s: PanelState, e: EventView)
    ensures
        spec_next(s, e).fill_pt == (match e {
            EventView::FillStreamMessage(Some(t)) => t,
            _ => s.fill_pt,
        }),
{
}

/// The base URL never changes, and every request the panel sends goes to
/// an address that starts with it.
pub proof fn law_requests_go_to_base(s: PanelState, e: EventView)
    ensures
        spec_next(s, e).base_url == s.base_url,
        spec_effect(s, e) matches ActionView::Get { url, .. } ==> s.base_url.is_prefix_of(url),
{
    match spec_effect(s, e) {
        ActionView::Get { url, .. } => {
            let b = s.base_url;
            match e {
                EventView::ExecutePressed(valve) => {
                    let v = s.selected(valve);
                    match valve {
                        Valve::Fill => {
                            assert((b + "/valve/engine?state="@ + v).subrange(0, b.len() as int) =~= b);
                        },
                        Valve::Supply => {
                            assert((b + "/valve/relief?state="@ + v).subrange(0, b.len() as int) =~= b);
                        },
                        Valve::Pilot => {
                            assert((b + "/pilot_valve/pilot_valve?state="@ + v + "&timeout=5"@).subrange(
                                0,
                                b.len() as int,
                            ) =~= b);
                        },
                    }
                },
                EventView::StartLoggingPressed => {
                    assert(spec_command_url(b, Command::StartLogging).subrange(0, b.len() as int) =~= b);
                },
                EventView::StopLoggingPressed => {
                    assert(spec_command_url(b, Command::StopLogging).subrange(0, b.len() as int) =~= b);
                },
                EventView::IgnitePressed => {
                    assert(spec_command_url(b, Command::Ignite).subrange(0, b.len() as int) =~= b);
                },
                EventView::FireQdPressed => {
                    assert(spec_command_url(b, Command::FireQd).subrange(0, b.len() as int) =~= b);
                },
                EventView::FireVentPressed => {
                    assert(spec_command_url(b, Command::FireVent).subrange(0, b.len() as int) =~= b);
                },
                _ => {},
            }
        },
        ActionView::Nothing => {},
    }
}

/// The URL that actuates a valve carries the chosen value verbatim, after
/// the endpoint of that valve: the engine valve for the fill valve, the
/// relief valve for the supply valve, and the pilot valve (with a five second
/// timeout) for the pilot valve.
pub proof fn law_valve_url_carries_choice(base: Seq<char>, valve: Valve, value: Seq<char>)
    ensures
        spec_valve_url(base, valve, value) == (match valve {
            Valve::Fill => base + "/valve/engine?state="@ + value,
            Valve::Supply => base + "/valve/relief?state="@ + value,
            Valve::Pilot => base + "/pilot_valve/pilot_valve?state="@ + value + "&timeout=5"@,
        }),
{
}

/// Each command goes to its own path below the base URL, and the fill
/// pressure stream is read from its own path.
pub proof fn law_command_urls(base: Seq<char>, command: Command)
    ensures
        spec_command_url(base, command) == base + spec_command_path(command),
        spec_command_path(command) == (match command {
            Command::StartLogging => "/log_data/start"@,
            Command::StopLogging => "/log_data/stop"@,
            Command::Ignite => "/ignition?delay=1"@,
            Command::FireQd => "/relays/qd"@,
            Command::FireVent => "/relays/vent"@,
        }),
        spec_fill_stream_url(base) == base + "/pressure/fill/datastream"@,
{
}

/// Choosing a value for a valve records it for that valve and changes
/// nothing else: the other valves keep their choices, and nothing is sent.
pub proof fn law_choice_is_per_valve(s: PanelState, valve: Valve, value: Seq<char>, other: Valve)
    ensures
        spec_next(s, EventView::OptionSelected(valve, value)).selected(valve) == value,
        other != valve ==> spec_next(s, EventView::OptionSelected(valve, value)).selected(other)
            == s.selected(other),
        spec_next(s, EventView::OptionSelected(valve, value)) == (match valve {
            Valve::Fill => PanelState { selected_fill: value, ..s },
            Valve::Supply => PanelState { selected_supply: value, ..s },
            Valve::Pilot => PanelState { selected_pilot: value, ..s },
        }),
        spec_effect(s, EventView::OptionSelected(valve, value)) == ActionView::Nothing,
{
}

/// Pressing "Execute" sends, for that valve, the value chosen for that valve
/// and no other one.
pub proof fn law_execute_sends_own_choice(s: PanelState)
    ensures
        s.selected_fill.len() > 0 ==> spec_effect(s, EventView::ExecutePressed(Valve::Fill))
            == (ActionView::Get {
            url: s.base_url + "/valve/engine?state="@ + s.selected_fill,
            then: FollowUpView::ValveReply(Valve::Fill, s.selected_fill),
        }),
        s.selected_supply.len() > 0 ==> spec_effect(s, EventView::ExecutePressed(Valve::Supply))
            == (ActionView::Get {
            url: s.base_url + "/valve/relief?state="@ + s.selected_supply,
            then: FollowUpView::ValveReply(Valve::Supply, s.selected_supply),
        }),
        s.selected_pilot.len() > 0 ==> spec_effect(s, EventView::ExecutePressed(Valve::Pilot))
            == (ActionView::Get {
            url: s.base_url + "/pilot_valve/pilot_valve?state="@ + s.selected_pilot
                + "&timeout=5"@,
            then: FollowUpView::ValveReply(Valve::Pilot, s.selected_pilot),
        }),
{
}

/// The state a reply shows for its valve, stated over the value that was
/// sent and the status code: a success (200 to 299) shows open for "open",
/// closed for "closed" and unknown for anything else; any other reply shows
/// an error. Only that valve changes.
pub proof fn law_valve_reply_literal(s: PanelState, valve: Valve, value: Seq<char>, reply: Reply)
    ensures
        ({
            let shown = match reply {
                Reply::Status(code) => if 200 <= code <= 299 {
                    if value == "open"@ {
                        ValveState::Open
                    } else if value == "closed"@ {
                        ValveState::Close
                    } else {
                        ValveState::Unknown
                    }
                } else {
                    ValveState::Error
                },
                Reply::Failed => ValveState::Error,
            };
            spec_next(s, EventView::ValveReplied(valve, value, reply)) == (match valve {
                Valve::Fill => PanelState { fill_state: shown, ..s },
                Valve::Supply => PanelState { supply_state: shown, ..s },
                Valve::Pilot => PanelState { pilot_state: shown, ..s },
            })
        }),
        spec_effect(s, EventView::ValveReplied(valve, value, reply)) == ActionView::Nothing,
{
}

/// The reply to the start request never turns logging on: after it, the
/// panel shows logging exactly when it did before and the reply is a
/// success. Start turns logging on and Stop turns it off, whatever came
/// before; so Start, Stop and then any reply leave it off.
pub proof fn law_logging_flags(s: PanelState, reply: Reply)
    ensures
        spec_next(s, EventView::LoggingStartReplied(reply)) == (PanelState {
            is_logging: s.is_logging && match reply {
                Reply::Status(code) => 200 <= code <= 299,
                Reply::Failed => false,
            },
            ..s
        }),
        spec_next(s, EventView::StartLoggingPressed) == (PanelState { is_logging: true, ..s }),
        spec_next(s, EventView::StopLoggingPressed) == (PanelState { is_logging: false, ..s }),
        !spec_next(
            spec_next(spec_next(s, EventView::StartLoggingPressed), EventView::StopLoggingPressed),
            EventView::LoggingStartReplied(reply),
        ).is_logging,
        spec_effect(s, EventView::LoggingStartReplied(reply)) == ActionView::Nothing,
{
}

/// The fill pressure stream: opening it always shows "Connected", an error
/// always shows "Error", a message with text shows that text as the reading,
/// and a message without text changes nothing. None of these sends anything.
pub proof fn law_fill_stream_events(s: PanelState, text: Seq<char>)
    ensures
        spec_next(s, EventView::FillStreamOpened) == (PanelState {
            fill_sse_status: "Connected"@,
            ..s
        }),
        spec_next(s, EventView::FillStreamFailed) == (PanelState {
            fill_sse_status: "Error"@,
            ..s
        }),
        spec_next(s, EventView::FillStreamMessage(Some(text))) == (PanelState {
            fill_pt: text,
            ..s
        }),
        spec_next(s, EventView::FillStreamMessage(None)) == s,
        spec_effect(s, EventView::FillStreamOpened) == ActionView::Nothing,
        spec_effect(s, EventView::FillStreamFailed) == ActionView::Nothing,
        spec_effect(s, EventView::FillStreamMessage(Some(text))) == ActionView::Nothing,
{
}

/// A fresh panel has the given base URL, no readings, no choices, no
/// stream status, every valve unknown, and logging off.
pub proof fn law_initial_panel(base: Seq<char>)
    ensures
        spec_initial(base) == (PanelState {
            base_url: base,
            supply_pt: ""@,
            fill_pt: ""@,
            tank_pt: ""@,
            test_stand_load: ""@,
            tank_tc: ""@,
            fill_state: ValveState::Unknown,
            supply_state: ValveState::Unknown,
            pilot_state: ValveState::Unknown,
            selected_fill: ""@,
            selected_supply: ""@,
            selected_pilot: ""@,
            fill_sse_status: ""@,
            supply_sse_status: ""@,
            tank_sse_status: ""@,
            is_logging: false,
        }),
{
    reveal_strlit("");
    assert(""@ =~= Seq::<char>::empty());
}

/// The panel's model shows each of its fields as they are.
pub proof fn law_panel_view(p: Panel)
    ensures
        p@.base_url == p.base_url@,
        p@.supply_pt == p.supply_pt@,
        p@.fill_pt == p.fill_pt@,
        p@.tank_pt == p.tank_pt@,
        p@.test_stand_load == p.test_stand_load@,
        p@.tank_tc == p.tank_tc@,
        p@.fill_state == p.fill_state,
        p@.supply_state == p.supply_state,
        p@.pilot_state == p.pilot_state,
        p@.selected_fill == p.selected_fill@,
        p@.selected_supply == p.selected_supply@,
        p@.selected_pilot == p.selected_pilot@,
        p@.fill_sse_status == p.fill_sse_status@,
        p@.supply_sse_status == p.supply_sse_status@,
        p@.tank_sse_status == p.tank_sse_status@,
        p@.is_logging == p.is_logging,
{
}

/// A badge's style puts its colour, verbatim, between
/// "background-color: " and "; color: white;".
pub proof fn law_badge_style_carries_color(color: Seq<char>)
    ensures
        spec_badge_style(color) == "background-color: "@ + color + "; color: white;"@,
{
}

/// A reply succeeded exactly when it carries a status code from 200 to 299.
pub proof fn law_reply_success(reply: Reply)
    ensures
        reply.spec_succeeded() == (match reply {
            Reply::Status(code) => 200 <= code <= 299,
            Reply::Failed => false,
        }),
        reply is Status ==> (spec_is_success(reply->0) <==> 200 <= reply->0 < 300),
{
}

/// Command values name valve states: "open" names open, "closed" names
/// closed, and every other value names an unknown state.
pub proof fn law_command_values(value: Seq<char>)
    ensures
        spec_valve_state_of(value) == (if value == "open"@ {
            ValveState::Open
        } else if value == "closed"@ {
            ValveState::Close
        } else {
            ValveState::Unknown
        }),
        spec_valve_state_of("open"@) == ValveState::Open,
        spec_valve_state_of("closed"@) == ValveState::Close,
{
    reveal_strlit("open");
    reveal_strlit("closed");
    assert("closed"@.len() != "open"@.len());
}

/// The names under which states are shown, and the options offered.
pub proof fn law_labels_and_options()
    ensures
        ValveState::Open.spec_label() == "Open"@,
        ValveState::Close.spec_label() == "Close"@,
        ValveState::Error.spec_label() == "Error"@,
        ValveState::Unknown.spec_label() == "Unknown"@,
        ConnectionStatus::Connected.spec_label() == "Connected"@,
        ConnectionStatus::Error.spec_label() == "Error"@,
        ConnectionStatus::Unknown.spec_label() == "Unknown"@,
        spec_valve_actions() == seq![("open"@, "Open"@), ("closed"@, "Close"@)],
{
}

/// Colours by shown text: "Connected" and "Open" are green, "Error" and
/// "Close" are red, everything else is gray.
pub proof fn law_colors_by_text(label: Seq<char>)
    ensures
        spec_color(label) == (if label == "Connected"@ || label == "Open"@ {
            "green"@
        } else if label == "Error"@ || label == "Close"@ {
            "red"@
        } else {
            "gray"@
        }),
{
    reveal_strlit("Connected");
    reveal_strlit("Error");
    reveal_strlit("Unknown");
    reveal_strlit("Open");
    reveal_strlit("Close");
    assert("Connected"@[0] == 'C' && "Connected"@[1] == 'o');
    assert("Error"@[0] == 'E');
    assert("Unknown"@[0] == 'U');
    assert("Open"@[0] == 'O');
    assert("Close"@[0] == 'C' && "Close"@[1] == 'l');
}

} // verus!
