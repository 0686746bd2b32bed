use vstd::prelude::*;

use crate::endpoints::{
    command_url, spec_command_url, spec_valve_url, valve_url, Command, Valve, BASE_URL,
};
use crate::reply::Reply;
use crate::status::{map_to_valve_state, spec_valve_state_of, ConnectionStatus, ValveState};

verus! {

/// Everything the control panel shows and remembers.
pub struct Panel {
    /// The pad station that requests go to.
    pub base_url: String,
    /// Latest supply pressure reading, as received.
    pub supply_pt: String,
    /// Latest fill pressure reading, as received.
    pub fill_pt: String,
    /// Latest tank pressure reading, as received.
    pub tank_pt: String,
    /// Latest test stand load reading, as received.
    pub test_stand_load: String,
    /// Latest tank temperature reading, as received.
    pub tank_tc: String,
    pub fill_state: ValveState,
    pub supply_state: ValveState,
    pub pilot_state: ValveState,
    /// The command value chosen for each valve ("" before any choice).
    pub selected_fill: String,
    pub selected_supply: String,
    pub selected_pilot: String,
    /// The shown status of each event stream ("" before any news).
    pub fill_sse_status: String,
    pub supply_sse_status: String,
    pub tank_sse_status: String,
    /// Whether the pad station is believed to be logging data.
    pub is_logging: bool,
}

/// The panel as a mathematical value.
pub struct PanelState {
    pub base_url: Seq<char>,
    pub supply_pt: Seq<char>,
    pub fill_pt: Seq<char>,
    pub tank_pt: Seq<char>,
    pub test_stand_load: Seq<char>,
    pub tank_tc: Seq<char>,
    pub fill_state: ValveState,
    pub supply_state: ValveState,
    pub pilot_state: ValveState,
    pub selected_fill: Seq<char>,
    pub selected_supply: Seq<char>,
    pub selected_pilot: Seq<char>,
    pub fill_sse_status: Seq<char>,
    pub supply_sse_status: Seq<char>,
    pub tank_sse_status: Seq<char>,
    pub is_logging: bool,
}

impl View for Panel {
    type V = PanelState;

    open spec fn view(&self) -> PanelState {
        PanelState {
            base_url: self.base_url@,
            supply_pt: self.supply_pt@,
            fill_pt: self.fill_pt@,
            tank_pt: self.tank_pt@,
            test_stand_load: self.test_stand_load@,
            tank_tc: self.tank_tc@,
            fill_state: self.fill_state,
            supply_state: self.supply_state,
            pilot_state: self.pilot_state,
            selected_fill: self.selected_fill@,
            selected_supply: self.selected_supply@,
            selected_pilot: self.selected_pilot@,
            fill_sse_status: self.fill_sse_status@,
            supply_sse_status: self.supply_sse_status@,
            tank_sse_status: self.tank_sse_status@,
            is_logging: self.is_logging,
        }
    }
}

impl PanelState {
    /// What the panel knows of `valve`.
    pub open spec fn valve_state(self, valve: Valve) -> ValveState {
        match valve {
            Valve::Fill => self.fill_state,
            Valve::Supply => self.supply_state,
            Valve::Pilot => self.pilot_state,
        }
    }

    /// The command value chosen for `valve`.
    pub open spec fn selected(self, valve: Valve) -> Seq<char> {
        match valve {
            Valve::Fill => self.selected_fill,
            Valve::Supply => self.selected_supply,
            Valve::Pilot => self.selected_pilot,
        }
    }

    /// The panel with `valve` now in `state`.
    pub open spec fn with_valve_state(self, valve: Valve, state: ValveState) -> PanelState {
        match valve {
            Valve::Fill => PanelState { fill_state: state, ..self },
            Valve::Supply => PanelState { supply_state: state, ..self },
            Valve::Pilot => PanelState { pilot_state: state, ..self },
        }
    }

    /// The panel with `value` chosen for `valve`.
    pub open spec fn with_selected(self, valve: Valve, value: Seq<char>) -> PanelState {
        match valve {
            Valve::Fill => PanelState { selected_fill: value, ..self },
            Valve::Supply => PanelState { selected_supply: value, ..self },
            Valve::Pilot => PanelState { selected_pilot: value, ..self },
        }
    }
}

/// The panel before anything has happened: no readings, no choices, no
/// stream status, every valve unknown, not logging.
pub open spec fn spec_initial(base_url: Seq<char>) -> PanelState {
    PanelState {
        base_url,
        supply_pt: Seq::empty(),
        fill_pt: Seq::empty(),
        tank_pt: Seq::empty(),
        test_stand_load: Seq::empty(),
        tank_tc: Seq::empty(),
        fill_state: ValveState::Unknown,
        supply_state: ValveState::Unknown,
        pilot_state: ValveState::Unknown,
        selected_fill: Seq::empty(),
        selected_supply: Seq::empty(),
        selected_pilot: Seq::empty(),
        fill_sse_status: Seq::empty(),
        supply_sse_status: Seq::empty(),
        tank_sse_status: Seq::empty(),
        is_logging: false,
    }
}

/// What happens to the panel: the user's actions, news from the fill
/// pressure stream, and the replies to the requests it made.
pub enum Event {
    /// The fill pressure stream was set up.
    FillStreamOpened,
    /// The fill pressure stream delivered a message: its text, or `None`
    /// when the message carried no text.
    FillStreamMessage(Option<String>),
    /// The fill pressure stream reported an error.
    FillStreamFailed,
    /// The user chose a command value for a valve.
    OptionSelected(Valve, String),
    /// The user pressed "Execute" for a valve.
    ExecutePressed(Valve),
    /// The reply to a valve request that was sent with the given command value.
    ValveReplied(Valve, String, Reply),
    StartLoggingPressed,
    /// The reply to the request that starts logging.
    LoggingStartReplied(Reply),
    StopLoggingPressed,
    IgnitePressed,
    FireQdPressed,
    FireVentPressed,
}

/// An event as a mathematical value.
pub enum EventView {
    FillStreamOpened,
    FillStreamMessage(Option<Seq<char>>),
    FillStreamFailed,
    OptionSelected(Valve, Seq<char>),
    ExecutePressed(Valve),
    ValveReplied(Valve, Seq<char>, Reply),
    StartLoggingPressed,
    LoggingStartReplied(Reply),
    StopLoggingPressed,
    IgnitePressed,
    FireQdPressed,
    FireVentPressed,
}

impl View for Event {
    type V = EventView;

    open spec fn view(&self) -> EventView {
        match self {
            Event::FillStreamOpened => EventView::FillStreamOpened,
            Event::FillStreamMessage(text) => EventView::FillStreamMessage(
                match text {
                    Some(t) => Some(t@),
                    None => None,
                },
            ),
            Event::FillStreamFailed => EventView::FillStreamFailed,
            Event::OptionSelected(valve, value) => EventView::OptionSelected(*valve, value@),
            Event::ExecutePressed(valve) => EventView::ExecutePressed(*valve),
            Event::ValveReplied(valve, value, reply) => EventView::ValveReplied(
                *valve,
                value@,
                *reply,
            ),
            Event::StartLoggingPressed => EventView::StartLoggingPressed,
            Event::LoggingStartReplied(reply) => EventView::LoggingStartReplied(*reply),
            Event::StopLoggingPressed => EventView::StopLoggingPressed,
            Event::IgnitePressed => EventView::IgnitePressed,
            Event::FireQdPressed => EventView::FireQdPressed,
            Event::FireVentPressed => EventView::FireVentPressed,
        }
    }
}

impl EventView {
    /// Every reply in the event carries a status code that HTTP can express.
    pub open spec fn valid(self) -> bool {
        match self {
            EventView::ValveReplied(_, _, reply) => reply.valid(),
            EventView::LoggingStartReplied(reply) => reply.valid(),
            _ => true,
        }
    }
}

/// What is to be done with the reply to a request.
pub enum FollowUp {
    /// Hand it back as `Event::ValveReplied` for this valve and command value.
    ValveReply(Valve, String),
    /// Hand it back as `Event::LoggingStartReplied`.
    LoggingStartReply,
    /// Nothing: the reply is not looked at.
    Ignore,
}

/// A follow-up as a mathematical value.
pub enum FollowUpView {
    ValveReply(Valve, Seq<char>),
    LoggingStartReply,
    Ignore,
}

/// What the panel asks to be done after an event.
pub enum Action {
    Nothing,
    /// Send a GET request to `url`, and deal with the reply as `then` says.
    Get { url: String, then: FollowUp },
}

/// An action as a mathematical value.
pub enum ActionView {
    Nothing,
    Get { url: Seq<char>, then: FollowUpView },
}

impl View for FollowUp {
    type V = FollowUpView;

    open spec fn view(&self) -> FollowUpView {
        match self {
            FollowUp::ValveReply(valve, value) => FollowUpView::ValveReply(*valve, value@),
            FollowUp::LoggingStartReply => FollowUpView::LoggingStartReply,
            FollowUp::Ignore => FollowUpView::Ignore,
        }
    }
}

impl View for Action {
    type V = ActionView;

    open spec fn view(&self) -> ActionView {
        match self {
            Action::Nothing => ActionView::Nothing,
            Action::Get { url, then } => ActionView::Get { url: url@, then: then@ },
        }
    }
}

/// The state of the panel after event `e` in state `s`.
pub open spec fn spec_next(s: PanelState, e: EventView) -> PanelState {
    match e {
        EventView::FillStreamOpened => PanelState {
            fill_sse_status: ConnectionStatus::Connected.spec_label(),
            ..s
        },
        EventView::FillStreamMessage(text) => match text {
            Some(t) => PanelState { fill_pt: t, ..s },
            None => s,
        },
        EventView::FillStreamFailed => PanelState {
            fill_sse_status: ConnectionStatus::Error.spec_label(),
            ..s
        },
        EventView::OptionSelected(valve, value) => s.with_selected(valve, value),
        EventView::ValveReplied(valve, value, reply) => s.with_valve_state(
            valve,
            if reply.spec_succeeded() {
                spec_valve_state_of(value)
            } else {
                ValveState::Error
            },
        ),
        EventView::StartLoggingPressed => PanelState { is_logging: true, ..s },
        EventView::LoggingStartReplied(reply) => if reply.spec_succeeded() {
            s
        } else {
            PanelState { is_logging: false, ..s }
        },
        EventView::StopLoggingPressed => PanelState { is_logging: false, ..s },
        _ => s,
    }
}

/// A request for `command` whose reply is dealt with as `then` says.
pub open spec fn spec_command_request(
    s: PanelState,
    command: Command,
    then: FollowUpView,
) -> ActionView {
    ActionView::Get { url: spec_command_url(s.base_url, command), then }
}

/// What the panel asks to be done after event `e` in state `s`.
pub open spec fn spec_effect(s: PanelState, e: EventView) -> ActionView {
    match e {
        EventView::ExecutePressed(valve) => if s.selected(valve).len() == 0 {
            ActionView::Nothing
        } else {
            ActionView::Get {
                url: spec_valve_url(s.base_url, valve, s.selected(valve)),
                then: FollowUpView::ValveReply(valve, s.selected(valve)),
            }
        },
        EventView::StartLoggingPressed => spec_command_request(
            s,
            Command::StartLogging,
            FollowUpView::LoggingStartReply,
        ),
        EventView::StopLoggingPressed => spec_command_request(
            s,
            Command::StopLogging,
            FollowUpView::Ignore,
        ),
        EventView::IgnitePressed => spec_command_request(s, Command::Ignite, FollowUpView::Ignore),
        EventView::FireQdPressed => spec_command_request(s, Command::FireQd, FollowUpView::Ignore),
        EventView::FireVentPressed => spec_command_request(
            s,
            Command::FireVent,
            FollowUpView::Ignore,
        ),
        _ => ActionView::Nothing,
    }
}

impl Panel {
    /// A fresh panel talking to the pad station at `BASE_URL`.
    pub fn new() -> (r: Panel)
        ensures
            r@ == spec_initial(BASE_URL@),
    {
        Panel {
            base_url: String::from_str(BASE_URL),
            supply_pt: String::new(),
            fill_pt: String::new(),
            tank_pt: String::new(),
            test_stand_load: String::new(),
            tank_tc: String::new(),
            fill_state: ValveState::Unknown,
            supply_state: ValveState::Unknown,
            pilot_state: ValveState::Unknown,
            selected_fill: String::new(),
            selected_supply: String::new(),
            selected_pilot: String::new(),
            fill_sse_status: String::new(),
            supply_sse_status: String::new(),
            tank_sse_status: String::new(),
            is_logging: false,
        }
    }

    /// The command value chosen for `valve`.
    fn selected(&self, valve: Valve) -> (r: &String)
        ensures
            r@ == self@.selected(valve),
    {
        match valve {
            Valve::Fill => &self.selected_fill,
            Valve::Supply => &self.selected_supply,
            Valve::Pilot => &self.selected_pilot,
        }
    }

    /// Records `state` for `valve`.
    fn set_valve_state(&mut self, valve: Valve, state: ValveState)
        ensures
            final(self)@ == old(self)@.with_valve_state(valve, state),
    {
        match valve {
            Valve::Fill => self.fill_state = state,
            Valve::Supply => self.supply_state = state,
            Valve::Pilot => self.pilot_state = state,
        }
    }

    /// Records `value` as the choice for `valve`.
    fn set_selected(&mut self, valve: Valve, value: String)
        ensures
            final(self)@ == old(self)@.with_selected(valve, value@),
    {
        match valve {
            Valve::Fill => self.selected_fill = value,
            Valve::Supply => self.selected_supply = value,
            Valve::Pilot => self.selected_pilot = value,
        }
    }

    /// A request for `command` whose reply is dealt with as `then` says.
    fn command_request(&self, command: Command, then: FollowUp) -> (r: Action)
        ensures
            r@ == spec_command_request(self@, command, then@),
    {
        Action::Get { url: command_url(self.base_url.as_str(), command), then }
    }

    /// Takes in one event: updates the panel and says what is to be done.
    pub fn step(&mut self, event: Event) -> (action: Action)
        requires
            event@.valid(),
        ensures
            final(self)@ == spec_next(old(self)@, event@),
            action@ == spec_effect(old(self)@, event@),
    {
        match event {
            Event::FillStreamOpened => {
                self.fill_sse_status = String::from_str(ConnectionStatus::Connected.label());
                Action::Nothing
            },
            Event::FillStreamMessage(text) => {
                if let Some(t) = text {
                    self.fill_pt = t;
                }
                Action::Nothing
            },
            Event::FillStreamFailed => {
                self.fill_sse_status = String::from_str(ConnectionStatus::Error.label());
                Action::Nothing
            },
            Event::OptionSelected(valve, value) => {
                self.set_selected(valve, value);
                Action::Nothing
            },
            Event::ExecutePressed(valve) => {
                let value = self.selected(valve).clone();
                if value.as_str().is_empty() {
                    Action::Nothing
                } else {
                    let url = valve_url(self.base_url.as_str(), valve, value.as_str());
                    Action::Get { url, then: FollowUp::ValveReply(valve, value) }
                }
            },
            Event::ValveReplied(valve, value, reply) => {
                let state = if reply.succeeded() {
                    map_to_valve_state(value.as_str())
                } else {
                    ValveState::Error
                };
                self.set_valve_state(valve, state);
                Action::Nothing
            },
            Event::StartLoggingPressed => {
                self.is_logging = true;
                self.command_request(Command::StartLogging, FollowUp::LoggingStartReply)
            },
            Event::LoggingStartReplied(reply) => {
                if !reply.succeeded() {
                    self.is_logging = false;
                }
                Action::Nothing
            },
            Event::StopLoggingPressed => {
                self.is_logging = false;
                self.command_request(Command::StopLogging, FollowUp::Ignore)
            },
            Event::IgnitePressed => self.command_request(Command::Ignite, FollowUp::Ignore),
            Event::FireQdPressed => self.command_request(Command::FireQd, FollowUp::Ignore),
            Event::FireVentPressed => self.command_request(Command::FireVent, FollowUp::Ignore),
        }
    }
}

} // verus!
