use fill_box_control::endpoints::Valve;
use fill_box_control::panel::{Action, Event, FollowUp, Panel};
use fill_box_control::reply::Reply;
use fill_box_control::ValveState;

fn get_url(action: &Action) -> Option<String> {
    match action {
        Action::Get { url, .. } => Some(url.clone()),
        Action::Nothing => None,
    }
}

#[test]
fn fresh_panel() {
    let p = Panel::new();
    assert_eq!(p.base_url, "http://padstation-prod.local:8000");
    assert_eq!(p.fill_pt, "");
    assert_eq!(p.fill_sse_status, "");
    assert_eq!(p.fill_state, ValveState::Unknown);
    assert_eq!(p.supply_state, ValveState::Unknown);
    assert_eq!(p.pilot_state, ValveState::Unknown);
    assert_eq!(p.selected_pilot, "");
    assert!(!p.is_logging);
}

#[test]
fn pilot_valve_opens_on_success() {
    let mut p = Panel::new();
    assert!(matches!(p.step(Event::OptionSelected(Valve::Pilot, "open".to_string())), Action::Nothing));
    assert_eq!(p.selected_pilot, "open");
    let action = p.step(Event::ExecutePressed(Valve::Pilot));
    assert_eq!(
        get_url(&action).unwrap(),
        "http://padstation-prod.local:8000/pilot_valve/pilot_valve?state=open&timeout=5"
    );
    match action {
        Action::Get { then: FollowUp::ValveReply(valve, value), .. } => {
            assert_eq!(valve, Valve::Pilot);
            assert_eq!(value, "open");
            p.step(Event::ValveReplied(valve, value, Reply::Status(200)));
        }
        _ => panic!("expected a valve request"),
    }
    assert_eq!(p.pilot_state, ValveState::Open);
    assert_eq!(p.fill_state, ValveState::Unknown);
    assert_eq!(p.supply_state, ValveState::Unknown);
}

#[test]
fn fill_valve_closes_and_errors() {
    let mut p = Panel::new();
    p.step(Event::OptionSelected(Valve::Fill, "closed".to_string()));
    let action = p.step(Event::ExecutePressed(Valve::Fill));
    assert_eq!(get_url(&action).unwrap(), "http://padstation-prod.local:8000/valve/engine?state=closed");
    p.step(Event::ValveReplied(Valve::Fill, "closed".to_string(), Reply::Status(204)));
    assert_eq!(p.fill_state, ValveState::Close);
    p.step(Event::ValveReplied(Valve::Fill, "closed".to_string(), Reply::Status(500)));
    assert_eq!(p.fill_state, ValveState::Error);
    p.step(Event::ValveReplied(Valve::Fill, "open".to_string(), Reply::Status(200)));
    assert_eq!(p.fill_state, ValveState::Open);
    p.step(Event::ValveReplied(Valve::Fill, "open".to_string(), Reply::Failed));
    assert_eq!(p.fill_state, ValveState::Error);
}

#[test]
fn reply_uses_value_sent_not_current_choice() {
    let mut p = Panel::new();
    p.step(Event::OptionSelected(Valve::Supply, "open".to_string()));
    let action = p.step(Event::ExecutePressed(Valve::Supply));
    assert_eq!(get_url(&action).unwrap(), "http://padstation-prod.local:8000/valve/relief?state=open");
    p.step(Event::OptionSelected(Valve::Supply, "closed".to_string()));
    p.step(Event::ValveReplied(Valve::Supply, "open".to_string(), Reply::Status(200)));
    assert_eq!(p.supply_state, ValveState::Open);
    assert_eq!(p.selected_supply, "closed");
}

#[test]
fn execute_without_choice_does_nothing() {
    let mut p = Panel::new();
    assert!(matches!(p.step(Event::ExecutePressed(Valve::Fill)), Action::Nothing));
    assert!(matches!(p.step(Event::ExecutePressed(Valve::Pilot)), Action::Nothing));
    assert_eq!(p.fill_state, ValveState::Unknown);
}

#[test]
fn unknown_value_gives_unknown_state() {
    let mut p = Panel::new();
    p.step(Event::ValveReplied(Valve::Pilot, "half".to_string(), Reply::Status(200)));
    assert_eq!(p.pilot_state, ValveState::Unknown);
}

#[test]
fn logging_start_and_stop() {
    let mut p = Panel::new();
    let action = p.step(Event::StartLoggingPressed);
    assert!(p.is_logging);
    assert_eq!(get_url(&action).unwrap(), "http://padstation-prod.local:8000/log_data/start");
    assert!(matches!(action, Action::Get { then: FollowUp::LoggingStartReply, .. }));
    p.step(Event::LoggingStartReplied(Reply::Status(200)));
    assert!(p.is_logging);
    let action = p.step(Event::StopLoggingPressed);
    assert!(!p.is_logging);
    assert_eq!(get_url(&action).unwrap(), "http://padstation-prod.local:8000/log_data/stop");
    assert!(matches!(action, Action::Get { then: FollowUp::Ignore, .. }));
}

#[test]
fn logging_start_failure_turns_off() {
    let mut p = Panel::new();
    p.step(Event::StartLoggingPressed);
    p.step(Event::LoggingStartReplied(Reply::Status(503)));
    assert!(!p.is_logging);
    p.step(Event::StartLoggingPressed);
    p.step(Event::LoggingStartReplied(Reply::Failed));
    assert!(!p.is_logging);
}

#[test]
fn fire_commands_send_requests() {
    let mut p = Panel::new();
    let a = p.step(Event::IgnitePressed);
    assert_eq!(get_url(&a).unwrap(), "http://padstation-prod.local:8000/ignition?delay=1");
    let a = p.step(Event::FireQdPressed);
    assert_eq!(get_url(&a).unwrap(), "http://padstation-prod.local:8000/relays/qd");
    let a = p.step(Event::FireVentPressed);
    assert_eq!(get_url(&a).unwrap(), "http://padstation-prod.local:8000/relays/vent");
    assert!(matches!(a, Action::Get { then: FollowUp::Ignore, .. }));
    assert!(!p.is_logging);
}

#[test]
fn fill_stream_news() {
    let mut p = Panel::new();
    p.step(Event::FillStreamOpened);
    assert_eq!(p.fill_sse_status, "Connected");
    p.step(Event::FillStreamMessage(Some("42.7".to_string())));
    assert_eq!(p.fill_pt, "42.7");
    p.step(Event::FillStreamMessage(None));
    assert_eq!(p.fill_pt, "42.7");
    p.step(Event::FillStreamFailed);
    assert_eq!(p.fill_sse_status, "Error");
    assert_eq!(p.fill_pt, "42.7");
    assert_eq!(p.tank_pt, "");
    assert_eq!(p.supply_sse_status, "");
}
