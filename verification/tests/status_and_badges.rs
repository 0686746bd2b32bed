use fill_box_control::badge::{badge_style, logging_badge, reading_text, stream_badge, valve_badge};
use fill_box_control::endpoints::{command_path, command_url, fill_stream_url, valve_url, Command, Valve, BASE_URL};
use fill_box_control::reply::Reply;
use fill_box_control::{color_map, map_to_valve_state, valve_actions, ConnectionStatus, ValveState};

#[test]
fn command_values_map_to_states() {
    assert_eq!(map_to_valve_state("open"), ValveState::Open);
    assert_eq!(map_to_valve_state("closed"), ValveState::Close);
    assert_eq!(map_to_valve_state("close"), ValveState::Unknown);
    assert_eq!(map_to_valve_state("Open"), ValveState::Unknown);
    assert_eq!(map_to_valve_state(""), ValveState::Unknown);
}

#[test]
fn colors_of_labels() {
    assert_eq!(color_map("Connected"), "green");
    assert_eq!(color_map("Error"), "red");
    assert_eq!(color_map("Unknown"), "gray");
    assert_eq!(color_map("Open"), "green");
    assert_eq!(color_map("Close"), "red");
    assert_eq!(color_map("\"Connected\""), "gray");
    assert_eq!(color_map(""), "gray");
}

#[test]
fn labels_and_defaults() {
    assert_eq!(ConnectionStatus::Connected.label(), "Connected");
    assert_eq!(ConnectionStatus::Error.label(), "Error");
    assert_eq!(ConnectionStatus::Unknown.label(), "Unknown");
    assert_eq!(ConnectionStatus::default(), ConnectionStatus::Unknown);
    assert_eq!(ValveState::Open.label(), "Open");
    assert_eq!(ValveState::Close.label(), "Close");
    assert_eq!(ValveState::Error.label(), "Error");
    assert_eq!(ValveState::Unknown.label(), "Unknown");
    assert_eq!(ValveState::default(), ValveState::Unknown);
}

#[test]
fn offered_actions_name_their_states() {
    let actions = valve_actions();
    assert_eq!(actions.len(), 2);
    assert_eq!(actions[0], ("open".to_string(), "Open".to_string()));
    assert_eq!(actions[1], ("closed".to_string(), "Close".to_string()));
    for (value, name) in actions.iter() {
        assert_eq!(map_to_valve_state(value).label(), name.as_str());
    }
}

#[test]
fn state_colors_follow_labels() {
    assert_eq!(color_map(ValveState::Open.label()), "green");
    assert_eq!(color_map(ValveState::Close.label()), "red");
    assert_eq!(color_map(ValveState::Error.label()), "red");
    assert_eq!(color_map(ValveState::Unknown.label()), "gray");
    assert_eq!(color_map(ConnectionStatus::Connected.label()), "green");
    assert_eq!(color_map(ConnectionStatus::Error.label()), "red");
    assert_eq!(color_map(ConnectionStatus::Unknown.label()), "gray");
}

#[test]
fn valve_urls() {
    let base = "http://station:8000";
    assert_eq!(valve_url(base, Valve::Fill, "open"), "http://station:8000/valve/engine?state=open");
    assert_eq!(valve_url(base, Valve::Supply, "closed"), "http://station:8000/valve/relief?state=closed");
    assert_eq!(
        valve_url(base, Valve::Pilot, "open"),
        "http://station:8000/pilot_valve/pilot_valve?state=open&timeout=5"
    );
}

#[test]
fn command_urls() {
    assert_eq!(command_path(Command::Ignite), "/ignition?delay=1");
    assert_eq!(command_url(BASE_URL, Command::StartLogging), "http://padstation-prod.local:8000/log_data/start");
    assert_eq!(command_url(BASE_URL, Command::StopLogging), "http://padstation-prod.local:8000/log_data/stop");
    assert_eq!(command_url(BASE_URL, Command::Ignite), "http://padstation-prod.local:8000/ignition?delay=1");
    assert_eq!(command_url(BASE_URL, Command::FireQd), "http://padstation-prod.local:8000/relays/qd");
    assert_eq!(command_url(BASE_URL, Command::FireVent), "http://padstation-prod.local:8000/relays/vent");
    assert_eq!(fill_stream_url(BASE_URL), "http://padstation-prod.local:8000/pressure/fill/datastream");
}

#[test]
fn reply_success_class() {
    assert!(!Reply::Failed.succeeded());
    assert!(Reply::Status(200).succeeded());
    assert!(Reply::Status(204).succeeded());
    assert!(Reply::Status(299).succeeded());
    assert!(!Reply::Status(199).succeeded());
    assert!(!Reply::Status(300).succeeded());
    assert!(!Reply::Status(404).succeeded());
    assert!(!Reply::Status(500).succeeded());
    assert!(!Reply::Status(100).succeeded());
    assert!(!Reply::Status(999).succeeded());
}

#[test]
fn stream_badges_follow_status() {
    let b = stream_badge("Fill Pressure SSE: ", ConnectionStatus::Connected.label());
    assert_eq!(b.text, "Fill Pressure SSE: \"Connected\"");
    assert_eq!(b.color, "green");
    let b = stream_badge("Supply Pressure SSE: ", ConnectionStatus::Error.label());
    assert_eq!(b.text, "Supply Pressure SSE: \"Error\"");
    assert_eq!(b.color, "red");
    let b = stream_badge("Tank Pressure SSE: ", "");
    assert_eq!(b.text, "Tank Pressure SSE: \"\"");
    assert_eq!(b.color, "gray");
}

#[test]
fn valve_and_logging_badges() {
    let b = valve_badge(ValveState::Open);
    assert_eq!(b.text, "Open");
    assert_eq!(b.color, "green");
    let b = valve_badge(ValveState::Error);
    assert_eq!(b.text, "Error");
    assert_eq!(b.color, "red");
    let b = valve_badge(ValveState::Unknown);
    assert_eq!(b.text, "Unknown");
    assert_eq!(b.color, "gray");
    let b = logging_badge(true);
    assert_eq!(b.text, "Active");
    assert_eq!(b.color, "green");
    let b = logging_badge(false);
    assert_eq!(b.text, "Inactive");
    assert_eq!(b.color, "red");
}

#[test]
fn styles_and_readings() {
    assert_eq!(badge_style("green"), "background-color: green; color: white;");
    assert_eq!(reading_text("12.5", "Bar"), "12.5 Bar");
    assert_eq!(reading_text("", "N"), " N");
    assert_eq!(reading_text("21", "°C"), "21 °C");
}
