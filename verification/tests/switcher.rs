use robot_teleop::error::Error;
use robot_teleop::gamepad::{Axis, Button, GamepadEvent, ScriptedGamepad};
use robot_teleop::speaker::{FailingSpeaker, RecordingSpeaker};
use robot_teleop::switcher::{resolve_initial_index, ControlNodeSwitcher, RecordingNode};

fn nodes_abc() -> Vec<RecordingNode> {
    vec![
        RecordingNode::new("A".to_string(), "".to_string()),
        RecordingNode::new("B".to_string(), "1".to_string()),
        RecordingNode::new("C".to_string(), "".to_string()),
    ]
}

#[test]
fn increment_mode_round_trip() {
    let mut switcher = ControlNodeSwitcher::new(nodes_abc(), RecordingSpeaker::new(), 1).unwrap();
    assert_eq!(switcher.current_index(), 1);
    switcher.increment_mode().unwrap();
    assert_eq!(switcher.current_index(), 2);
    switcher.increment_mode().unwrap();
    assert_eq!(switcher.current_index(), 0);
    switcher.increment_mode().unwrap();
    assert_eq!(switcher.current_index(), 1);
}

#[test]
fn zero_nodes_always_fail() {
    let r = ControlNodeSwitcher::<RecordingNode, RecordingSpeaker>::new(
        Vec::new(),
        RecordingSpeaker::new(),
        0,
    );
    assert!(matches!(r, Err(Error::NoControlNodes)));
}

#[test]
fn speak_current_mode_announces_mode_and_submode() {
    let mut switcher = ControlNodeSwitcher::new(nodes_abc(), RecordingSpeaker::new(), 1).unwrap();
    switcher.speak_current_mode().unwrap();
    assert_eq!(switcher.speaker().spoken, vec!["B1".to_string()]);
    switcher.speak_current_mode().unwrap();
    assert_eq!(switcher.speaker().spoken, vec!["B1".to_string(), "B1".to_string()]);
}

#[test]
fn increment_mode_announces_new_mode() {
    let mut switcher = ControlNodeSwitcher::new(nodes_abc(), RecordingSpeaker::new(), 0).unwrap();
    switcher.increment_mode().unwrap();
    assert_eq!(switcher.speaker().spoken, vec!["B1".to_string()]);
}

#[test]
fn switcher_scenario() {
    let axis = GamepadEvent::AxisChanged(Axis::LeftStickX, (0.5f64).to_bits());
    let mut gamepad = ScriptedGamepad::new(vec![
        GamepadEvent::ButtonPressed(Button::North),
        axis,
        GamepadEvent::ButtonPressed(Button::North),
        GamepadEvent::Unknown,
    ]);
    let mut switcher = ControlNodeSwitcher::new(nodes_abc(), RecordingSpeaker::new(), 0).unwrap();
    switcher.main(&mut gamepad).unwrap();
    assert_eq!(
        switcher.speaker().spoken,
        vec!["A".to_string(), "B1".to_string(), "C".to_string()]
    );
    assert_eq!(switcher.node(0).received, Vec::<GamepadEvent>::new());
    assert_eq!(switcher.node(1).received, vec![axis]);
    assert_eq!(switcher.node(2).received, Vec::<GamepadEvent>::new());
    assert!(!switcher.is_running());
    assert_eq!(gamepad.stop_count, 1);
    assert_eq!(switcher.current_index(), 2);
}

#[test]
fn unknown_event_stops_run_and_stops_gamepad_once() {
    let mut gamepad = ScriptedGamepad::new(vec![
        GamepadEvent::ButtonPressed(Button::South),
        GamepadEvent::Unknown,
        GamepadEvent::ButtonPressed(Button::North),
    ]);
    let mut switcher = ControlNodeSwitcher::new(nodes_abc(), RecordingSpeaker::new(), 0).unwrap();
    switcher.main(&mut gamepad).unwrap();
    assert!(!switcher.is_running());
    assert_eq!(gamepad.stop_count, 1);
    assert_eq!(switcher.speaker().spoken, vec!["A".to_string()]);
    assert_eq!(
        switcher.node(0).received,
        vec![GamepadEvent::ButtonPressed(Button::South)]
    );
    assert_eq!(gamepad.cursor, 2);
}

#[test]
fn exhausted_gamepad_reports_sentinel_and_run_ends() {
    let mut gamepad = ScriptedGamepad::new(Vec::new());
    let mut switcher = ControlNodeSwitcher::new(nodes_abc(), RecordingSpeaker::new(), 0).unwrap();
    switcher.main(&mut gamepad).unwrap();
    assert!(!switcher.is_running());
    assert_eq!(gamepad.stop_count, 1);
    assert_eq!(switcher.speaker().spoken, vec!["A".to_string()]);
}

#[test]
fn tick_runs_only_while_running() {
    let mut switcher = ControlNodeSwitcher::new(nodes_abc(), RecordingSpeaker::new(), 0).unwrap();
    switcher.tick_once();
    assert_eq!(switcher.node(0).ticks, 0);
}

#[test]
fn resolve_initial_index_empty_mode_selects_first() {
    let nodes = nodes_abc();
    assert_eq!(resolve_initial_index(&nodes, &"".to_string()).unwrap(), 0);
}

#[test]
fn resolve_initial_index_finds_mode() {
    let nodes = nodes_abc();
    assert_eq!(resolve_initial_index(&nodes, &"B".to_string()).unwrap(), 1);
}

#[test]
fn resolve_initial_index_unknown_mode() {
    let nodes = nodes_abc();
    let r = resolve_initial_index(&nodes, &"Z".to_string());
    assert!(matches!(r, Err(Error::NoSpecifiedNode(m)) if m == "Z"));
}

#[test]
fn stop_clears_running_flag() {
    let mut switcher = ControlNodeSwitcher::new(nodes_abc(), RecordingSpeaker::new(), 0).unwrap();
    assert!(!switcher.is_running());
    switcher.stop();
    assert!(!switcher.is_running());
}

#[test]
fn increment_mode_advances_even_when_announcement_fails() {
    let mut switcher = ControlNodeSwitcher::new(nodes_abc(), FailingSpeaker::new(), 0).unwrap();
    let r = switcher.increment_mode();
    assert!(matches!(
        r,
        Err(Error::CapabilityCall { kind: robot_teleop::error::CapabilityKind::Speaker, .. })
    ));
    assert_eq!(switcher.current_index(), 1);
}

#[test]
fn main_aborts_on_failed_announcement_but_still_stops_gamepad() {
    let mut gamepad = ScriptedGamepad::new(vec![GamepadEvent::ButtonPressed(Button::North)]);
    let mut switcher = ControlNodeSwitcher::new(nodes_abc(), FailingSpeaker::new(), 0).unwrap();
    let r = switcher.main(&mut gamepad);
    assert!(r.is_err());
    assert!(!switcher.is_running());
    assert_eq!(gamepad.stop_count, 1);
}
