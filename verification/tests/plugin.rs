use robot_teleop::duration::Duration;
use robot_teleop::error::{CapabilityKind, Error, LoadError};
use robot_teleop::joint_trajectory::JointTrajectoryClient;
use robot_teleop::gamepad::{Button, Gamepad, GamepadEvent};
use robot_teleop::navigation::Pose;
use robot_teleop::plugin::{CapabilityFactory, PluginModule, PluginProxy};

const HOST_LAYOUT_TOKEN: u64 = 0x6f70_656e_7272_0001;

fn sample_instance() -> PluginProxy {
    PluginProxy {
        name: "sample".to_string(),
        gamepad: CapabilityFactory::Provides(vec![
            GamepadEvent::ButtonPressed(Button::South),
            GamepadEvent::ButtonReleased(Button::South),
        ]),
        joint_trajectory_client: CapabilityFactory::Provides(vec![
            "a".to_string(),
            "b".to_string(),
        ]),
        speaker: CapabilityFactory::Provides(()),
        move_base: CapabilityFactory::NotSupported,
        navigation: CapabilityFactory::Fails("no map loaded".to_string()),
        localization: CapabilityFactory::Provides(Pose { x: 1, y: 2, theta: 3 }),
        transform_resolver: CapabilityFactory::NotSupported,
    }
}

fn sample_module() -> PluginModule {
    PluginModule {
        layout_token: HOST_LAYOUT_TOKEN,
        root: Some(sample_instance()),
        constructed: 0,
    }
}

#[test]
fn load_rejects_layout_mismatch() {
    let mut module = sample_module();
    module.layout_token = HOST_LAYOUT_TOKEN ^ 1;
    let r = PluginProxy::from_module(&mut module, HOST_LAYOUT_TOKEN);
    assert!(matches!(r, Err(LoadError::AbiMismatch)));
    // The constructor must not have been invoked.
    assert_eq!(module.constructed, 0);
}

#[test]
fn load_rejects_malformed_root() {
    let mut module = sample_module();
    module.root = None;
    let r = PluginProxy::from_module(&mut module, HOST_LAYOUT_TOKEN);
    assert!(matches!(r, Err(LoadError::MalformedRootExport)));
    assert_eq!(module.constructed, 0);
}

#[test]
fn load_invokes_constructor_exactly_once() {
    let mut module = sample_module();
    let plugin = PluginProxy::from_module(&mut module, HOST_LAYOUT_TOKEN).unwrap();
    assert_eq!(module.constructed, 1);
    assert_eq!(plugin.name(), "sample");
    let again = PluginProxy::from_module(&mut module, HOST_LAYOUT_TOKEN).unwrap();
    assert_eq!(module.constructed, 2);
    assert_eq!(again.name(), "sample");
}

#[test]
fn unsupported_kind_is_none_not_error() {
    let plugin = sample_instance();
    let r = plugin.new_move_base(String::new()).unwrap();
    assert!(r.is_none());
    let r = plugin.new_transform_resolver(String::new()).unwrap();
    assert!(r.is_none());
}

#[test]
fn failed_construction_names_kind_and_plugin() {
    let plugin = sample_instance();
    let r = plugin.new_navigation(String::new());
    match r {
        Err(Error::PluginConstruction { kind, plugin: plugin_name, message }) => {
            assert_eq!(kind, CapabilityKind::Navigation);
            assert_eq!(plugin_name, "sample");
            assert_eq!(message, "no map loaded");
        }
        other => panic!("expected a construction error, got {:?}", other.map(|_| ())),
    }
}

#[test]
fn constructed_gamepad_replays_plugin_events() {
    let plugin = sample_instance();
    let mut pad = plugin.new_gamepad(String::new()).unwrap().unwrap();
    assert_eq!(pad.next_event(), GamepadEvent::ButtonPressed(Button::South));
    assert_eq!(pad.next_event(), GamepadEvent::ButtonReleased(Button::South));
    assert_eq!(pad.next_event(), GamepadEvent::Unknown);
}

#[test]
fn constructed_capabilities_are_independent() {
    let plugin = sample_instance();
    let mut first = plugin.new_joint_trajectory_client(String::new()).unwrap().unwrap();
    first
        .send_joint_positions(vec![(1.0f64).to_bits(), (2.0f64).to_bits()], Duration::from_secs(1))
        .unwrap();
    let second = plugin.new_joint_trajectory_client(String::new()).unwrap().unwrap();
    assert_eq!(second.current_joint_positions().unwrap(), vec![0, 0]);
    assert_eq!(
        first.current_joint_positions().unwrap(),
        vec![(1.0f64).to_bits(), (2.0f64).to_bits()]
    );
}
