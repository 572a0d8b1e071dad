use robot_teleop::duration::Duration;
use robot_teleop::gamepad::{Axis, Button, Gamepad, GamepadEvent, GamepadProxy, ScriptedGamepad};
use robot_teleop::joint_trajectory::{
    DummyJointTrajectoryClient, JointTrajectoryClient, JointTrajectoryClientProxy, TrajectoryPoint,
};
use robot_teleop::move_base::{BaseVelocity, DummyMoveBase, MoveBase, MoveBaseProxy};
use robot_teleop::navigation::{
    DummyLocalization, DummyNavigation, DummyTransformResolver, Localization, LocalizationProxy,
    Navigation, NavigationProxy, Pose, TransformResolver, TransformResolverProxy,
};
use robot_teleop::speaker::{RecordingSpeaker, Speaker, SpeakerProxy};

fn bits(values: &[f64]) -> Vec<u64> {
    let mut v = Vec::new();
    for x in values {
        v.push(x.to_bits());
    }
    v
}

#[test]
fn joint_trajectory_client() {
    let client = DummyJointTrajectoryClient::new(vec!["a".to_string(), "b".to_string()]);
    let mut proxy = JointTrajectoryClientProxy::new(client);

    assert_eq!(proxy.joint_names(), vec!["a".to_string(), "b".to_string()]);
    // Fresh clients report every joint at position zero, through both
    // the direct implementation handle and the proxy handle.
    assert_eq!(proxy.inner.current_joint_positions().unwrap(), bits(&[0.0, 0.0]));
    assert_eq!(proxy.current_joint_positions().unwrap(), bits(&[0.0, 0.0]));

    proxy
        .send_joint_positions(bits(&[1.0, 2.0]), Duration::from_secs(1))
        .unwrap();
    assert_eq!(proxy.inner.current_joint_positions().unwrap(), bits(&[1.0, 2.0]));
    assert_eq!(proxy.current_joint_positions().unwrap(), bits(&[1.0, 2.0]));

    proxy
        .send_joint_trajectory(vec![
            TrajectoryPoint {
                positions: bits(&[1.0, -1.0]),
                velocities: None,
                time_from_start: Duration::from_secs(1),
            },
            TrajectoryPoint {
                positions: bits(&[2.0, -3.0]),
                velocities: None,
                time_from_start: Duration::from_secs(2),
            },
        ])
        .unwrap();
    assert_eq!(proxy.inner.last_trajectory.len(), 2);
    assert_eq!(proxy.inner.current_joint_positions().unwrap(), bits(&[2.0, -3.0]));
    assert_eq!(proxy.current_joint_positions().unwrap(), bits(&[2.0, -3.0]));
}

#[test]
fn joint_count_mismatch_is_reported() {
    let client = DummyJointTrajectoryClient::new(vec!["a".to_string(), "b".to_string()]);
    let mut proxy = JointTrajectoryClientProxy::new(client);
    let r = proxy.send_joint_positions(bits(&[1.0]), Duration::from_secs(1));
    assert!(matches!(
        r,
        Err(robot_teleop::error::Error::JointCountMismatch { expected: 2, actual: 1 })
    ));
    // A rejected command leaves the committed positions alone.
    assert_eq!(proxy.current_joint_positions().unwrap(), bits(&[0.0, 0.0]));
}

#[test]
fn speaker() {
    let mut proxy = SpeakerProxy::new(RecordingSpeaker::new());
    assert_eq!(proxy.inner.spoken, Vec::<String>::new());
    proxy.speak("abc").unwrap();
    assert_eq!(proxy.inner.spoken, vec!["abc".to_string()]);
}

#[test]
fn move_base() {
    let mut proxy = MoveBaseProxy::new(DummyMoveBase::new());

    let vel1 = proxy.current_velocity().unwrap();
    assert_eq!(vel1, BaseVelocity { x: (0.0f64).to_bits(), y: (0.0f64).to_bits(), theta: (0.0f64).to_bits() });
    let sent = BaseVelocity {
        x: (0.1f64).to_bits(),
        y: (0.2f64).to_bits(),
        theta: (-3.0f64).to_bits(),
    };
    proxy.send_velocity(&sent).unwrap();
    assert_eq!(proxy.inner.current_velocity().unwrap(), sent);
    assert_eq!(proxy.current_velocity().unwrap(), sent);
}

#[test]
fn navigation() {
    let mut proxy = NavigationProxy::new(DummyNavigation::new());
    let goal = Pose {
        x: (1.0f64).to_bits(),
        y: (2.0f64).to_bits(),
        theta: (3.0f64).to_bits(),
    };
    proxy.send_goal_pose(goal, "map", Duration::new(0, 0)).unwrap();
    let (stored, frame) = proxy.inner.goal.clone().unwrap();
    assert_eq!(stored, goal);
    assert_eq!(frame, "map");
    proxy.cancel().unwrap();
    assert!(proxy.inner.goal.is_none());
}

#[test]
fn localization() {
    let proxy = LocalizationProxy::new(DummyLocalization::new(Pose::origin()));
    let pose = proxy.current_pose("").unwrap();
    assert_eq!(pose, Pose::origin());
}

#[test]
fn transform_resolver() {
    let proxy = TransformResolverProxy::new(DummyTransformResolver::new(Pose::origin()));
    let transformation = proxy.resolve_transformation("", "", Duration::new(0, 0)).unwrap();
    assert_eq!(transformation, Pose::origin());
}

#[test]
fn gamepad() {
    let events = vec![
        GamepadEvent::ButtonPressed(Button::South),
        GamepadEvent::ButtonReleased(Button::West),
        GamepadEvent::AxisChanged(Axis::RightStickY, (0.25f64).to_bits()),
    ];
    let mut proxy = GamepadProxy::new(ScriptedGamepad::new(events.clone()));
    for expected in &events {
        let actual = proxy.next_event();
        assert_eq!(*expected, actual, "event mismatch, expected: {:?}, actual: {:?}", expected, actual);
    }
    // An exhausted source reports the sentinel.
    assert_eq!(proxy.next_event(), GamepadEvent::Unknown);
    proxy.stop();
    assert_eq!(proxy.inner.stop_count, 1);
}
