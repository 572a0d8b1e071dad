use robot_teleop::error::Error;
use robot_teleop::teleop_args::RobotTeleopArgs;

fn strs(args: &[&str]) -> Vec<String> {
    let mut v = Vec::new();
    for a in args {
        v.push(a.to_string());
    }
    v
}

#[test]
fn parse_args() {
    let bin = "openrr_apps_robot_teleop";
    assert!(RobotTeleopArgs::from_iter_safe(&strs(&[bin])).is_ok());
    assert!(RobotTeleopArgs::from_iter_safe(&strs(&[bin, "--show-default-config"])).is_ok());
    assert!(RobotTeleopArgs::from_iter_safe(&strs(&[bin, "--config-path", "path"])).is_ok());
    assert!(RobotTeleopArgs::from_iter_safe(&strs(&[
        bin,
        "--show-default-config",
        "--config-path",
        "path"
    ]))
    .is_ok());
}

#[test]
fn parse_args_values() {
    let args = RobotTeleopArgs::from_iter_safe(&strs(&[
        "bin",
        "--config-path",
        "conf.toml",
        "--teleop-config",
        "t",
        "--robot-config",
        "r",
        "--log-directory",
        "logs",
    ]))
    .unwrap();
    assert_eq!(args.config_path.as_deref(), Some("conf.toml"));
    assert_eq!(args.teleop_config.as_deref(), Some("t"));
    assert_eq!(args.robot_config.as_deref(), Some("r"));
    assert_eq!(args.log_directory.as_deref(), Some("logs"));
    assert!(!args.show_default_config);
}

#[test]
fn parse_args_short_flag() {
    let args = RobotTeleopArgs::from_iter_safe(&strs(&["bin", "-c", "conf.toml"])).unwrap();
    assert_eq!(args.config_path.as_deref(), Some("conf.toml"));
}

#[test]
fn parse_args_unknown_argument() {
    let r = RobotTeleopArgs::from_iter_safe(&strs(&["bin", "--frobnicate"]));
    assert!(matches!(r, Err(Error::UnknownArgument(a)) if a == "--frobnicate"));
}

#[test]
fn parse_args_missing_value() {
    let r = RobotTeleopArgs::from_iter_safe(&strs(&["bin", "--config-path"]));
    assert!(matches!(r, Err(Error::MissingArgumentValue(a)) if a == "--config-path"));
}

#[test]
fn parse_args_duplicate_flag() {
    let r = RobotTeleopArgs::from_iter_safe(&strs(&["bin", "-c", "one", "--config-path", "two"]));
    assert!(matches!(r, Err(Error::DuplicateArgument(a)) if a == "--config-path"));
}
