//! Command-line arguments of the teleoperation tool.
//!
//! The grammar is small: every flag may appear at most once, the value
//! flags take the following argument as their value, and anything
//! unrecognized is rejected.  `parse_args_spec` is the meaning of a
//! whole command line; `from_iter_safe` is proved against it.

use vstd::prelude::*;
use crate::error::Error;

verus! {

/// An openrr teleoperation tool's arguments.
#[derive(Debug)]
pub struct RobotTeleopArgs {
    /// Path to the setting file.
    pub config_path: Option<String>,
    /// Options from the command line, overriding the setting file.
    pub teleop_config: Option<String>,
    /// Options from the command line, overriding the setting file.
    pub robot_config: Option<String>,
    /// Print the default setting instead of running.
    pub show_default_config: bool,
    /// Path to the log directory.
    pub log_directory: Option<String>,
}

/// The mathematical value of a parsed argument set.
pub struct TeleopArgsView {
    pub config_path: Option<Seq<char>>,
    pub teleop_config: Option<Seq<char>>,
    pub robot_config: Option<Seq<char>>,
    pub show_default_config: bool,
    pub log_directory: Option<Seq<char>>,
}

pub open spec fn empty_args_view() -> TeleopArgsView {
    TeleopArgsView {
        config_path: None,
        teleop_config: None,
        robot_config: None,
        show_default_config: false,
        log_directory: None,
    }
}

impl RobotTeleopArgs {
    pub open spec fn args_view(&self) -> TeleopArgsView {
        TeleopArgsView {
            config_path: match self.config_path {
                Some(s) => Some(s@),
                None => None,
            },
            teleop_config: match self.teleop_config {
                Some(s) => Some(s@),
                None => None,
            },
            robot_config: match self.robot_config {
                Some(s) => Some(s@),
                None => None,
            },
            show_default_config: self.show_default_config,
            log_directory: match self.log_directory {
                Some(s) => Some(s@),
                None => None,
            },
        }
    }
}

/// How parsing a command line ends: a parsed argument set, or the
/// offending argument of the first failure.
pub enum ArgsOutcome {
    Parsed(TeleopArgsView),
    Unknown(Seq<char>),
    MissingValue(Seq<char>),
    Duplicate(Seq<char>),
}

/// The meaning of the command line after the program name.
pub open spec fn parse_args_spec(args: Seq<Seq<char>>, acc: TeleopArgsView) -> ArgsOutcome
    decreases args.len(),
{
    if args.len() == 0 {
        ArgsOutcome::Parsed(acc)
    } else {
        let a = args[0];
        if a == "--show-default-config"@ {
            if acc.show_default_config {
                ArgsOutcome::Duplicate(a)
            } else {
                parse_args_spec(
                    args.drop_first(),
                    TeleopArgsView { show_default_config: true, ..acc },
                )
            }
        } else if a == "--config-path"@ || a == "-c"@ {
            if acc.config_path is Some {
                ArgsOutcome::Duplicate(a)
            } else if args.len() < 2 {
                ArgsOutcome::MissingValue(a)
            } else {
                parse_args_spec(args.skip(2), TeleopArgsView { config_path: Some(args[1]), ..acc })
            }
        } else if a == "--teleop-config"@ {
            if acc.teleop_config is Some {
                ArgsOutcome::Duplicate(a)
            } else if args.len() < 2 {
                ArgsOutcome::MissingValue(a)
            } else {
                parse_args_spec(
                    args.skip(2),
                    TeleopArgsView { teleop_config: Some(args[1]), ..acc },
                )
            }
        } else if a == "--robot-config"@ {
            if acc.robot_config is Some {
                ArgsOutcome::Duplicate(a)
            } else if args.len() < 2 {
                ArgsOutcome::MissingValue(a)
            } else {
                parse_args_spec(args.skip(2), TeleopArgsView { robot_config: Some(args[1]), ..acc })
            }
        } else if a == "--log-directory"@ {
            if acc.log_directory is Some {
                ArgsOutcome::Duplicate(a)
            } else if args.len() < 2 {
                ArgsOutcome::MissingValue(a)
            } else {
                parse_args_spec(
                    args.skip(2),
                    TeleopArgsView { log_directory: Some(args[1]), ..acc },
                )
            }
        } else {
            ArgsOutcome::Unknown(a)
        }
    }
}

/// The command line after the program name, as text.
pub open spec fn tail_views(args: Seq<String>) -> Seq<Seq<char>> {
    if args.len() == 0 {
        Seq::empty()
    } else {
        args.drop_first().map_values(|s: String| s@)
    }
}

fn arg_is(a: &String, literal: &str) -> (r: bool)
    ensures
        r == (a@ == literal@),
{
    let l = literal.to_owned();
    *a == l
}

impl RobotTeleopArgs {
    /// Parses a full command line, program name first, reporting the
    /// first unrecognized argument, missing value or repeated flag
    /// instead of exiting.
    pub fn from_iter_safe(args: &Vec<String>) -> (r: Result<RobotTeleopArgs, Error>)
        ensures
            parse_args_spec(tail_views(args@), empty_args_view()) matches ArgsOutcome::Parsed(v)
                ==> (r matches Ok(a) && a.args_view() == v),
            parse_args_spec(tail_views(args@), empty_args_view()) matches ArgsOutcome::Unknown(u)
                ==> (r matches Err(e) && e matches Error::UnknownArgument(s) && s@ == u),
            parse_args_spec(tail_views(args@), empty_args_view()) matches
                ArgsOutcome::MissingValue(u) ==> (r matches Err(e) && e matches
                Error::MissingArgumentValue(s) && s@ == u),
            parse_args_spec(tail_views(args@), empty_args_view()) matches ArgsOutcome::Duplicate(u)
                ==> (r matches Err(e) && e matches Error::DuplicateArgument(s) && s@ == u),
    {
        let ghost whole = tail_views(args@);
        let mut acc = RobotTeleopArgs {
            config_path: None,
            teleop_config: None,
            robot_config: None,
            show_default_config: false,
            log_directory: None,
        };
        if args.len() == 0 {
            return Ok(acc);
        }
        let mut i: usize = 1;
        proof {
            assert(whole.skip(0) =~= whole);
            assert(acc.args_view() == empty_args_view());
        }
        while i < args.len()
            invariant
                whole == tail_views(args@),
                1 <= i <= args.len(),
                parse_args_spec(whole, empty_args_view()) == parse_args_spec(
                    whole.skip(i - 1),
                    acc.args_view(),
                ),
            decreases args.len() - i,
        {
            let ghost rem = whole.skip(i - 1);
            proof {
                assert(rem.len() == args@.len() - i);
                assert(rem[0] == args@[i as int]@);
            }
            let a = &args[i];
            if arg_is(a, "--show-default-config") {
                if acc.show_default_config {
                    return Err(Error::DuplicateArgument(a.clone()));
                }
                acc.show_default_config = true;
                i = i + 1;
                proof {
                    assert(rem.drop_first() =~= whole.skip(i - 1));
                }
            } else if arg_is(a, "--config-path") || arg_is(a, "-c") {
                if acc.config_path.is_some() {
                    return Err(Error::DuplicateArgument(a.clone()));
                }
                if i + 1 >= args.len() {
                    return Err(Error::MissingArgumentValue(a.clone()));
                }
                proof {
                    assert(rem[1] == args@[i + 1]@);
                }
                acc.config_path = Some(args[i + 1].clone());
                i = i + 2;
                proof {
                    assert(rem.skip(2) =~= whole.skip(i - 1));
                }
            } else if arg_is(a, "--teleop-config") {
                if acc.teleop_config.is_some() {
                    return Err(Error::DuplicateArgument(a.clone()));
                }
                if i + 1 >= args.len() {
                    return Err(Error::MissingArgumentValue(a.clone()));
                }
                proof {
                    assert(rem[1] == args@[i + 1]@);
                }
                acc.teleop_config = Some(args[i + 1].clone());
                i = i + 2;
                proof {
                    assert(rem.skip(2) =~= whole.skip(i - 1));
                }
            } else if arg_is(a, "--robot-config") {
                if acc.robot_config.is_some() {
                    return Err(Error::DuplicateArgument(a.clone()));
                }
                if i + 1 >= args.len() {
                    return Err(Error::MissingArgumentValue(a.clone()));
                }
                proof {
                    assert(rem[1] == args@[i + 1]@);
                }
                acc.robot_config = Some(args[i + 1].clone());
                i = i + 2;
                proof {
                    assert(rem.skip(2) =~= whole.skip(i - 1));
                }
            } else if arg_is(a, "--log-directory") {
                if acc.log_directory.is_some() {
                    return Err(Error::DuplicateArgument(a.clone()));
                }
                if i + 1 >= args.len() {
                    return Err(Error::MissingArgumentValue(a.clone()));
                }
                proof {
                    assert(rem[1] == args@[i + 1]@);
                }
                acc.log_directory = Some(args[i + 1].clone());
                i = i + 2;
                proof {
                    assert(rem.skip(2) =~= whole.skip(i - 1));
                }
            } else {
                return Err(Error::UnknownArgument(a.clone()));
            }
        }
        proof {
            assert(whole.skip(i - 1) =~= Seq::<Seq<char>>::empty());
        }
        Ok(acc)
    }
}

} // verus!
