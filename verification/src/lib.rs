//! A plugin-hosted robot teleoperation core.
//!
//! The crate has two halves.  The plugin half loads separately built
//! capability modules across a layout-checked boundary and hands out
//! capability proxies that marshal every argument and result through
//! ABI-stable representations.  The teleoperation half owns an ordered
//! list of control nodes and cycles through them under gamepad input,
//! announcing every mode change through a speaker.

pub mod abi_marshal;
pub mod duration;
pub mod error;
pub mod gamepad;
pub mod joint_trajectory;
pub mod move_base;
pub mod navigation;
pub mod plugin;
pub mod speaker;
pub mod switcher;
pub mod teleop_args;
