use vstd::prelude::*;

verus! {

/// The fixed set of capability contracts a plugin may implement.
#[derive(Clone, Copy, PartialEq, Eq, Structural, Debug)]
pub enum CapabilityKind {
    Gamepad,
    JointTrajectoryClient,
    Speaker,
    MoveBase,
    Navigation,
    Localization,
    TransformResolver,
}

/// Errors raised by the teleoperation runtime and by capability calls.
///
/// A capability error always names the capability kind (and, for plugin
/// construction, the plugin) so that a caller can report a useful
/// diagnostic.
#[derive(PartialEq, Eq, Debug)]
pub enum Error {
    /// A control node switcher needs at least one node.
    NoControlNodes,
    /// No control node carries the requested initial mode name.
    NoSpecifiedNode(String),
    /// A plugin attempted to construct a capability and failed.
    PluginConstruction { kind: CapabilityKind, plugin: String, message: String },
    /// A capability operation failed at call time.
    CapabilityCall { kind: CapabilityKind, message: String },
    /// A joint position vector must be exactly as long as the joint name list.
    JointCountMismatch { expected: usize, actual: usize },
    /// Command line: an argument that is not recognized.
    UnknownArgument(String),
    /// Command line: a flag that takes a value stood last.
    MissingArgumentValue(String),
    /// Command line: a flag was given twice.
    DuplicateArgument(String),
}

/// Errors from loading a plugin module.  Each is fatal to the one load
/// attempt and leaves the process able to continue without the plugin.
#[derive(Clone, Copy, PartialEq, Eq, Structural, Debug)]
pub enum LoadError {
    /// The path does not resolve to a loadable module.
    NotFound,
    /// The module's exported layout token differs from the layout the
    /// host expects, so no exported function may be called.
    AbiMismatch,
    /// The module lacks a well-formed root export.
    MalformedRootExport,
}

} // verus!
