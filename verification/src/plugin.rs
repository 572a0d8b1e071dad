//! The plugin side of the capability system.
//!
//! A plugin module is a separately built, dynamically loadable unit
//! that embeds a layout token describing the memory layout of every
//! type it exposes, and exports exactly one root: a constructor that
//! yields a plugin instance.  The loader checks the token against the
//! layout the host expects before the constructor — or any other
//! exported function — may run; a module built against an incompatible
//! layout is rejected without ever being entered.
//!
//! A loaded plugin instance names itself and constructs capabilities on
//! request from an opaque configuration blob, answering for each kind
//! with a proxy, with "not supported", or with a construction error.

use vstd::prelude::*;
use crate::abi_marshal::marshal_text;
use crate::error::{CapabilityKind, Error, LoadError};
use crate::gamepad::{Gamepad, GamepadEvent, GamepadProxy, ScriptedGamepad};
use crate::joint_trajectory::{
    DummyJointTrajectoryClient,
    JointTrajectoryClient,
    JointTrajectoryClientProxy,
};
use crate::move_base::{DummyMoveBase, MoveBase, MoveBaseProxy};
use crate::navigation::{
    DummyLocalization,
    DummyNavigation,
    DummyTransformResolver,
    Localization,
    LocalizationProxy,
    Navigation,
    NavigationProxy,
    Pose,
    TransformResolver,
    TransformResolverProxy,
};
use crate::speaker::{RecordingSpeaker, Speaker, SpeakerProxy};

verus! {

/// How a plugin answers a request to construct one capability kind:
/// it does not implement the kind at all, it implements it but
/// construction fails with a message, or it provides an implementation
/// built from the given seed data.
#[derive(Debug)]
pub enum CapabilityFactory<B> {
    NotSupported,
    Fails(String),
    Provides(B),
}

/// The mathematical value of a factory.
pub enum FactoryState<V> {
    NotSupported,
    Fails(Seq<char>),
    Provides(V),
}

pub open spec fn event_factory_view(f: CapabilityFactory<Vec<GamepadEvent>>) -> FactoryState<
    Seq<GamepadEvent>,
> {
    match f {
        CapabilityFactory::NotSupported => FactoryState::NotSupported,
        CapabilityFactory::Fails(m) => FactoryState::Fails(m@),
        CapabilityFactory::Provides(v) => FactoryState::Provides(v@),
    }
}

pub open spec fn names_factory_view(f: CapabilityFactory<Vec<String>>) -> FactoryState<
    Seq<Seq<char>>,
> {
    match f {
        CapabilityFactory::NotSupported => FactoryState::NotSupported,
        CapabilityFactory::Fails(m) => FactoryState::Fails(m@),
        CapabilityFactory::Provides(v) => FactoryState::Provides(v@.map_values(|s: String| s@)),
    }
}

pub open spec fn unit_factory_view(f: CapabilityFactory<()>) -> FactoryState<()> {
    match f {
        CapabilityFactory::NotSupported => FactoryState::NotSupported,
        CapabilityFactory::Fails(m) => FactoryState::Fails(m@),
        CapabilityFactory::Provides(v) => FactoryState::Provides(()),
    }
}

pub open spec fn pose_factory_view(f: CapabilityFactory<Pose>) -> FactoryState<Pose> {
    match f {
        CapabilityFactory::NotSupported => FactoryState::NotSupported,
        CapabilityFactory::Fails(m) => FactoryState::Fails(m@),
        CapabilityFactory::Provides(p) => FactoryState::Provides(p),
    }
}

fn clone_event_factory(f: &CapabilityFactory<Vec<GamepadEvent>>) -> (r: CapabilityFactory<
    Vec<GamepadEvent>,
>)
    ensures
        event_factory_view(r) == event_factory_view(*f),
{
    match f {
        CapabilityFactory::NotSupported => CapabilityFactory::NotSupported,
        CapabilityFactory::Fails(m) => CapabilityFactory::Fails(m.clone()),
        CapabilityFactory::Provides(v) => {
            let c = v.clone();
            proof {
                assert(c@ =~= v@);
            }
            CapabilityFactory::Provides(c)
        },
    }
}

fn clone_names_factory(f: &CapabilityFactory<Vec<String>>) -> (r: CapabilityFactory<Vec<String>>)
    ensures
        names_factory_view(r) == names_factory_view(*f),
{
    match f {
        CapabilityFactory::NotSupported => CapabilityFactory::NotSupported,
        CapabilityFactory::Fails(m) => CapabilityFactory::Fails(m.clone()),
        CapabilityFactory::Provides(v) => {
            let c = v.clone();
            proof {
                assert(c@ =~= v@);
                assert(c@.map_values(|s: String| s@) =~= v@.map_values(|s: String| s@));
            }
            CapabilityFactory::Provides(c)
        },
    }
}

fn clone_unit_factory(f: &CapabilityFactory<()>) -> (r: CapabilityFactory<()>)
    ensures
        unit_factory_view(r) == unit_factory_view(*f),
{
    match f {
        CapabilityFactory::NotSupported => CapabilityFactory::NotSupported,
        CapabilityFactory::Fails(m) => CapabilityFactory::Fails(m.clone()),
        CapabilityFactory::Provides(_) => CapabilityFactory::Provides(()),
    }
}

fn clone_pose_factory(f: &CapabilityFactory<Pose>) -> (r: CapabilityFactory<Pose>)
    ensures
        pose_factory_view(r) == pose_factory_view(*f),
{
    match f {
        CapabilityFactory::NotSupported => CapabilityFactory::NotSupported,
        CapabilityFactory::Fails(m) => CapabilityFactory::Fails(m.clone()),
        CapabilityFactory::Provides(p) => CapabilityFactory::Provides(*p),
    }
}

/// A plugin instance: a named factory able to construct capability
/// implementations from opaque configuration.  The name is
/// human-readable and not a unique identifier.
pub struct PluginProxy {
    pub name: String,
    pub gamepad: CapabilityFactory<Vec<GamepadEvent>>,
    pub joint_trajectory_client: CapabilityFactory<Vec<String>>,
    pub speaker: CapabilityFactory<()>,
    pub move_base: CapabilityFactory<()>,
    pub navigation: CapabilityFactory<()>,
    pub localization: CapabilityFactory<Pose>,
    pub transform_resolver: CapabilityFactory<Pose>,
}

/// A dynamically loadable plugin module as the loader sees it: the
/// layout token it was built with, its exported root (`None` models a
/// module without a well-formed root export), and how many times its
/// exported constructor has run.
pub struct PluginModule {
    pub layout_token: u64,
    pub root: Option<PluginProxy>,
    pub constructed: u64,
}

impl PluginProxy {
    pub open spec fn name_spec(&self) -> Seq<char> {
        self.name@
    }

    /// Loads a plugin instance from a resolved module.
    ///
    /// The exported layout token is compared against the layout the
    /// host expects before anything else exported by the module is
    /// touched: on a mismatch the load fails with `AbiMismatch` and the
    /// module's constructor provably has not run.  Only when the module
    /// has a well-formed root and a matching layout is the constructor
    /// invoked, exactly once, to yield the plugin instance.
    pub fn from_module(module: &mut PluginModule, expected_layout_token: u64) -> (r: Result<
        PluginProxy,
        LoadError,
    >)
        requires
            old(module).constructed < u64::MAX,
        ensures
            final(module).layout_token == old(module).layout_token,
            final(module).root == old(module).root,
            old(module).root is None ==> r == Err::<PluginProxy, LoadError>(
                LoadError::MalformedRootExport,
            ) && final(module).constructed == old(module).constructed,
            old(module).root is Some && old(module).layout_token != expected_layout_token ==> r
                == Err::<PluginProxy, LoadError>(LoadError::AbiMismatch)
                && final(module).constructed == old(module).constructed,
            old(module).root matches Some(d) ==> (old(module).layout_token == expected_layout_token
                ==> (r matches Ok(p) && final(module).constructed == old(module).constructed + 1
                && p.name_spec() == d.name_spec() && event_factory_view(p.gamepad)
                == event_factory_view(d.gamepad) && names_factory_view(p.joint_trajectory_client)
                == names_factory_view(d.joint_trajectory_client) && unit_factory_view(p.speaker)
                == unit_factory_view(d.speaker) && unit_factory_view(p.move_base)
                == unit_factory_view(d.move_base) && unit_factory_view(p.navigation)
                == unit_factory_view(d.navigation) && pose_factory_view(p.localization)
                == pose_factory_view(d.localization) && pose_factory_view(p.transform_resolver)
                == pose_factory_view(d.transform_resolver))),
    {
        if module.root.is_none() {
            return Err(LoadError::MalformedRootExport);
        }
        if module.layout_token != expected_layout_token {
            return Err(LoadError::AbiMismatch);
        }
        module.constructed = module.constructed + 1;
        let d = module.root.as_ref().unwrap();
        Ok(
            PluginProxy {
                name: d.name.clone(),
                gamepad: clone_event_factory(&d.gamepad),
                joint_trajectory_client: clone_names_factory(&d.joint_trajectory_client),
                speaker: clone_unit_factory(&d.speaker),
                move_base: clone_unit_factory(&d.move_base),
                navigation: clone_unit_factory(&d.navigation),
                localization: clone_pose_factory(&d.localization),
                transform_resolver: clone_pose_factory(&d.transform_resolver),
            },
        )
    }

    /// Returns the name of this plugin.
    ///
    /// The name is *not* a unique identifier.  It crosses the plugin
    /// boundary as ABI-stable text.
    pub fn name(&self) -> (r: String)
        ensures
            r@ == self.name_spec(),
    {
        marshal_text(self.name.clone())
    }

    /// Constructs the plugin's gamepad capability, if it has one.
    /// `Ok(None)` means the plugin does not implement the kind and the
    /// caller should look elsewhere; an error means it tried and
    /// failed.  The configuration blob is the plugin's own to
    /// interpret; the host never inspects it.
    pub fn new_gamepad(&self, args: String) -> (r: Result<
        Option<GamepadProxy<ScriptedGamepad>>,
        Error,
    >)
        ensures
            event_factory_view(self.gamepad) is NotSupported ==> (r matches Ok(o) && o is None),
            event_factory_view(self.gamepad) matches FactoryState::Fails(m) ==> (r matches Err(e)
                && e matches Error::PluginConstruction { kind, plugin, message } && kind
                == CapabilityKind::Gamepad && plugin@ == self.name_spec() && message@ == m),
            event_factory_view(self.gamepad) matches FactoryState::Provides(script) ==> r matches
                Ok(o) && o matches Some(p) && p.pending() == script && p.stops() == 0,
    {
        match &self.gamepad {
            CapabilityFactory::NotSupported => Ok(None),
            CapabilityFactory::Fails(m) => Err(
                Error::PluginConstruction {
                    kind: CapabilityKind::Gamepad,
                    plugin: self.name.clone(),
                    message: m.clone(),
                },
            ),
            CapabilityFactory::Provides(script) => {
                let s = script.clone();
                proof {
                    assert(s@ =~= script@);
                }
                Ok(Some(GamepadProxy::new(ScriptedGamepad::new(s))))
            },
        }
    }

    /// Constructs the plugin's joint-trajectory capability, if it has
    /// one; tri-state as for `new_gamepad`.
    pub fn new_joint_trajectory_client(&self, args: String) -> (r: Result<
        Option<JointTrajectoryClientProxy<DummyJointTrajectoryClient>>,
        Error,
    >)
        ensures
            names_factory_view(self.joint_trajectory_client) is NotSupported ==> (r matches Ok(o)
                && o is None),
            names_factory_view(self.joint_trajectory_client) matches FactoryState::Fails(m) ==> r
                matches Err(e) && e matches Error::PluginConstruction { kind, plugin, message }
                && kind == CapabilityKind::JointTrajectoryClient && plugin@ == self.name_spec()
                && message@ == m,
            names_factory_view(self.joint_trajectory_client) matches FactoryState::Provides(names)
                ==> (r matches Ok(o) && o matches Some(p) && p.joint_names_spec() == names
                && p.positions_spec() == Seq::new(names.len(), |i: int| 0u64)),
    {
        match &self.joint_trajectory_client {
            CapabilityFactory::NotSupported => Ok(None),
            CapabilityFactory::Fails(m) => Err(
                Error::PluginConstruction {
                    kind: CapabilityKind::JointTrajectoryClient,
                    plugin: self.name.clone(),
                    message: m.clone(),
                },
            ),
            CapabilityFactory::Provides(names) => {
                let n = names.clone();
                proof {
                    assert(n@ =~= names@);
                    assert(n@.map_values(|s: String| s@) =~= names@.map_values(|s: String| s@));
                }
                Ok(Some(JointTrajectoryClientProxy::new(DummyJointTrajectoryClient::new(n))))
            },
        }
    }

    /// Constructs the plugin's speaker capability, if it has one;
    /// tri-state as for `new_gamepad`.
    pub fn new_speaker(&self, args: String) -> (r: Result<
        Option<SpeakerProxy<RecordingSpeaker>>,
        Error,
    >)
        ensures
            unit_factory_view(self.speaker) is NotSupported ==> (r matches Ok(o) && o is None),
            unit_factory_view(self.speaker) matches FactoryState::Fails(m) ==> (r matches Err(e)
                && e matches Error::PluginConstruction { kind, plugin, message } && kind
                == CapabilityKind::Speaker && plugin@ == self.name_spec() && message@ == m),
            unit_factory_view(self.speaker) is Provides ==> (r matches Ok(o) && o matches Some(p)
                && p.transcript() == Seq::<Seq<char>>::empty()),
    {
        match &self.speaker {
            CapabilityFactory::NotSupported => Ok(None),
            CapabilityFactory::Fails(m) => Err(
                Error::PluginConstruction {
                    kind: CapabilityKind::Speaker,
                    plugin: self.name.clone(),
                    message: m.clone(),
                },
            ),
            CapabilityFactory::Provides(_) => Ok(Some(SpeakerProxy::new(RecordingSpeaker::new()))),
        }
    }

    /// Constructs the plugin's mobile-base capability, if it has one;
    /// tri-state as for `new_gamepad`.
    pub fn new_move_base(&self, args: String) -> (r: Result<
        Option<MoveBaseProxy<DummyMoveBase>>,
        Error,
    >)
        ensures
            unit_factory_view(self.move_base) is NotSupported ==> (r matches Ok(o) && o is None),
            unit_factory_view(self.move_base) matches FactoryState::Fails(m) ==> (r matches Err(e)
                && e matches Error::PluginConstruction { kind, plugin, message } && kind
                == CapabilityKind::MoveBase && plugin@ == self.name_spec() && message@ == m),
            unit_factory_view(self.move_base) is Provides ==> (r matches Ok(o) && o matches Some(p)
                && p.velocity_spec() == (crate::move_base::BaseVelocity {
                x: 0u64,
                y: 0u64,
                theta: 0u64,
            })),
    {
        match &self.move_base {
            CapabilityFactory::NotSupported => Ok(None),
            CapabilityFactory::Fails(m) => Err(
                Error::PluginConstruction {
                    kind: CapabilityKind::MoveBase,
                    plugin: self.name.clone(),
                    message: m.clone(),
                },
            ),
            CapabilityFactory::Provides(_) => Ok(Some(MoveBaseProxy::new(DummyMoveBase::new()))),
        }
    }

    /// Constructs the plugin's navigation capability, if it has one;
    /// tri-state as for `new_gamepad`.
    pub fn new_navigation(&self, args: String) -> (r: Result<
        Option<NavigationProxy<DummyNavigation>>,
        Error,
    >)
        ensures
            unit_factory_view(self.navigation) is NotSupported ==> (r matches Ok(o) && o is None),
            unit_factory_view(self.navigation) matches FactoryState::Fails(m) ==> (r matches Err(e)
                && e matches Error::PluginConstruction { kind, plugin, message } && kind
                == CapabilityKind::Navigation && plugin@ == self.name_spec() && message@ == m),
            unit_factory_view(self.navigation) is Provides ==> (r matches Ok(o) && o matches Some(p)
                && p.goal_spec() is None),
    {
        match &self.navigation {
            CapabilityFactory::NotSupported => Ok(None),
            CapabilityFactory::Fails(m) => Err(
                Error::PluginConstruction {
                    kind: CapabilityKind::Navigation,
                    plugin: self.name.clone(),
                    message: m.clone(),
                },
            ),
            CapabilityFactory::Provides(_) => Ok(Some(NavigationProxy::new(DummyNavigation::new()))),
        }
    }

    /// Constructs the plugin's localization capability, if it has one;
    /// tri-state as for `new_gamepad`.
    pub fn new_localization(&self, args: String) -> (r: Result<
        Option<LocalizationProxy<DummyLocalization>>,
        Error,
    >)
        ensures
            pose_factory_view(self.localization) is NotSupported ==> (r matches Ok(o) && o is None),
            pose_factory_view(self.localization) matches FactoryState::Fails(m) ==> (r matches Err(e)
                && e matches Error::PluginConstruction { kind, plugin, message } && kind
                == CapabilityKind::Localization && plugin@ == self.name_spec() && message@ == m),
            pose_factory_view(self.localization) matches FactoryState::Provides(pose) ==> r matches
                Ok(o) && o matches Some(p) && p.pose_spec() == pose,
    {
        match &self.localization {
            CapabilityFactory::NotSupported => Ok(None),
            CapabilityFactory::Fails(m) => Err(
                Error::PluginConstruction {
                    kind: CapabilityKind::Localization,
                    plugin: self.name.clone(),
                    message: m.clone(),
                },
            ),
            CapabilityFactory::Provides(pose) => Ok(
                Some(LocalizationProxy::new(DummyLocalization::new(*pose))),
            ),
        }
    }

    /// Constructs the plugin's transform-resolver capability, if it has
    /// one; tri-state as for `new_gamepad`.
    pub fn new_transform_resolver(&self, args: String) -> (r: Result<
        Option<TransformResolverProxy<DummyTransformResolver>>,
        Error,
    >)
        ensures
            pose_factory_view(self.transform_resolver) is NotSupported ==> (r matches Ok(o) && o
                is None),
            pose_factory_view(self.transform_resolver) matches FactoryState::Fails(m) ==> r matches
                Err(e) && e matches Error::PluginConstruction { kind, plugin, message } && kind
                == CapabilityKind::TransformResolver && plugin@ == self.name_spec() && message@
                == m,
            pose_factory_view(self.transform_resolver) matches FactoryState::Provides(t) ==> r
                matches Ok(o) && o matches Some(p) && p.transform_spec() == t,
    {
        match &self.transform_resolver {
            CapabilityFactory::NotSupported => Ok(None),
            CapabilityFactory::Fails(m) => Err(
                Error::PluginConstruction {
                    kind: CapabilityKind::TransformResolver,
                    plugin: self.name.clone(),
                    message: m.clone(),
                },
            ),
            CapabilityFactory::Provides(t) => Ok(
                Some(TransformResolverProxy::new(DummyTransformResolver::new(*t))),
            ),
        }
    }
}

} // verus!
