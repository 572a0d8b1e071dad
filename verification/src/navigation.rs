use vstd::prelude::*;
use crate::abi_marshal::{marshal_duration, marshal_text};
use crate::duration::Duration;
use crate::error::Error;

verus! {

/// A planar pose: translation and heading, each component the bit
/// pattern of a 64-bit float.
#[derive(Clone, Copy, PartialEq, Eq, Structural, Debug)]
pub struct Pose {
    pub x: u64,
    pub y: u64,
    pub theta: u64,
}

impl Pose {
    pub fn origin() -> (r: Pose)
        ensures
            r == (Pose { x: 0u64, y: 0u64, theta: 0u64 }),
    {
        Pose { x: 0, y: 0, theta: 0 }
    }
}

/// A navigation capability.  The model view is the active goal: the
/// commanded pose and the frame it is expressed in, or `None` after a
/// cancellation or before the first goal.  `infallible` says whether
/// this implementation is one whose backend never fails; such an
/// implementation owes success to every call.
pub trait Navigation: Sized {
    spec fn goal_spec(&self) -> Option<(Pose, Seq<char>)>;

    spec fn infallible(&self) -> bool;

    fn send_goal_pose(&mut self, goal: Pose, frame_id: &str, timeout: Duration) -> (r: Result<
        (),
        Error,
    >)
        ensures
            final(self).infallible() == old(self).infallible(),
            old(self).infallible() ==> r is Ok,
            r is Ok ==> final(self).goal_spec() == Some((goal, frame_id@)),
            r is Err ==> final(self).goal_spec() == old(self).goal_spec(),
    ;

    fn cancel(&mut self) -> (r: Result<(), Error>)
        ensures
            final(self).infallible() == old(self).infallible(),
            old(self).infallible() ==> r is Ok,
            r is Ok ==> final(self).goal_spec() is None,
            r is Err ==> final(self).goal_spec() == old(self).goal_spec(),
    ;
}

/// An in-process navigation implementation that accepts every goal
/// immediately; the reference implementation used to exercise the
/// runtime.
pub struct DummyNavigation {
    pub goal: Option<(Pose, String)>,
}

impl DummyNavigation {
    pub fn new() -> (r: DummyNavigation)
        ensures
            r.goal_spec() is None,
            r.infallible(),
    {
        DummyNavigation { goal: None }
    }
}

impl Navigation for DummyNavigation {
    open spec fn goal_spec(&self) -> Option<(Pose, Seq<char>)> {
        match self.goal {
            Some(g) => Some((g.0, g.1@)),
            None => None,
        }
    }

    open spec fn infallible(&self) -> bool {
        true
    }

    fn send_goal_pose(&mut self, goal: Pose, frame_id: &str, timeout: Duration) -> (r: Result<
        (),
        Error,
    >) {
        self.goal = Some((goal, frame_id.to_owned()));
        Ok(())
    }

    fn cancel(&mut self) -> (r: Result<(), Error>) {
        self.goal = None;
        Ok(())
    }
}

/// A capability proxy for a navigation implementation living behind the
/// plugin boundary.  The frame name and the timeout are marshalled
/// through ABI-stable representations; the pose crosses by copy.
pub struct NavigationProxy<N: Navigation> {
    pub inner: N,
}

impl<N: Navigation> NavigationProxy<N> {
    /// Creates a new `NavigationProxy`.
    pub fn new(navigation: N) -> (r: NavigationProxy<N>)
        ensures
            r.goal_spec() == navigation.goal_spec(),
            r.infallible() == navigation.infallible(),
    {
        NavigationProxy { inner: navigation }
    }
}

impl<N: Navigation> Navigation for NavigationProxy<N> {
    open spec fn goal_spec(&self) -> Option<(Pose, Seq<char>)> {
        self.inner.goal_spec()
    }

    open spec fn infallible(&self) -> bool {
        self.inner.infallible()
    }

    fn send_goal_pose(&mut self, goal: Pose, frame_id: &str, timeout: Duration) -> (r: Result<
        (),
        Error,
    >) {
        let boundary_frame = marshal_text(frame_id.to_owned());
        let boundary_timeout = marshal_duration(timeout);
        self.inner.send_goal_pose(goal, boundary_frame.as_str(), boundary_timeout)
    }

    fn cancel(&mut self) -> (r: Result<(), Error>) {
        self.inner.cancel()
    }
}

/// A localization capability.  The model view is the robot's current
/// pose, reported in whichever frame the caller names.  `infallible`
/// says whether this implementation is one whose backend never fails.
pub trait Localization: Sized {
    spec fn pose_spec(&self) -> Pose;

    spec fn infallible(&self) -> bool;

    fn current_pose(&self, frame_id: &str) -> (r: Result<Pose, Error>)
        ensures
            self.infallible() ==> r is Ok,
            r matches Ok(p) ==> p == self.pose_spec(),
    ;
}

/// An in-process localization implementation with a settable pose; the
/// reference implementation used to exercise the runtime.
pub struct DummyLocalization {
    pub pose: Pose,
}

impl DummyLocalization {
    pub fn new(pose: Pose) -> (r: DummyLocalization)
        ensures
            r.pose_spec() == pose,
            r.infallible(),
    {
        DummyLocalization { pose }
    }
}

impl Localization for DummyLocalization {
    open spec fn pose_spec(&self) -> Pose {
        self.pose
    }

    open spec fn infallible(&self) -> bool {
        true
    }

    fn current_pose(&self, frame_id: &str) -> (r: Result<Pose, Error>) {
        Ok(self.pose)
    }
}

/// A capability proxy for a localization implementation living behind
/// the plugin boundary.  The frame name is marshalled through the
/// ABI-stable string representation.
pub struct LocalizationProxy<L: Localization> {
    pub inner: L,
}

impl<L: Localization> LocalizationProxy<L> {
    /// Creates a new `LocalizationProxy`.
    pub fn new(localization: L) -> (r: LocalizationProxy<L>)
        ensures
            r.pose_spec() == localization.pose_spec(),
            r.infallible() == localization.infallible(),
    {
        LocalizationProxy { inner: localization }
    }
}

impl<L: Localization> Localization for LocalizationProxy<L> {
    open spec fn pose_spec(&self) -> Pose {
        self.inner.pose_spec()
    }

    open spec fn infallible(&self) -> bool {
        self.inner.infallible()
    }

    fn current_pose(&self, frame_id: &str) -> (r: Result<Pose, Error>) {
        let boundary_frame = marshal_text(frame_id.to_owned());
        self.inner.current_pose(boundary_frame.as_str())
    }
}

/// A transform-resolution capability.  The model view is the transform
/// the implementation reports between any two named frames at a given
/// time.  `infallible` says whether this resolver is one whose backend
/// never fails.
pub trait TransformResolver: Sized {
    spec fn transform_spec(&self) -> Pose;

    spec fn infallible(&self) -> bool;

    fn resolve_transformation(&self, from: &str, to: &str, time: Duration) -> (r: Result<
        Pose,
        Error,
    >)
        ensures
            self.infallible() ==> r is Ok,
            r matches Ok(t) ==> t == self.transform_spec(),
    ;
}

/// An in-process transform resolver that reports a fixed transform; the
/// reference implementation used to exercise the runtime.
pub struct DummyTransformResolver {
    pub transform: Pose,
}

impl DummyTransformResolver {
    pub fn new(transform: Pose) -> (r: DummyTransformResolver)
        ensures
            r.transform_spec() == transform,
            r.infallible(),
    {
        DummyTransformResolver { transform }
    }
}

impl TransformResolver for DummyTransformResolver {
    open spec fn transform_spec(&self) -> Pose {
        self.transform
    }

    open spec fn infallible(&self) -> bool {
        true
    }

    fn resolve_transformation(&self, from: &str, to: &str, time: Duration) -> (r: Result<
        Pose,
        Error,
    >) {
        Ok(self.transform)
    }
}

/// A capability proxy for a transform resolver living behind the plugin
/// boundary.  Both frame names and the query time are marshalled
/// through ABI-stable representations.
pub struct TransformResolverProxy<T: TransformResolver> {
    pub inner: T,
}

impl<T: TransformResolver> TransformResolverProxy<T> {
    /// Creates a new `TransformResolverProxy`.
    pub fn new(resolver: T) -> (r: TransformResolverProxy<T>)
        ensures
            r.transform_spec() == resolver.transform_spec(),
            r.infallible() == resolver.infallible(),
    {
        TransformResolverProxy { inner: resolver }
    }
}

impl<T: TransformResolver> TransformResolver for TransformResolverProxy<T> {
    open spec fn transform_spec(&self) -> Pose {
        self.inner.transform_spec()
    }

    open spec fn infallible(&self) -> bool {
        self.inner.infallible()
    }

    fn resolve_transformation(&self, from: &str, to: &str, time: Duration) -> (r: Result<
        Pose,
        Error,
    >) {
        let boundary_from = marshal_text(from.to_owned());
        let boundary_to = marshal_text(to.to_owned());
        let boundary_time = marshal_duration(time);
        self.inner.resolve_transformation(
            boundary_from.as_str(),
            boundary_to.as_str(),
            boundary_time,
        )
    }
}

} // verus!
