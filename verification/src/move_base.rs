use vstd::prelude::*;
use crate::error::Error;

verus! {

/// A planar base velocity; each component is the bit pattern of a
/// 64-bit float.
#[derive(Clone, Copy, PartialEq, Eq, Structural, Debug)]
pub struct BaseVelocity {
    pub x: u64,
    pub y: u64,
    pub theta: u64,
}

impl BaseVelocity {
    pub fn zero() -> (r: BaseVelocity)
        ensures
            r == (BaseVelocity { x: 0u64, y: 0u64, theta: 0u64 }),
    {
        BaseVelocity { x: 0, y: 0, theta: 0 }
    }
}

/// A mobile-base capability: synchronous, fire-and-forget velocity
/// commands.  The model view is the most recently committed velocity.
/// `infallible` says whether this base is one whose backend never
/// fails; such a base owes success to every call.
pub trait MoveBase: Sized {
    spec fn velocity_spec(&self) -> BaseVelocity;

    spec fn infallible(&self) -> bool;

    fn send_velocity(&mut self, velocity: &BaseVelocity) -> (r: Result<(), Error>)
        ensures
            final(self).infallible() == old(self).infallible(),
            old(self).infallible() ==> r is Ok,
            r is Ok ==> final(self).velocity_spec() == *velocity,
            r is Err ==> final(self).velocity_spec() == old(self).velocity_spec(),
    ;

    fn current_velocity(&self) -> (r: Result<BaseVelocity, Error>)
        ensures
            self.infallible() ==> r is Ok,
            r matches Ok(v) ==> v == self.velocity_spec(),
    ;
}

/// An in-process mobile base that commits each command immediately and
/// never fails; the reference implementation used to exercise the
/// runtime.
pub struct DummyMoveBase {
    pub velocity: BaseVelocity,
}

impl DummyMoveBase {
    pub fn new() -> (r: DummyMoveBase)
        ensures
            r.velocity_spec() == (BaseVelocity { x: 0u64, y: 0u64, theta: 0u64 }),
            r.infallible(),
    {
        DummyMoveBase { velocity: BaseVelocity::zero() }
    }
}

impl MoveBase for DummyMoveBase {
    open spec fn velocity_spec(&self) -> BaseVelocity {
        self.velocity
    }

    open spec fn infallible(&self) -> bool {
        true
    }

    fn send_velocity(&mut self, velocity: &BaseVelocity) -> (r: Result<(), Error>) {
        self.velocity = *velocity;
        Ok(())
    }

    fn current_velocity(&self) -> (r: Result<BaseVelocity, Error>) {
        Ok(self.velocity)
    }
}

/// A capability proxy for a mobile base living behind the plugin
/// boundary.  A velocity is a plain value and crosses the boundary by
/// copy, in both directions.
pub struct MoveBaseProxy<M: MoveBase> {
    pub inner: M,
}

impl<M: MoveBase> MoveBaseProxy<M> {
    /// Creates a new `MoveBaseProxy`.
    pub fn new(move_base: M) -> (r: MoveBaseProxy<M>)
        ensures
            r.velocity_spec() == move_base.velocity_spec(),
            r.infallible() == move_base.infallible(),
    {
        MoveBaseProxy { inner: move_base }
    }
}

impl<M: MoveBase> MoveBase for MoveBaseProxy<M> {
    open spec fn velocity_spec(&self) -> BaseVelocity {
        self.inner.velocity_spec()
    }

    open spec fn infallible(&self) -> bool {
        self.inner.infallible()
    }

    fn send_velocity(&mut self, velocity: &BaseVelocity) -> (r: Result<(), Error>) {
        let copy = *velocity;
        self.inner.send_velocity(&copy)
    }

    fn current_velocity(&self) -> (r: Result<BaseVelocity, Error>) {
        self.inner.current_velocity()
    }
}

} // verus!
