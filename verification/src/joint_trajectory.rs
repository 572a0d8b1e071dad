use vstd::prelude::*;
use crate::abi_marshal::{marshal_duration, marshal_text, marshal_u64s};
use crate::duration::Duration;
use crate::error::Error;

verus! {

/// One waypoint of a joint trajectory: target positions and optional
/// velocities (each entry the bit pattern of a 64-bit float), and the
/// time from the start of the trajectory.
#[derive(Debug)]
pub struct TrajectoryPoint {
    pub positions: Vec<u64>,
    pub velocities: Option<Vec<u64>>,
    pub time_from_start: Duration,
}

/// A joint-trajectory capability.  The model views are the fixed joint
/// name list, the most recently committed position vector (one entry
/// per joint, each the bit pattern of a 64-bit float), and the position
/// vectors of the most recently accepted trajectory.  `infallible` says
/// whether this client is one whose backend never fails; such a client
/// owes success to every well-formed command.
///
/// A position vector must be exactly as long as the joint name list;
/// violating that is a caller error which the implementation reports.
pub trait JointTrajectoryClient: Sized {
    spec fn joint_names_spec(&self) -> Seq<Seq<char>>;

    spec fn positions_spec(&self) -> Seq<u64>;

    spec fn trajectory_spec(&self) -> Seq<Seq<u64>>;

    spec fn infallible(&self) -> bool;

    fn joint_names(&self) -> (r: Vec<String>)
        ensures
            r@.map_values(|s: String| s@) == self.joint_names_spec(),
    ;

    fn current_joint_positions(&self) -> (r: Result<Vec<u64>, Error>)
        ensures
            self.infallible() ==> r is Ok,
            r matches Ok(p) ==> p@ == self.positions_spec(),
    ;

    fn send_joint_positions(&mut self, positions: Vec<u64>, duration: Duration) -> (r: Result<
        (),
        Error,
    >)
        ensures
            final(self).joint_names_spec() == old(self).joint_names_spec(),
            final(self).trajectory_spec() == old(self).trajectory_spec(),
            final(self).infallible() == old(self).infallible(),
            positions@.len() != old(self).joint_names_spec().len() ==> r is Err,
            old(self).infallible() && positions@.len() == old(self).joint_names_spec().len()
                ==> r is Ok,
            r is Ok ==> final(self).positions_spec() == positions@,
            r is Err ==> final(self).positions_spec() == old(self).positions_spec(),
    ;

    fn send_joint_trajectory(&mut self, trajectory: Vec<TrajectoryPoint>) -> (r: Result<(), Error>)
        ensures
            final(self).joint_names_spec() == old(self).joint_names_spec(),
            final(self).infallible() == old(self).infallible(),
            old(self).infallible() && (forall|j: int|
                0 <= j < trajectory@.len() ==> #[trigger] trajectory@[j].positions@.len()
                    == old(self).joint_names_spec().len()) ==> r is Ok,
            r is Ok ==> final(self).trajectory_spec() == trajectory@.map_values(
                |p: TrajectoryPoint| p.positions@,
            ),
            r is Ok && trajectory@.len() > 0 ==> final(self).positions_spec()
                == trajectory@.last().positions@,
            r is Ok && trajectory@.len() == 0 ==> final(self).positions_spec() == old(
                self,
            ).positions_spec(),
            r is Err ==> final(self).positions_spec() == old(self).positions_spec()
                && final(self).trajectory_spec() == old(self).trajectory_spec(),
    ;
}

/// An in-process joint-trajectory implementation that commits each sent
/// position vector immediately and keeps the last accepted trajectory;
/// the reference implementation used to exercise the runtime.  Its
/// backend never fails: every well-formed command succeeds.
pub struct DummyJointTrajectoryClient {
    pub names: Vec<String>,
    pub positions: Vec<u64>,
    pub last_trajectory: Vec<Vec<u64>>,
}

impl DummyJointTrajectoryClient {
    /// Starts with every joint at position zero.
    pub fn new(joint_names: Vec<String>) -> (r: DummyJointTrajectoryClient)
        ensures
            r.joint_names_spec() == joint_names@.map_values(|s: String| s@),
            r.positions_spec() == Seq::new(joint_names@.len(), |i: int| 0u64),
            r.trajectory_spec() == Seq::<Seq<u64>>::empty(),
            r.infallible(),
    {
        let n = joint_names.len();
        let positions = vec![0u64; n];
        let r = DummyJointTrajectoryClient {
            names: joint_names,
            positions,
            last_trajectory: Vec::new(),
        };
        proof {
            assert(r.positions_spec() =~= Seq::new(r.names@.len(), |i: int| 0u64));
            assert(r.trajectory_spec() =~= Seq::<Seq<u64>>::empty());
        }
        r
    }
}

impl JointTrajectoryClient for DummyJointTrajectoryClient {
    open spec fn joint_names_spec(&self) -> Seq<Seq<char>> {
        self.names@.map_values(|s: String| s@)
    }

    open spec fn positions_spec(&self) -> Seq<u64> {
        self.positions@
    }

    open spec fn trajectory_spec(&self) -> Seq<Seq<u64>> {
        self.last_trajectory@.map_values(|v: Vec<u64>| v@)
    }

    open spec fn infallible(&self) -> bool {
        true
    }

    fn joint_names(&self) -> (r: Vec<String>) {
        let mut out: Vec<String> = Vec::new();
        let mut i: usize = 0;
        while i < self.names.len()
            invariant
                i <= self.names.len(),
                out@.len() == i as int,
                forall|j: int| 0 <= j < i as int ==> out@[j]@ == self.names@[j]@,
            decreases self.names.len() - i,
        {
            out.push(self.names[i].clone());
            i = i + 1;
        }
        proof {
            assert(out@.map_values(|s: String| s@) =~= self.joint_names_spec());
        }
        out
    }

    fn current_joint_positions(&self) -> (r: Result<Vec<u64>, Error>) {
        let p = self.positions.clone();
        proof {
            assert(p@ =~= self.positions@);
        }
        Ok(p)
    }

    fn send_joint_positions(&mut self, positions: Vec<u64>, duration: Duration) -> (r: Result<
        (),
        Error,
    >) {
        if positions.len() != self.names.len() {
            Err(Error::JointCountMismatch { expected: self.names.len(), actual: positions.len() })
        } else {
            self.positions = positions;
            Ok(())
        }
    }

    fn send_joint_trajectory(&mut self, trajectory: Vec<TrajectoryPoint>) -> (r: Result<(), Error>) {
        let mut i: usize = 0;
        while i < trajectory.len()
            invariant
                i <= trajectory.len(),
                forall|j: int| 0 <= j < i as int ==> trajectory@[j].positions@.len()
                    == self.names@.len(),
                *self == *old(self),
            decreases trajectory.len() - i,
        {
            if trajectory[i].positions.len() != self.names.len() {
                return Err(
                    Error::JointCountMismatch {
                        expected: self.names.len(),
                        actual: trajectory[i].positions.len(),
                    },
                );
            }
            i = i + 1;
        }
        let mut received: Vec<Vec<u64>> = Vec::new();
        let mut j: usize = 0;
        while j < trajectory.len()
            invariant
                j <= trajectory.len(),
                received@.len() == j as int,
                forall|m: int| 0 <= m < j as int ==> received@[m]@ == trajectory@[m].positions@,
                *self == *old(self),
            decreases trajectory.len() - j,
        {
            let p = trajectory[j].positions.clone();
            proof {
                assert(p@ =~= trajectory@[j as int].positions@);
            }
            received.push(p);
            j = j + 1;
        }
        if trajectory.len() > 0 {
            let last = trajectory.len() - 1;
            self.positions = trajectory[last].positions.clone();
        }
        self.last_trajectory = received;
        proof {
            assert(self.trajectory_spec() =~= trajectory@.map_values(
                |p: TrajectoryPoint| p.positions@,
            ));
            if trajectory@.len() > 0 {
                assert(self.positions@ =~= trajectory@.last().positions@);
            }
        }
        Ok(())
    }
}

/// A capability proxy for a joint-trajectory implementation living
/// behind the plugin boundary.  Position vectors, durations, waypoint
/// lists and names are all copied through ABI-stable representations at
/// the boundary; no shared mutable buffer crosses it.
pub struct JointTrajectoryClientProxy<C: JointTrajectoryClient> {
    pub inner: C,
}

impl<C: JointTrajectoryClient> JointTrajectoryClientProxy<C> {
    /// Creates a new `JointTrajectoryClientProxy`.
    pub fn new(client: C) -> (r: JointTrajectoryClientProxy<C>)
        ensures
            r.joint_names_spec() == client.joint_names_spec(),
            r.positions_spec() == client.positions_spec(),
            r.trajectory_spec() == client.trajectory_spec(),
            r.infallible() == client.infallible(),
    {
        JointTrajectoryClientProxy { inner: client }
    }
}

impl<C: JointTrajectoryClient> JointTrajectoryClient for JointTrajectoryClientProxy<C> {
    open spec fn joint_names_spec(&self) -> Seq<Seq<char>> {
        self.inner.joint_names_spec()
    }

    open spec fn positions_spec(&self) -> Seq<u64> {
        self.inner.positions_spec()
    }

    open spec fn trajectory_spec(&self) -> Seq<Seq<u64>> {
        self.inner.trajectory_spec()
    }

    open spec fn infallible(&self) -> bool {
        self.inner.infallible()
    }

    fn joint_names(&self) -> (r: Vec<String>) {
        let names = self.inner.joint_names();
        let mut out: Vec<String> = Vec::new();
        let mut i: usize = 0;
        while i < names.len()
            invariant
                i <= names.len(),
                out@.len() == i as int,
                forall|j: int| 0 <= j < i as int ==> out@[j]@ == names@[j]@,
            decreases names.len() - i,
        {
            out.push(marshal_text(names[i].clone()));
            i = i + 1;
        }
        proof {
            assert(out@.map_values(|s: String| s@) =~= names@.map_values(|s: String| s@));
        }
        out
    }

    fn current_joint_positions(&self) -> (r: Result<Vec<u64>, Error>) {
        match self.inner.current_joint_positions() {
            Ok(p) => Ok(marshal_u64s(p)),
            Err(e) => Err(e),
        }
    }

    fn send_joint_positions(&mut self, positions: Vec<u64>, duration: Duration) -> (r: Result<
        (),
        Error,
    >) {
        let boundary_positions = marshal_u64s(positions);
        let boundary_duration = marshal_duration(duration);
        self.inner.send_joint_positions(boundary_positions, boundary_duration)
    }

    fn send_joint_trajectory(&mut self, trajectory: Vec<TrajectoryPoint>) -> (r: Result<(), Error>) {
        let mut boundary: Vec<TrajectoryPoint> = Vec::new();
        let mut i: usize = 0;
        while i < trajectory.len()
            invariant
                i <= trajectory.len(),
                boundary@.len() == i as int,
                forall|j: int| 0 <= j < i as int ==> boundary@[j].positions@
                    == trajectory@[j].positions@,
            decreases trajectory.len() - i,
        {
            let point = &trajectory[i];
            let positions = marshal_u64s(point.positions.clone());
            let velocities: Option<Vec<u64>> = match &point.velocities {
                Some(v) => Some(marshal_u64s(v.clone())),
                None => None,
            };
            let time_from_start = marshal_duration(point.time_from_start);
            boundary.push(TrajectoryPoint { positions, velocities, time_from_start });
            i = i + 1;
        }
        proof {
            assert(boundary@.map_values(|p: TrajectoryPoint| p.positions@) =~= trajectory@
                .map_values(|p: TrajectoryPoint| p.positions@));
        }
        self.inner.send_joint_trajectory(boundary)
    }
}

/// Law: a committed write is what every later read reports, through
/// the direct implementation handle and through any proxy over it
/// alike.  A successful `send_joint_positions` leaves the client's
/// position view at exactly the sent vector, a proxy's position view
/// is its client's, and a successful `current_joint_positions` reports
/// exactly that view.
pub proof fn lemma_read_after_write<C: JointTrajectoryClient>(
    client: C,
    positions: Seq<u64>,
    read: Seq<u64>,
)
    requires
        client.positions_spec() == positions,
        read == (JointTrajectoryClientProxy { inner: client }).positions_spec(),
    ensures
        read == positions,
{
}

} // verus!
