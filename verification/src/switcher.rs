//! The control-node switcher: the live teleoperation loop.
//!
//! A control node is one operator-selectable operating mode.  The
//! switcher owns an ordered, non-empty list of nodes and a current
//! index.  A designated button advances the index cyclically and the
//! new mode is announced through the speaker; the `Unknown` sentinel
//! event stops the run; every other event is forwarded to the node at
//! the current index.  The functions `run_index`, `run_announcements`
//! and `run_forwarded` give the meaning of a whole run over a sequence
//! of gamepad events, and `main` is proved against them.

use vstd::prelude::*;
use vstd::string::StringExecFns;
use crate::error::Error;
use crate::gamepad::{Button, Gamepad, GamepadEvent};
use crate::speaker::Speaker;

verus! {

/// One operator-selectable operating mode: immutable mode and sub-mode
/// identifiers, a per-tick action `proc`, and a gamepad event handler.
/// The model view `handled` is the sequence of events forwarded to the
/// node so far; the identifiers never change after construction.
pub trait ControlNode: Sized {
    spec fn mode_spec(&self) -> Seq<char>;

    spec fn submode_spec(&self) -> Seq<char>;

    spec fn handled(&self) -> Seq<GamepadEvent>;

    fn mode(&self) -> (m: String)
        ensures
            m@ == self.mode_spec(),
    ;

    fn submode(&self) -> (m: String)
        ensures
            m@ == self.submode_spec(),
    ;

    fn handle_event(&mut self, event: GamepadEvent)
        ensures
            final(self).mode_spec() == old(self).mode_spec(),
            final(self).submode_spec() == old(self).submode_spec(),
            final(self).handled() == old(self).handled().push(event),
    ;

    fn proc(&mut self)
        ensures
            final(self).mode_spec() == old(self).mode_spec(),
            final(self).submode_spec() == old(self).submode_spec(),
            final(self).handled() == old(self).handled(),
    ;
}

/// A control node that records what reaches it; the reference
/// implementation used to exercise the runtime.
pub struct RecordingNode {
    pub mode_name: String,
    pub submode_name: String,
    pub received: Vec<GamepadEvent>,
    pub ticks: u64,
}

impl RecordingNode {
    pub fn new(mode_name: String, submode_name: String) -> (r: RecordingNode)
        ensures
            r.mode_spec() == mode_name@,
            r.submode_spec() == submode_name@,
            r.handled() == Seq::<GamepadEvent>::empty(),
    {
        RecordingNode { mode_name, submode_name, received: Vec::new(), ticks: 0 }
    }
}

impl ControlNode for RecordingNode {
    open spec fn mode_spec(&self) -> Seq<char> {
        self.mode_name@
    }

    open spec fn submode_spec(&self) -> Seq<char> {
        self.submode_name@
    }

    open spec fn handled(&self) -> Seq<GamepadEvent> {
        self.received@
    }

    fn mode(&self) -> (m: String) {
        self.mode_name.clone()
    }

    fn submode(&self) -> (m: String) {
        self.submode_name.clone()
    }

    fn handle_event(&mut self, event: GamepadEvent) {
        self.received.push(event);
    }

    fn proc(&mut self) {
        if self.ticks < u64::MAX {
            self.ticks = self.ticks + 1;
        }
    }
}

/// The mode and sub-mode identifiers of one node.
pub open spec fn node_label<N: ControlNode>(n: N) -> (Seq<char>, Seq<char>) {
    (n.mode_spec(), n.submode_spec())
}

pub open spec fn node_labels<N: ControlNode>(nodes: Seq<N>) -> Seq<(Seq<char>, Seq<char>)> {
    nodes.map_values(|n: N| node_label(n))
}

/// What the speaker says for the node at index `i`: the mode identifier
/// directly followed by the sub-mode identifier.
pub open spec fn announcement(labels: Seq<(Seq<char>, Seq<char>)>, i: int) -> Seq<char> {
    labels[i].0 + labels[i].1
}

/// The next index in the cycle of `len` nodes: one step, modulo the
/// node count.
pub open spec fn advance(len: int, i: int) -> int {
    if i + 1 < len {
        i + 1
    } else {
        0
    }
}

/// `n` advances in a row.
pub open spec fn advance_n(len: int, i: int, n: int) -> int
    decreases n,
{
    if n <= 0 {
        i
    } else {
        advance(len, advance_n(len, i, n - 1))
    }
}

/// The current index after a run over `events` that started at index
/// `i`: the designated mode-advance button steps the cycle, the
/// `Unknown` sentinel ends the run, everything else leaves the index
/// alone.
pub open spec fn run_index(len: int, i: int, events: Seq<GamepadEvent>) -> int
    decreases events.len(),
{
    if events.len() == 0 {
        i
    } else if events[0] == GamepadEvent::ButtonPressed(Button::North) {
        run_index(len, advance(len, i), events.drop_first())
    } else if events[0] == GamepadEvent::Unknown {
        i
    } else {
        run_index(len, i, events.drop_first())
    }
}

/// Everything the speaker says during a run over `events`: one
/// announcement per mode advance, nothing for any other event, and
/// nothing at or after the `Unknown` sentinel.
pub open spec fn run_announcements(
    labels: Seq<(Seq<char>, Seq<char>)>,
    i: int,
    events: Seq<GamepadEvent>,
) -> Seq<Seq<char>>
    decreases events.len(),
{
    if events.len() == 0 {
        Seq::empty()
    } else if events[0] == GamepadEvent::ButtonPressed(Button::North) {
        seq![announcement(labels, advance(labels.len() as int, i))] + run_announcements(
            labels,
            advance(labels.len() as int, i),
            events.drop_first(),
        )
    } else if events[0] == GamepadEvent::Unknown {
        Seq::empty()
    } else {
        run_announcements(labels, i, events.drop_first())
    }
}

/// The events forwarded to the node at index `j` during a run over
/// `events`: exactly the non-advance, non-sentinel events that arrive
/// while `j` is the current index, in order.
pub open spec fn run_forwarded(len: int, i: int, events: Seq<GamepadEvent>, j: int) -> Seq<
    GamepadEvent,
>
    decreases events.len(),
{
    if events.len() == 0 {
        Seq::empty()
    } else if events[0] == GamepadEvent::ButtonPressed(Button::North) {
        run_forwarded(len, advance(len, i), events.drop_first(), j)
    } else if events[0] == GamepadEvent::Unknown {
        Seq::empty()
    } else if i == j {
        seq![events[0]] + run_forwarded(len, i, events.drop_first(), j)
    } else {
        run_forwarded(len, i, events.drop_first(), j)
    }
}

/// How many of `events` a run consumes: everything up to and including
/// the first `Unknown` sentinel, or all of them if none occurs.
pub open spec fn consumed(events: Seq<GamepadEvent>) -> int
    decreases events.len(),
{
    if events.len() == 0 {
        0
    } else if events[0] == GamepadEvent::Unknown {
        1
    } else {
        1 + consumed(events.drop_first())
    }
}

proof fn lemma_advance_n_shift(len: int, i: int, n: int)
    requires
        len >= 1,
        0 <= i < len,
        0 <= n <= len,
    ensures
        advance_n(len, i, n) == if i + n < len {
            i + n
        } else {
            i + n - len
        },
    decreases n,
{
    if n > 0 {
        lemma_advance_n_shift(len, i, n - 1);
    }
}

/// Law: advancing the mode once per node is a round trip.  From any
/// index of a cycle of `len` nodes, `len` advances — the index change
/// of `len` calls to `increment_mode` — return the index to where it
/// began.
pub proof fn lemma_increment_round_trip(len: int, i: int)
    requires
        len >= 1,
        0 <= i < len,
    ensures
        advance_n(len, i, len) == i,
{
    lemma_advance_n_shift(len, i, len);
}

/// The switcher: an ordered, non-empty node list, the current index,
/// the running flag, and the speaker that announces mode changes.
pub struct ControlNodeSwitcher<N: ControlNode, S: Speaker> {
    control_nodes: Vec<N>,
    speaker: S,
    current_index: usize,
    is_running: bool,
}

/// The first index whose node carries `mode`, if any node does.
pub open spec fn has_mode<N: ControlNode>(nodes: Seq<N>, mode: Seq<char>) -> bool {
    exists|j: int| 0 <= j < nodes.len() && #[trigger] nodes[j].mode_spec() == mode
}

/// Resolves a requested initial mode name to a node index, as the
/// assembling caller must before constructing a switcher.  An empty
/// name selects the first node; otherwise the first node whose mode
/// identifier equals the name is selected, and if none does the name is
/// surfaced in the error.
pub fn resolve_initial_index<N: ControlNode>(control_nodes: &Vec<N>, initial_mode: &String) -> (r:
    Result<usize, Error>)
    ensures
        initial_mode@.len() == 0 ==> r == Ok::<usize, Error>(0usize),
        initial_mode@.len() > 0 && has_mode(control_nodes@, initial_mode@) ==> (r matches Ok(i)
            && 0 <= i < control_nodes@.len() && control_nodes@[i as int].mode_spec()
            == initial_mode@ && (forall|j: int|
            0 <= j < i ==> #[trigger] control_nodes@[j].mode_spec() != initial_mode@)),
        initial_mode@.len() > 0 && !has_mode(control_nodes@, initial_mode@) ==> (r matches Err(e)
            && e matches Error::NoSpecifiedNode(m) && m@ == initial_mode@),
{
    if initial_mode.as_str().is_empty() {
        return Ok(0);
    }
    let mut i: usize = 0;
    while i < control_nodes.len()
        invariant
            initial_mode@.len() > 0,
            i <= control_nodes.len(),
            forall|j: int| 0 <= j < i ==> #[trigger] control_nodes@[j].mode_spec() != initial_mode@,
        decreases control_nodes.len() - i,
    {
        let m = control_nodes[i].mode();
        if m == *initial_mode {
            return Ok(i);
        }
        i = i + 1;
    }
    Err(Error::NoSpecifiedNode(initial_mode.clone()))
}

impl<N: ControlNode, S: Speaker> ControlNodeSwitcher<N, S> {
    pub closed spec fn nodes(&self) -> Seq<N> {
        self.control_nodes@
    }

    pub closed spec fn index_spec(&self) -> int {
        self.current_index as int
    }

    pub closed spec fn running(&self) -> bool {
        self.is_running
    }

    pub closed spec fn transcript(&self) -> Seq<Seq<char>> {
        self.speaker.transcript()
    }

    pub closed spec fn speaker_spec(&self) -> S {
        self.speaker
    }

    pub open spec fn labels(&self) -> Seq<(Seq<char>, Seq<char>)> {
        node_labels(self.nodes())
    }

    /// A switcher is well formed when it has at least one node and the
    /// current index points at one of them.
    pub open spec fn wf(&self) -> bool {
        self.nodes().len() >= 1 && 0 <= self.index_spec() < self.nodes().len()
    }

    /// Builds a switcher over the given nodes, not yet running.
    /// Fails, before anything else can happen, when there are no nodes
    /// at all.  The caller must have resolved the initial mode to an
    /// in-range index (see `resolve_initial_index`).
    pub fn new(control_nodes: Vec<N>, speaker: S, initial_node_index: usize) -> (r: Result<
        Self,
        Error,
    >)
        requires
            control_nodes@.len() == 0 || (initial_node_index as int) < control_nodes@.len(),
        ensures
            control_nodes@.len() == 0 <==> r is Err,
            r matches Err(e) ==> e == Error::NoControlNodes,
            r matches Ok(s) ==> (s.wf() && s.nodes() == control_nodes@ && s.index_spec()
                == initial_node_index as int && !s.running() && s.speaker_spec() == speaker
                && s.transcript() == speaker.transcript()),
    {
        if control_nodes.len() == 0 {
            Err(Error::NoControlNodes)
        } else {
            Ok(
                ControlNodeSwitcher {
                    control_nodes,
                    speaker,
                    current_index: initial_node_index,
                    is_running: false,
                },
            )
        }
    }

    pub fn current_index(&self) -> (r: usize)
        ensures
            r as int == self.index_spec(),
    {
        self.current_index
    }

    pub fn is_running(&self) -> (r: bool)
        ensures
            r == self.running(),
    {
        self.is_running
    }

    /// The node at index `i`.
    pub fn node(&self, i: usize) -> (r: &N)
        requires
            (i as int) < self.nodes().len(),
        ensures
            *r == self.nodes()[i as int],
    {
        &self.control_nodes[i]
    }

    /// The speaker, for reading back what has been announced.
    pub fn speaker(&self) -> (r: &S)
        ensures
            *r == self.speaker_spec(),
            r.transcript() == self.transcript(),
    {
        &self.speaker
    }

    /// Stops the run.  Synchronous: the loops observe the flag on
    /// their next pass; completion is observed only by `main`
    /// returning.
    pub fn stop(&mut self)
        ensures
            final(self).nodes() == old(self).nodes(),
            final(self).index_spec() == old(self).index_spec(),
            final(self).transcript() == old(self).transcript(),
            !final(self).running(),
    {
        self.is_running = false;
    }

    /// Marks the switcher running and announces the initial mode: the
    /// entry step of the live loop.  `main` performs the same step
    /// before its event loop; a caller that reads gamepad events
    /// itself calls this once and then `dispatch_event` per event.
    pub fn start(&mut self) -> (r: Result<(), Error>)
        requires
            old(self).wf(),
        ensures
            final(self).wf(),
            final(self).nodes() == old(self).nodes(),
            final(self).index_spec() == old(self).index_spec(),
            final(self).speaker_spec().infallible() == old(self).speaker_spec().infallible(),
            old(self).speaker_spec().infallible() ==> r is Ok,
            r is Ok ==> (final(self).running() && final(self).transcript() == old(self).transcript().push(announcement(old(self).labels(), old(self).index_spec()))),
            r is Err ==> (!final(self).running() && final(self).transcript() == old(self).transcript()),
    {
        self.is_running = true;
        match self.speak_current_mode() {
            Ok(()) => Ok(()),
            Err(e) => {
                self.is_running = false;
                Err(e)
            },
        }
    }

    /// Speaks the mode of the node at the current index: exactly the
    /// mode identifier directly followed by the sub-mode identifier,
    /// as one announcement.
    pub fn speak_current_mode(&mut self) -> (r: Result<(), Error>)
        requires
            old(self).wf(),
        ensures
            final(self).wf(),
            final(self).nodes() == old(self).nodes(),
            final(self).running() == old(self).running(),
            final(self).index_spec() == old(self).index_spec(),
            final(self).speaker_spec().infallible() == old(self).speaker_spec().infallible(),
            old(self).speaker_spec().infallible() ==> r is Ok,
            r is Ok ==> final(self).transcript() == old(self).transcript().push(
                announcement(old(self).labels(), old(self).index_spec()),
            ),
            r is Err ==> final(self).transcript() == old(self).transcript(),
    {
        let i = self.current_index;
        let mode = self.control_nodes[i].mode();
        let submode = self.control_nodes[i].submode();
        let text = mode.concat(submode.as_str());
        proof {
            assert(text@ == announcement(self.labels(), self.index_spec()));
        }
        self.speaker.speak(text.as_str())
    }

    /// Advances the current index by one, cyclically, then announces
    /// the new mode.  The index is advanced even when the announcement
    /// fails.
    pub fn increment_mode(&mut self) -> (r: Result<(), Error>)
        requires
            old(self).wf(),
        ensures
            final(self).wf(),
            final(self).nodes() == old(self).nodes(),
            final(self).running() == old(self).running(),
            final(self).speaker_spec().infallible() == old(self).speaker_spec().infallible(),
            old(self).speaker_spec().infallible() ==> r is Ok,
            final(self).index_spec() == advance(
                old(self).nodes().len() as int,
                old(self).index_spec(),
            ),
            r is Ok ==> final(self).transcript() == old(self).transcript().push(
                announcement(old(self).labels(), final(self).index_spec()),
            ),
            r is Err ==> final(self).transcript() == old(self).transcript(),
    {
        let len = self.control_nodes.len();
        if self.current_index + 1 < len {
            self.current_index = self.current_index + 1;
        } else {
            self.current_index = 0;
        }
        self.speak_current_mode()
    }

    /// One step of the event loop: the designated mode-advance button
    /// advances the mode, the `Unknown` sentinel stops the run, and any
    /// other event is forwarded to the node at the current index,
    /// fire-and-forget.
    pub fn dispatch_event(&mut self, event: GamepadEvent) -> (r: Result<(), Error>)
        requires
            old(self).wf(),
        ensures
            final(self).wf(),
            final(self).labels() == old(self).labels(),
            final(self).nodes().len() == old(self).nodes().len(),
            final(self).speaker_spec().infallible() == old(self).speaker_spec().infallible(),
            event == GamepadEvent::ButtonPressed(Button::North) ==> (final(self).nodes() == old(self).nodes() && final(self).running() == old(self).running() && final(self).index_spec()
                == advance(old(self).nodes().len() as int, old(self).index_spec()) && (old(self).speaker_spec().infallible() ==> r is Ok) && (r is Ok
                ==> final(self).transcript() == old(self).transcript().push(
                announcement(old(self).labels(), final(self).index_spec()),
            )) && (r is Err ==> final(self).transcript() == old(self).transcript())),
            event == GamepadEvent::Unknown ==> (r is Ok && final(self).nodes() == old(self).nodes()
                && !final(self).running() && final(self).index_spec() == old(self).index_spec()
                && final(self).transcript() == old(self).transcript()),
            event != GamepadEvent::ButtonPressed(Button::North) && event != GamepadEvent::Unknown
                ==> (r is Ok && final(self).running() == old(self).running() && final(self).index_spec() == old(self).index_spec() && final(self).transcript() == old(self).transcript() && final(self).nodes()[old(self).index_spec()].handled() == old(self).nodes()[old(self).index_spec()].handled().push(event) && (forall|j: int|
                0 <= j < old(self).nodes().len() && j != old(self).index_spec()
                    ==> #[trigger] final(self).nodes()[j] == old(self).nodes()[j])),
    {
        match event {
            GamepadEvent::ButtonPressed(Button::North) => self.increment_mode(),
            GamepadEvent::Unknown => {
                self.is_running = false;
                Ok(())
            },
            _ => {
                let i = self.current_index;
                self.control_nodes[i].handle_event(event);
                proof {
                    assert(self.labels() =~= old(self).labels());
                }
                Ok(())
            },
        }
    }

    /// One tick of the periodic driver: while the switcher is running,
    /// the node at the current index performs its per-tick action.
    /// The action never changes the node's identifiers or its handled
    /// events, and the switcher's own state is untouched.
    pub fn tick_once(&mut self)
        requires
            old(self).wf(),
        ensures
            final(self).wf(),
            final(self).labels() == old(self).labels(),
            final(self).nodes().len() == old(self).nodes().len(),
            forall|j: int|
                0 <= j < old(self).nodes().len() ==> #[trigger] final(self).nodes()[j].handled()
                    == old(self).nodes()[j].handled(),
            final(self).index_spec() == old(self).index_spec(),
            final(self).running() == old(self).running(),
            final(self).transcript() == old(self).transcript(),
    {
        if self.is_running {
            let i = self.current_index;
            self.control_nodes[i].proc();
            proof {
                assert(self.labels() =~= old(self).labels());
            }
        }
    }

    /// The live control loop over a gamepad.
    ///
    /// Marks the switcher running, announces the initial mode, then
    /// consumes gamepad events until the run stops: mode advances are
    /// announced in order, other events are forwarded to whichever node
    /// is current when they arrive, and the `Unknown` sentinel —
    /// delivered by the device, or reported once its event source is
    /// exhausted — ends the run.  Whatever ends it, the gamepad's
    /// cancellation signal `stop` is raised exactly once on the way
    /// out.  The periodic driver runs beside this loop (see
    /// `tick_once`); it never changes what this contract speaks of.
    ///
    /// A failed announcement aborts the run with that error, again
    /// stopping the gamepad on the way out.
    pub fn main<G: Gamepad>(&mut self, gamepad: &mut G) -> (r: Result<(), Error>)
        requires
            old(self).wf(),
            old(gamepad).stops() < u64::MAX,
        ensures
            final(self).wf(),
            final(self).labels() == old(self).labels(),
            final(self).nodes().len() == old(self).nodes().len(),
            !final(self).running(),
            final(gamepad).stops() == old(gamepad).stops() + 1,
            r is Ok ==> (final(self).index_spec() == run_index(
                old(self).nodes().len() as int,
                old(self).index_spec(),
                old(gamepad).pending(),
            ) && final(self).transcript() == old(self).transcript().push(
                announcement(old(self).labels(), old(self).index_spec()),
            ) + run_announcements(
                old(self).labels(),
                old(self).index_spec(),
                old(gamepad).pending(),
            ) && (forall|j: int|
                0 <= j < old(self).nodes().len() ==> #[trigger] final(self).nodes()[j].handled()
                    == old(self).nodes()[j].handled() + run_forwarded(
                    old(self).nodes().len() as int,
                    old(self).index_spec(),
                    old(gamepad).pending(),
                    j,
                )) && final(gamepad).pending() == old(gamepad).pending().skip(
                consumed(old(gamepad).pending()),
            )),
            final(self).speaker_spec().infallible() == old(self).speaker_spec().infallible(),
            old(self).speaker_spec().infallible() ==> r is Ok,
            r is Err ==> (final(self).transcript() == old(self).transcript() || (exists|n: int|
                0 <= n <= run_announcements(
                    old(self).labels(),
                    old(self).index_spec(),
                    old(gamepad).pending(),
                ).len() && final(self).transcript() == old(self).transcript().push(
                    announcement(old(self).labels(), old(self).index_spec()),
                ) + #[trigger] run_announcements(
                    old(self).labels(),
                    old(self).index_spec(),
                    old(gamepad).pending(),
                ).take(n))),
    {
        let ghost len = old(self).nodes().len() as int;
        let ghost labels0 = old(self).labels();
        self.is_running = true;
        match self.speak_current_mode() {
            Err(e) => {
                self.is_running = false;
                gamepad.stop();
                return Err(e);
            },
            Ok(()) => {},
        }
        let ghost i0 = self.index_spec();
        let ghost t0 = self.transcript();
        let ghost g0 = gamepad.pending();
        let ghost nodes0 = self.nodes();
        let ghost s0 = gamepad.stops();
        let ghost mut k: int = 0;
        proof {
            assert(t0 =~= t0.subrange(0, t0.len() as int));
        }
        while self.is_running
            invariant
                self.wf(),
                len == old(self).nodes().len() as int,
                labels0 == old(self).labels(),
                i0 == old(self).index_spec(),
                t0 == old(self).transcript().push(
                    announcement(old(self).labels(), old(self).index_spec()),
                ),
                g0 == old(gamepad).pending(),
                nodes0 == old(self).nodes(),
                nodes0.len() == len,
                s0 == old(gamepad).stops(),
                self.labels() == labels0,
                self.nodes().len() == len,
                self.speaker_spec().infallible() == old(self).speaker_spec().infallible(),
                gamepad.stops() == s0,
                s0 < u64::MAX,
                0 <= k <= g0.len(),
                gamepad.pending() == g0.skip(k),
                t0.is_prefix_of(self.transcript()),
                self.running() ==> (run_index(len, i0, g0) == run_index(
                    len,
                    self.index_spec(),
                    gamepad.pending(),
                ) && t0 + run_announcements(labels0, i0, g0) == self.transcript()
                    + run_announcements(labels0, self.index_spec(), gamepad.pending()) && (forall|
                    j: int,
                |
                    0 <= j < len ==> #[trigger] nodes0[j].handled() + run_forwarded(
                        len,
                        i0,
                        g0,
                        j,
                    ) == self.nodes()[j].handled() + run_forwarded(
                        len,
                        self.index_spec(),
                        gamepad.pending(),
                        j,
                    )) && consumed(g0) == k + consumed(gamepad.pending())),
                !self.running() ==> (self.index_spec() == run_index(len, i0, g0) && self.transcript()
                    == t0 + run_announcements(labels0, i0, g0) && (forall|j: int|
                    0 <= j < len ==> #[trigger] self.nodes()[j].handled() == nodes0[j].handled()
                        + run_forwarded(len, i0, g0, j)) && k == consumed(g0)),
            decreases g0.len() - k, (if self.is_running {
                1int
            } else {
                0int
            }),
        {
            let ghost pend0 = gamepad.pending();
            let ghost icur = self.index_spec();
            let ghost tcur = self.transcript();
            let ghost ncur = self.nodes();
            let event = gamepad.next_event();
            proof {
                if pend0.len() > 0 {
                    assert(gamepad.pending() =~= g0.skip(k + 1));
                    k = k + 1;
                }
            }
            match event {
                GamepadEvent::ButtonPressed(Button::North) => {
                    let result = self.increment_mode();
                    proof {
                        assert(run_index(len, icur, pend0) == run_index(
                            len,
                            self.index_spec(),
                            pend0.drop_first(),
                        ));
                        assert(run_announcements(labels0, icur, pend0) == seq![
                            announcement(labels0, self.index_spec()),
                        ] + run_announcements(labels0, self.index_spec(), pend0.drop_first()));
                        assert(consumed(pend0) == 1 + consumed(pend0.drop_first()));
                        assert forall|j: int| 0 <= j < len implies #[trigger] run_forwarded(
                            len,
                            icur,
                            pend0,
                            j,
                        ) == run_forwarded(len, self.index_spec(), pend0.drop_first(), j) by {}
                    }
                    match result {
                        Ok(()) => {
                            proof {
                                assert(tcur + run_announcements(labels0, icur, pend0) =~= (
                                self.transcript() + run_announcements(
                                    labels0,
                                    self.index_spec(),
                                    pend0.drop_first(),
                                )));
                                assert(t0 =~= self.transcript().subrange(0, t0.len() as int));
                            }
                        },
                        Err(e) => {
                            self.is_running = false;
                            gamepad.stop();
                            proof {
                                let full = run_announcements(labels0, i0, g0);
                                let rest = run_announcements(labels0, icur, pend0);
                                let n = tcur.len() - t0.len();
                                assert(t0 + full == tcur + rest);
                                assert(t0 =~= tcur.subrange(0, t0.len() as int));
                                assert(0 <= n <= full.len());
                                assert forall|x: int|
                                    0 <= x < tcur.len() implies tcur[x] == (t0 + full.take(n))[x] by {
                                    assert((t0 + full)[x] == (tcur + rest)[x]);
                                    if x < t0.len() {
                                        assert(tcur[x] == tcur.subrange(0, t0.len() as int)[x]);
                                    }
                                }
                                assert(tcur =~= t0 + full.take(n));
                                assert(self.transcript() == t0 + run_announcements(
                                    labels0,
                                    i0,
                                    g0,
                                ).take(n));
                            }
                            return Err(e);
                        },
                    }
                },
                GamepadEvent::Unknown => {
                    self.is_running = false;
                    proof {
                        if pend0.len() == 0 {
                            assert(run_index(len, icur, pend0) == icur);
                            assert(run_announcements(labels0, icur, pend0) =~= Seq::<
                                Seq<char>,
                            >::empty());
                            assert(consumed(pend0) == 0);
                        }
                        assert(self.transcript() + run_announcements(labels0, icur, pend0)
                            =~= self.transcript());
                        assert forall|j: int| 0 <= j < len implies #[trigger] self.nodes()[j].handled()
                            + run_forwarded(len, icur, pend0, j) == self.nodes()[j].handled() by {
                            assert(run_forwarded(len, icur, pend0, j) =~= Seq::<
                                GamepadEvent,
                            >::empty());
                            assert(self.nodes()[j].handled() + Seq::<GamepadEvent>::empty()
                                =~= self.nodes()[j].handled());
                        }
                    }
                },
                _ => {
                    let i = self.current_index;
                    self.control_nodes[i].handle_event(event);
                    proof {
                        assert(self.labels() =~= labels0);
                        assert(run_index(len, icur, pend0) == run_index(
                            len,
                            icur,
                            pend0.drop_first(),
                        ));
                        assert(run_announcements(labels0, icur, pend0) == run_announcements(
                            labels0,
                            icur,
                            pend0.drop_first(),
                        ));
                        assert(consumed(pend0) == 1 + consumed(pend0.drop_first()));
                        assert forall|j: int| 0 <= j < len implies #[trigger] ncur[j].handled()
                            + run_forwarded(len, icur, pend0, j) == self.nodes()[j].handled()
                            + run_forwarded(len, icur, pend0.drop_first(), j) by {
                            if j == icur {
                                assert(run_forwarded(len, icur, pend0, j) == seq![pend0[0]]
                                    + run_forwarded(len, icur, pend0.drop_first(), j));
                                assert(ncur[j].handled() + (seq![pend0[0]] + run_forwarded(
                                    len,
                                    icur,
                                    pend0.drop_first(),
                                    j,
                                )) =~= self.nodes()[j].handled() + run_forwarded(
                                    len,
                                    icur,
                                    pend0.drop_first(),
                                    j,
                                ));
                            } else {
                                assert(run_forwarded(len, icur, pend0, j) == run_forwarded(
                                    len,
                                    icur,
                                    pend0.drop_first(),
                                    j,
                                ));
                            }
                        }
                    }
                },
            }
        }
        gamepad.stop();
        proof {
            assert(gamepad.pending() =~= g0.skip(consumed(g0)));
        }
        Ok(())
    }
}

} // verus!
