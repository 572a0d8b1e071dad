use vstd::prelude::*;

verus! {

/// Gamepad button identifiers.
#[derive(Clone, Copy, PartialEq, Eq, Structural, Debug)]
pub enum Button {
    South,
    East,
    North,
    West,
    LeftTrigger,
    LeftTrigger2,
    RightTrigger,
    RightTrigger2,
    Select,
    Start,
    Mode,
    LeftThumb,
    RightThumb,
    DPadUp,
    DPadDown,
    DPadLeft,
    DPadRight,
    Unknown,
}

/// Gamepad axis identifiers.
#[derive(Clone, Copy, PartialEq, Eq, Structural, Debug)]
pub enum Axis {
    LeftStickX,
    LeftStickY,
    LeftTrigger,
    RightStickX,
    RightStickY,
    RightTrigger,
    DPadX,
    DPadY,
    Unknown,
}

/// One gamepad event.  An axis value is carried as the raw bit pattern
/// of a 64-bit floating point number; the runtime forwards it without
/// ever interpreting it.  `Unknown` is the sentinel that reports a
/// malfunctioning or disconnected device.
#[derive(Clone, Copy, PartialEq, Eq, Structural, Debug)]
pub enum GamepadEvent {
    ButtonPressed(Button),
    ButtonReleased(Button),
    AxisChanged(Axis, u64),
    Unknown,
}

/// A source of gamepad events.
///
/// The model view `pending` is the sequence of events the device will
/// still deliver: `next_event` hands out the front of that sequence and,
/// once it is exhausted, reports the `Unknown` sentinel forever, which
/// is how a dead device announces itself.  `stops` counts how often the
/// cancellation signal `stop` has been raised; an implementation must
/// honor it by eventually letting a pending read return.
pub trait Gamepad: Sized {
    spec fn pending(&self) -> Seq<GamepadEvent>;

    spec fn stops(&self) -> u64;

    fn next_event(&mut self) -> (ev: GamepadEvent)
        ensures
            final(self).stops() == old(self).stops(),
            old(self).pending().len() == 0 ==> ev == GamepadEvent::Unknown
                && final(self).pending() == old(self).pending(),
            old(self).pending().len() > 0 ==> ev == old(self).pending()[0]
                && final(self).pending() == old(self).pending().drop_first(),
    ;

    fn stop(&mut self)
        requires
            old(self).stops() < u64::MAX,
        ensures
            final(self).stops() == old(self).stops() + 1,
            final(self).pending() == old(self).pending(),
    ;
}

/// A gamepad that replays a fixed script of events; the reference
/// implementation used to exercise the runtime.
pub struct ScriptedGamepad {
    pub script: Vec<GamepadEvent>,
    pub cursor: usize,
    pub stop_count: u64,
}

impl ScriptedGamepad {
    pub fn new(script: Vec<GamepadEvent>) -> (r: ScriptedGamepad)
        ensures
            r.pending() == script@,
            r.stops() == 0,
    {
        ScriptedGamepad { script, cursor: 0, stop_count: 0 }
    }
}

impl Gamepad for ScriptedGamepad {
    open spec fn pending(&self) -> Seq<GamepadEvent> {
        if self.cursor <= self.script@.len() {
            self.script@.skip(self.cursor as int)
        } else {
            Seq::empty()
        }
    }

    open spec fn stops(&self) -> u64 {
        self.stop_count
    }

    fn next_event(&mut self) -> (ev: GamepadEvent) {
        let ghost pre = *self;
        if self.cursor < self.script.len() {
            let ev = self.script[self.cursor];
            self.cursor = self.cursor + 1;
            proof {
                assert(self.pending() =~= pre.pending().drop_first());
            }
            ev
        } else {
            proof {
                assert(pre.pending().len() == 0);
            }
            GamepadEvent::Unknown
        }
    }

    fn stop(&mut self) {
        self.stop_count = self.stop_count + 1;
    }
}

/// A capability proxy for a gamepad implementation living behind the
/// plugin boundary.  Every event read is forwarded to the wrapped
/// implementation; cancellation is forwarded synchronously.
pub struct GamepadProxy<G: Gamepad> {
    pub inner: G,
}

impl<G: Gamepad> GamepadProxy<G> {
    /// Creates a new `GamepadProxy`.
    pub fn new(gamepad: G) -> (r: GamepadProxy<G>)
        ensures
            r.pending() == gamepad.pending(),
            r.stops() == gamepad.stops(),
    {
        GamepadProxy { inner: gamepad }
    }
}

impl<G: Gamepad> Gamepad for GamepadProxy<G> {
    open spec fn pending(&self) -> Seq<GamepadEvent> {
        self.inner.pending()
    }

    open spec fn stops(&self) -> u64 {
        self.inner.stops()
    }

    fn next_event(&mut self) -> (ev: GamepadEvent) {
        self.inner.next_event()
    }

    fn stop(&mut self) {
        self.inner.stop();
    }
}

} // verus!
