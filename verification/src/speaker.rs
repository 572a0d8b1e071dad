use vstd::prelude::*;
use vstd::string::StringExecFns;
use crate::abi_marshal::marshal_text;
use crate::error::{CapabilityKind, Error};

verus! {

/// A speech output.  The model view `transcript` is the sequence of
/// messages spoken so far; completion of `speak` means the message was
/// fully delivered, not merely queued.  `infallible` says whether this
/// speaker is one whose delivery never fails; for such a speaker every
/// call is owed success.
pub trait Speaker: Sized {
    spec fn transcript(&self) -> Seq<Seq<char>>;

    spec fn infallible(&self) -> bool;

    fn speak(&mut self, message: &str) -> (r: Result<(), Error>)
        ensures
            final(self).infallible() == old(self).infallible(),
            old(self).infallible() ==> r is Ok,
            r is Ok ==> final(self).transcript() == old(self).transcript().push(message@),
            r is Err ==> final(self).transcript() == old(self).transcript(),
    ;
}

/// A speaker that records every message; the reference implementation
/// used to exercise the runtime.
pub struct RecordingSpeaker {
    pub spoken: Vec<String>,
}

impl RecordingSpeaker {
    pub fn new() -> (r: RecordingSpeaker)
        ensures
            r.transcript() == Seq::<Seq<char>>::empty(),
    {
        let r = RecordingSpeaker { spoken: Vec::new() };
        proof {
            assert(r.transcript() =~= Seq::<Seq<char>>::empty());
        }
        r
    }
}

impl Speaker for RecordingSpeaker {
    open spec fn transcript(&self) -> Seq<Seq<char>> {
        self.spoken@.map_values(|s: String| s@)
    }

    open spec fn infallible(&self) -> bool {
        true
    }

    fn speak(&mut self, message: &str) -> (r: Result<(), Error>) {
        let ghost pre = *self;
        self.spoken.push(message.to_owned());
        proof {
            assert(self.transcript() =~= pre.transcript().push(message@));
        }
        Ok(())
    }
}

/// A speaker whose device is gone: every call fails and nothing is
/// ever spoken.  The reference implementation for every caller's error
/// path.
pub struct FailingSpeaker {
    pub attempts: u64,
}

impl FailingSpeaker {
    pub fn new() -> (r: FailingSpeaker)
        ensures
            r.transcript() == Seq::<Seq<char>>::empty(),
    {
        FailingSpeaker { attempts: 0 }
    }
}

impl Speaker for FailingSpeaker {
    open spec fn transcript(&self) -> Seq<Seq<char>> {
        Seq::empty()
    }

    open spec fn infallible(&self) -> bool {
        false
    }

    fn speak(&mut self, message: &str) -> (r: Result<(), Error>)
        ensures
            r is Err,
    {
        if self.attempts < u64::MAX {
            self.attempts = self.attempts + 1;
        }
        Err(
            Error::CapabilityCall {
                kind: CapabilityKind::Speaker,
                message: String::from_str("speaker unavailable"),
            },
        )
    }
}

/// A capability proxy for a speaker implementation living behind the
/// plugin boundary.  The message text is marshalled through the
/// ABI-stable string representation before it is delivered.
pub struct SpeakerProxy<S: Speaker> {
    pub inner: S,
}

impl<S: Speaker> SpeakerProxy<S> {
    /// Creates a new `SpeakerProxy`.
    pub fn new(speaker: S) -> (r: SpeakerProxy<S>)
        ensures
            r.transcript() == speaker.transcript(),
            r.infallible() == speaker.infallible(),
    {
        SpeakerProxy { inner: speaker }
    }
}

impl<S: Speaker> Speaker for SpeakerProxy<S> {
    open spec fn transcript(&self) -> Seq<Seq<char>> {
        self.inner.transcript()
    }

    open spec fn infallible(&self) -> bool {
        self.inner.infallible()
    }

    fn speak(&mut self, message: &str) -> (r: Result<(), Error>) {
        let boundary = marshal_text(message.to_owned());
        self.inner.speak(boundary.as_str())
    }
}

} // verus!
