//! The marshalling boundary.
//!
//! Every value that crosses between the host and a capability
//! implementation is copied through an ABI-stable representation:
//! numeric vectors through `RVec`, text through `RString`, durations
//! through `RDuration`.  No shared mutable buffer ever crosses.

use vstd::prelude::*;
use crate::duration::Duration;

verus! {

/// Relies on `abi_stable::std_types::RVec`: `From<Vec<T>>` moves the
/// elements into the ABI-stable vector and `into_vec` moves the same
/// elements back out, in order.
#[verifier::external_body]
pub(crate) fn marshal_u64s(values: Vec<u64>) -> (r: Vec<u64>)
    ensures
        r@ == values@,
{
    abi_stable::std_types::RVec::from(values).into_vec()
}

/// Relies on `abi_stable::std_types::RString`: `From<String>` reuses
/// the string's bytes and `into_string` turns the same bytes back into
/// the same text.
#[verifier::external_body]
pub(crate) fn marshal_text(text: String) -> (r: String)
    ensures
        r@ == text@,
{
    abi_stable::std_types::RString::from(text).into_string()
}

/// Relies on `abi_stable::std_types::RDuration`: `new` stores the
/// seconds and sub-second nanoseconds as given, and `seconds` /
/// `subsec_nanos` return exactly the stored fields.
#[verifier::external_body]
pub(crate) fn marshal_duration(duration: Duration) -> (r: Duration)
    ensures
        r == duration,
{
    let boundary = abi_stable::std_types::RDuration::new(duration.secs, duration.nanos);
    Duration { secs: boundary.seconds(), nanos: boundary.subsec_nanos() }
}

} // verus!
