//! The verified core of a terminal chat client: mirrors of remote ordered
//! sequences kept current by diffs (`mirror`), a bounded pagination request
//! queue with its render pass (`pagination`), the room listing (`rooms`), the
//! verified-device flag (`gate`), the device verification handshake
//! (`verification`) and the logged message preview (`messages`).
use vstd::prelude::*;

pub mod mirror;
pub mod pagination;
pub mod gate;
pub mod rooms;
pub mod verification;
pub mod messages;

verus! {

/// The default for settings that are on unless a configuration says otherwise.
pub fn default_true() -> (r: bool)
    ensures
        r,
{
    true
}

} // verus!
