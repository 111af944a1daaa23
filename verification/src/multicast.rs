//! The one decision the publisher's socket setup rests on: whether the
//! configured destination is an IPv4 multicast address. Multicast is the
//! block 224.0.0.0/4, so the first octet alone decides.

use vstd::prelude::*;

verus! {

pub open spec fn spec_is_multicast_v4(first_octet: u8) -> bool {
    224 <= first_octet && first_octet <= 239
}

/// True exactly when an IPv4 address starting with this octet lies in
/// the multicast block 224.0.0.0/4. A publisher must refuse any other
/// destination at construction time.
pub fn is_multicast_v4(first_octet: u8) -> (r: bool)
    ensures
        r == spec_is_multicast_v4(first_octet),
{
    224 <= first_octet && first_octet <= 239
}

} // verus!
