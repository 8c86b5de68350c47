//! Identity handles carried by envelopes: the principal that names a target
//! engine and the foreign key into the external thread store.

use vstd::prelude::*;

verus! {

/// The raw byte form of the anonymous principal.
pub const ANONYMOUS_PRINCIPAL_BYTE: u8 = 4;

/// The largest number of bytes a principal may hold.
pub const MAX_PRINCIPAL_LEN: usize = 29;

/// An engine or caller identity, held as its raw bytes.
///
/// The platform's identity layer assigns each engine an opaque principal of
/// at most 29 bytes; this type carries that identity as a plain value so
/// that contracts can speak of it. The well-known anonymous principal is the
/// single byte `4`.
#[derive(Clone, Debug)]
pub struct Principal {
    /// The raw bytes of the identity.
    pub bytes: Vec<u8>,
}

impl Principal {
    /// A principal is well formed when its byte form does not exceed the
    /// maximum length.
    pub open spec fn wf(self) -> bool {
        self.bytes@.len() <= MAX_PRINCIPAL_LEN
    }

    /// The well-known sentinel identity for unauthenticated or
    /// system-originated requests: the single byte `4`.
    pub fn anonymous() -> (r: Principal)
        ensures
            r.bytes@ == seq![ANONYMOUS_PRINCIPAL_BYTE],
            r.wf(),
    {
        let mut bytes: Vec<u8> = Vec::new();
        bytes.push(ANONYMOUS_PRINCIPAL_BYTE);
        Principal { bytes }
    }

    /// Builds a principal from raw bytes, rejecting byte forms longer than
    /// the maximum: returns `Some` exactly when the length is within bounds.
    pub fn from_bytes(bytes: Vec<u8>) -> (r: Option<Principal>)
        ensures
            bytes@.len() <= MAX_PRINCIPAL_LEN <==> r is Some,
            r matches Some(p) ==> p.bytes@ == bytes@ && p.wf(),
    {
        if bytes.len() <= MAX_PRINCIPAL_LEN {
            Some(Principal { bytes })
        } else {
            None
        }
    }

    /// True exactly when this principal is the anonymous sentinel.
    pub fn is_anonymous(&self) -> (r: bool)
        ensures
            r == (self.bytes@ == seq![ANONYMOUS_PRINCIPAL_BYTE]),
    {
        if self.bytes.len() == 1 {
            let b = self.bytes[0];
            proof {
                assert(self.bytes@ =~= seq![self.bytes@[0]]);
            }
            b == ANONYMOUS_PRINCIPAL_BYTE
        } else {
            false
        }
    }
}

/// The identity of a persisted conversation thread: an opaque foreign key
/// into the external thread store.
#[derive(Clone, Debug)]
pub struct ThreadId {
    /// The opaque key, as the thread store renders it.
    pub id: String,
}

} // verus!
