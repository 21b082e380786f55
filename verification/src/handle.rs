//! Non-null opaque handle to a native engine resource.
//!
//! Every resource of the native engine (model, speaker model, batch model,
//! recognizer, batch recognizer) is reached through one pointer-sized handle.
//! The engine reports every acquisition failure uniformly as a null handle,
//! so the single invariant this type maintains is that a constructed handle
//! is never null.  The type is deliberately not `Clone`/`Copy`: one wrapper
//! value stands for one ownership of the underlying resource, and copying it
//! would create two owners.
use vstd::prelude::*;

verus! {

/// One validated, non-null handle to a native resource.
///
/// The embedding layer that performs the actual native calls obtains the raw
/// pointer, converts it to its address, and builds a `NativeHandle` from it;
/// construction fails exactly when the address is null.  Release of the
/// native resource is likewise performed by the embedding layer, which owns
/// the raw pointer for exactly as long as it holds the wrapper built here.
#[derive(Debug)]
pub struct NativeHandle {
    addr: usize,
}

impl NativeHandle {
    /// The address the handle wraps.
    pub closed spec fn addr_spec(&self) -> usize {
        self.addr
    }

    #[verifier::type_invariant]
    spec fn non_null(self) -> bool {
        self.addr != 0
    }

    /// Validates a raw acquisition result: a null address means the native
    /// "new" call failed, and no handle is produced.
    pub fn new(addr: usize) -> (r: Option<NativeHandle>)
        ensures
            r is Some <==> addr != 0,
            r is Some ==> r->Some_0.addr_spec() == addr,
    {
        if addr == 0 {
            None
        } else {
            Some(NativeHandle { addr })
        }
    }

    /// The wrapped address, always non-null.
    pub fn addr(&self) -> (r: usize)
        ensures
            r == self.addr_spec(),
            r != 0,
    {
        proof {
            use_type_invariant(self);
        }
        self.addr
    }
}

} // verus!
