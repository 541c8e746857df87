//! The capability handle a broker stores and hands out.
//!
//! A capability handle is an opaque, shareable reference to a remote object
//! reachable over the IPC transport. Cloning it duplicates the shared
//! reference: every holder is a co-owner of the same object, none with
//! exclusive destruction rights.

use vstd::prelude::*;

verus! {

/// rsbinder's strong binder reference. The broker treats it as a fully
/// opaque payload: it is stored, cloned and handed back, never inspected.
#[verifier::external_type_specification]
#[verifier::external_body]
pub struct ExSIBinder(rsbinder::SIBinder);

/// Relies on rsbinder's `SIBinder::clone`: a clone is the same strong
/// reference to the same binder object (it copies the inner shared pointer
/// and raises the reference count; nothing else distinguishes the two).
pub assume_specification[ <rsbinder::SIBinder as Clone>::clone ](
    b: &rsbinder::SIBinder,
) -> (r: rsbinder::SIBinder)
    ensures
        r == *b,
;

/// An opaque, shareable reference to a remote object reachable over the IPC
/// transport. The broker maps rendezvous keys to values of this type.
#[derive(PartialEq, Eq, Debug)]
pub struct CapabilityHandle {
    /// The transport-level reference this handle shares.
    pub binder: rsbinder::SIBinder,
}

impl Clone for CapabilityHandle {
    /// Duplicate the shared reference: the clone designates the very same
    /// remote object.
    fn clone(&self) -> (r: Self)
        ensures
            r == *self,
    {
        CapabilityHandle { binder: self.binder.clone() }
    }
}

} // verus!
