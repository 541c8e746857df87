//! The broker service: the two public operations, `register` and `exchange`,
//! composed from key derivation, the access-control guard and the registry.
//!
//! Both operations take the anchor as the metadata the caller observed on its
//! file handle, or nothing where that metadata could not be retrieved — the
//! guard is fail-closed, so an anchor whose identity is unknown is treated
//! exactly like one that is not writable.

use vstd::prelude::*;
use crate::anchor::AnchorMeta;
use crate::anchor::RendezvousKey;
use crate::handle::CapabilityHandle;
use crate::registry::Registry;
use crate::registry::empty_contents;

verus! {

/// The broker's domain errors, surfaced to the remote caller as structured
/// failures.
#[derive(Clone, Copy, PartialEq, Eq, Structural, Debug)]
pub enum BrokerError {
    /// The anchor is not writable, or its identity or metadata could not be
    /// determined (fail-closed).
    PermissionDenied,
    /// The key was already occupied at insertion time.
    AlreadyRegistered,
    /// Exchange was attempted on a key with no registered handle yet.
    NotFound,
}

/// Whether an anchor authorizes registration: its metadata was retrieved and
/// its permission bits grant write access.
pub open spec fn admits_registration(anchor: Option<AnchorMeta>) -> bool {
    match anchor {
        Option::Some(meta) => meta.spec_writable(),
        Option::None => false,
    }
}

/// The registry mapping after a `register` call: unchanged unless the anchor
/// admits registration and its key is vacant, in which case the handle is
/// inserted at that key.
pub open spec fn register_entries(
    entries: Map<RendezvousKey, CapabilityHandle>,
    anchor: Option<AnchorMeta>,
    handle: CapabilityHandle,
) -> Map<RendezvousKey, CapabilityHandle> {
    if admits_registration(anchor) && !entries.dom().contains(anchor->Some_0.spec_key()) {
        entries.insert(anchor->Some_0.spec_key(), handle)
    } else {
        entries
    }
}

/// What a `register` call reports: denial where the anchor does not admit
/// registration, loss of the race where the key is occupied, success exactly
/// where the handle was deposited.
pub open spec fn register_outcome(
    entries: Map<RendezvousKey, CapabilityHandle>,
    anchor: Option<AnchorMeta>,
) -> Result<(), BrokerError> {
    if !admits_registration(anchor) {
        Result::Err(BrokerError::PermissionDenied)
    } else if entries.dom().contains(anchor->Some_0.spec_key()) {
        Result::Err(BrokerError::AlreadyRegistered)
    } else {
        Result::Ok(())
    }
}

/// What an `exchange` call returns: the handle stored at the anchor's key;
/// `NotFound` where the key is vacant; denial only where the anchor's
/// identity could not be determined at all. No write-proof is asked of the
/// withdrawing side.
pub open spec fn exchange_outcome(
    entries: Map<RendezvousKey, CapabilityHandle>,
    anchor: Option<AnchorMeta>,
) -> Result<CapabilityHandle, BrokerError> {
    match anchor {
        Option::None => Result::Err(BrokerError::PermissionDenied),
        Option::Some(meta) => if entries.dom().contains(meta.spec_key()) {
            Result::Ok(entries[meta.spec_key()])
        } else {
            Result::Err(BrokerError::NotFound)
        },
    }
}

/// The broker service: owns the capability registry and exposes the two
/// rendezvous operations. Constructed once at process start and handed to
/// whatever dispatches incoming remote calls.
pub struct Broker {
    registry: Registry,
}

impl Broker {
    /// The mapping from rendezvous keys to capability handles this broker
    /// currently holds.
    pub closed spec fn entries(self) -> Map<RendezvousKey, CapabilityHandle> {
        self.registry.contents()
    }

    /// A broker that has registered nothing yet.
    pub fn new() -> (broker: Broker)
        ensures
            broker.entries() == empty_contents(),
    {
        Broker { registry: Registry::new() }
    }

    /// Deposit `handle` under the anchor's rendezvous key.
    ///
    /// The anchor must prove writability: a read-only anchor — or one whose
    /// metadata could not be determined — is refused with `PermissionDenied`
    /// whether or not its key is occupied. An occupied key is never
    /// overwritten: the loser of the race is told `AlreadyRegistered` and the
    /// first writer's handle stays. A caller that loses the race decides for
    /// itself whether that is expected contention; the broker retries nothing.
    pub fn register(&mut self, anchor: Option<AnchorMeta>, handle: CapabilityHandle) -> (result:
        Result<(), BrokerError>)
        ensures
            result == register_outcome(old(self).entries(), anchor),
            final(self).entries() == register_entries(old(self).entries(), anchor, handle),
    {
        let meta = match anchor {
            Option::Some(meta) => meta,
            Option::None => {
                return Result::Err(BrokerError::PermissionDenied);
            },
        };
        if !meta.writable() {
            return Result::Err(BrokerError::PermissionDenied);
        }
        if self.registry.try_insert(meta.key(), handle) {
            Result::Ok(())
        } else {
            Result::Err(BrokerError::AlreadyRegistered)
        }
    }

    /// Withdraw a shared reference to the handle deposited under the
    /// anchor's rendezvous key.
    ///
    /// A pure read: the registry is never changed, and no write-proof is
    /// required — any holder of a valid anchor handle, read-only openers
    /// included, may exchange. Where no handle is registered yet the caller
    /// is told `NotFound` and is expected to poll or block externally; where
    /// the anchor's identity could not be determined the guard fails closed
    /// with `PermissionDenied`.
    pub fn exchange(&self, anchor: Option<AnchorMeta>) -> (result: Result<
        CapabilityHandle,
        BrokerError,
    >)
        ensures
            result == exchange_outcome(self.entries(), anchor),
    {
        let meta = match anchor {
            Option::Some(meta) => meta,
            Option::None => {
                return Result::Err(BrokerError::PermissionDenied);
            },
        };
        match self.registry.lookup(meta.key()) {
            Option::Some(handle) => Result::Ok(handle),
            Option::None => Result::Err(BrokerError::NotFound),
        }
    }
}

} // verus!
