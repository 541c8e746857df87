//! The broker's laws, stated over the same spec functions its operations'
//! contracts use and proved once for all registry states.

use vstd::prelude::*;
use crate::anchor::AnchorMeta;
use crate::anchor::RendezvousKey;
use crate::broker::BrokerError;
use crate::broker::exchange_outcome;
use crate::broker::register_entries;
use crate::broker::register_outcome;
use crate::handle::CapabilityHandle;

verus! {

/// A successful registration is followed by a successful exchange: after a
/// writable anchor deposits `handle` at a vacant key, an exchange through any
/// anchor that resolves to the same key returns that very handle.
pub proof fn lemma_register_then_exchange(
    entries: Map<RendezvousKey, CapabilityHandle>,
    depositor: AnchorMeta,
    handle: CapabilityHandle,
    withdrawer: AnchorMeta,
)
    requires
        depositor.spec_writable(),
        !entries.dom().contains(depositor.spec_key()),
        withdrawer.spec_key() == depositor.spec_key(),
    ensures
        register_outcome(entries, Some(depositor)) is Ok,
        exchange_outcome(register_entries(entries, Some(depositor), handle), Some(withdrawer))
            == Result::<CapabilityHandle, BrokerError>::Ok(handle),
{
}

/// Two anchors that name the same filesystem object — the same device and
/// the same inode, as two hard-linked paths do — resolve to the same
/// rendezvous key, whatever their paths, processes or open modes.
pub proof fn lemma_same_object_same_key(first: AnchorMeta, second: AnchorMeta)
    requires
        first.device_id == second.device_id,
        first.inode_id == second.inode_id,
    ensures
        first.spec_key() == second.spec_key(),
{
}

/// Double registration: a second register call on an occupied key fails with
/// `AlreadyRegistered` and changes nothing, and a following exchange still
/// returns the first handle, not the second.
pub proof fn lemma_double_register(
    entries: Map<RendezvousKey, CapabilityHandle>,
    first: AnchorMeta,
    first_handle: CapabilityHandle,
    second: AnchorMeta,
    second_handle: CapabilityHandle,
)
    requires
        first.spec_writable(),
        second.spec_writable(),
        !entries.dom().contains(first.spec_key()),
        second.spec_key() == first.spec_key(),
    ensures
        ({
            let occupied = register_entries(entries, Some(first), first_handle);
            &&& register_outcome(occupied, Some(second))
                == Result::<(), BrokerError>::Err(BrokerError::AlreadyRegistered)
            &&& register_entries(occupied, Some(second), second_handle) == occupied
            &&& exchange_outcome(
                register_entries(occupied, Some(second), second_handle),
                Some(second),
            ) == Result::<CapabilityHandle, BrokerError>::Ok(first_handle)
        }),
{
}

/// An exchange on a key that no registration has touched reports `NotFound`.
pub proof fn lemma_exchange_unregistered(
    entries: Map<RendezvousKey, CapabilityHandle>,
    anchor: AnchorMeta,
)
    requires
        !entries.dom().contains(anchor.spec_key()),
    ensures
        exchange_outcome(entries, Some(anchor))
            == Result::<CapabilityHandle, BrokerError>::Err(BrokerError::NotFound),
{
}

/// A registration through a read-only anchor — or through one whose metadata
/// could not be determined — is refused with `PermissionDenied` and deposits
/// nothing, whether or not its key is vacant.
pub proof fn lemma_register_denied(
    entries: Map<RendezvousKey, CapabilityHandle>,
    anchor: Option<AnchorMeta>,
    handle: CapabilityHandle,
)
    requires
        anchor is Some ==> !anchor->Some_0.spec_writable(),
    ensures
        register_outcome(entries, anchor)
            == Result::<(), BrokerError>::Err(BrokerError::PermissionDenied),
        register_entries(entries, anchor, handle) == entries,
{
}

/// Entries persist: no registration ever removes or replaces a deposited
/// handle — a key, once occupied, keeps its first handle for the broker's
/// lifetime.
pub proof fn lemma_entries_persist(
    entries: Map<RendezvousKey, CapabilityHandle>,
    anchor: Option<AnchorMeta>,
    handle: CapabilityHandle,
    key: RendezvousKey,
)
    requires
        entries.dom().contains(key),
    ensures
        register_entries(entries, anchor, handle).dom().contains(key),
        register_entries(entries, anchor, handle)[key] == entries[key],
{
}

/// The registry mapping after a whole series of register calls through the
/// same anchor, each depositing its own handle, taken in serialization
/// order.
pub open spec fn register_all_entries(
    entries: Map<RendezvousKey, CapabilityHandle>,
    anchor: AnchorMeta,
    handles: Seq<CapabilityHandle>,
) -> Map<RendezvousKey, CapabilityHandle>
    decreases handles.len(),
{
    if handles.len() == 0 {
        entries
    } else {
        register_all_entries(
            register_entries(entries, Some(anchor), handles[0]),
            anchor,
            handles.skip(1),
        )
    }
}

/// What each of those register calls reports, in the same order.
pub open spec fn register_all_outcomes(
    entries: Map<RendezvousKey, CapabilityHandle>,
    anchor: AnchorMeta,
    handles: Seq<CapabilityHandle>,
) -> Seq<Result<(), BrokerError>>
    decreases handles.len(),
{
    if handles.len() == 0 {
        Seq::empty()
    } else {
        seq![register_outcome(entries, Some(anchor))] + register_all_outcomes(
            register_entries(entries, Some(anchor), handles[0]),
            anchor,
            handles.skip(1),
        )
    }
}

/// On an occupied key every further registration loses: each call reports
/// `AlreadyRegistered` and the mapping never changes.
pub proof fn lemma_register_all_occupied(
    entries: Map<RendezvousKey, CapabilityHandle>,
    anchor: AnchorMeta,
    handles: Seq<CapabilityHandle>,
)
    requires
        anchor.spec_writable(),
        entries.dom().contains(anchor.spec_key()),
    ensures
        register_all_entries(entries, anchor, handles) == entries,
        register_all_outcomes(entries, anchor, handles).len() == handles.len(),
        forall|i: int|
            0 <= i < handles.len() ==> register_all_outcomes(entries, anchor, handles)[i]
                == Result::<(), BrokerError>::Err(BrokerError::AlreadyRegistered),
    decreases handles.len(),
{
    if handles.len() > 0 {
        assert(register_entries(entries, Some(anchor), handles[0]) == entries);
        lemma_register_all_occupied(entries, anchor, handles.skip(1));
    }
}

/// Single flight: of any number of registration attempts on the same vacant
/// key, each bringing its own handle through a writable anchor, exactly one
/// succeeds — the first the registry serializes — and every other one is
/// told `AlreadyRegistered`. The registry ends holding the winner's handle,
/// and an exchange afterwards returns exactly that handle.
pub proof fn lemma_single_flight(
    entries: Map<RendezvousKey, CapabilityHandle>,
    anchor: AnchorMeta,
    handles: Seq<CapabilityHandle>,
)
    requires
        anchor.spec_writable(),
        !entries.dom().contains(anchor.spec_key()),
        handles.len() > 0,
    ensures
        register_all_outcomes(entries, anchor, handles).len() == handles.len(),
        register_all_outcomes(entries, anchor, handles)[0] is Ok,
        forall|i: int|
            1 <= i < handles.len() ==> register_all_outcomes(entries, anchor, handles)[i]
                == Result::<(), BrokerError>::Err(BrokerError::AlreadyRegistered),
        register_all_entries(entries, anchor, handles)
            == entries.insert(anchor.spec_key(), handles[0]),
        exchange_outcome(register_all_entries(entries, anchor, handles), Some(anchor))
            == Result::<CapabilityHandle, BrokerError>::Ok(handles[0]),
{
    let occupied = register_entries(entries, Some(anchor), handles[0]);
    assert(occupied == entries.insert(anchor.spec_key(), handles[0]));
    lemma_register_all_occupied(occupied, anchor, handles.skip(1));
}

} // verus!

