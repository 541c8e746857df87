use capbroker::AnchorMeta;
use capbroker::Broker;
use capbroker::BrokerError;
use capbroker::CapabilityHandle;
use rsbinder::Interface;

/// A minimal local binder object: enough to mint real `SIBinder` values
/// without any transport running.
struct Dummy;

impl rsbinder::Interface for Dummy {}

impl rsbinder::Remotable for Dummy {
    fn descriptor() -> &'static str {
        "capbroker.tests.Dummy"
    }

    fn on_transact(
        &self,
        _code: rsbinder::TransactionCode,
        _reader: &mut rsbinder::Parcel,
        _reply: &mut rsbinder::Parcel,
    ) -> rsbinder::Result<()> {
        Ok(())
    }

    fn on_dump(
        &self,
        _writer: &mut dyn std::io::Write,
        _args: &[String],
    ) -> rsbinder::Result<()> {
        Ok(())
    }
}

fn fresh_handle() -> CapabilityHandle {
    CapabilityHandle {
        binder: rsbinder::Binder::new(Dummy).as_binder(),
    }
}

fn writable_anchor(device_id: u64, inode_id: u64) -> AnchorMeta {
    AnchorMeta {
        device_id,
        inode_id,
        mode: 0o644,
    }
}

fn readonly_anchor(device_id: u64, inode_id: u64) -> AnchorMeta {
    AnchorMeta {
        device_id,
        inode_id,
        mode: 0o444,
    }
}

#[test]
fn register_then_exchange_returns_registered_handle() {
    let mut broker = Broker::new();
    let anchor = writable_anchor(7, 42);
    let handle = fresh_handle();

    assert_eq!(broker.register(Some(anchor), handle.clone()), Ok(()));
    assert_eq!(broker.exchange(Some(anchor)), Ok(handle));
}

#[test]
fn double_register_keeps_first_handle() {
    let mut broker = Broker::new();
    let anchor = writable_anchor(7, 42);
    let first = fresh_handle();
    let second = fresh_handle();

    assert_eq!(broker.register(Some(anchor), first.clone()), Ok(()));
    assert_eq!(
        broker.register(Some(anchor), second.clone()),
        Err(BrokerError::AlreadyRegistered)
    );

    let exchanged = broker.exchange(Some(anchor)).unwrap();
    assert_eq!(exchanged, first);
    assert_ne!(exchanged, second);
}

#[test]
fn exchange_unregistered_key_is_not_found() {
    let broker = Broker::new();
    assert_eq!(
        broker.exchange(Some(writable_anchor(1, 2))),
        Err(BrokerError::NotFound)
    );
}

#[test]
fn register_readonly_anchor_is_denied_even_on_vacant_key() {
    let mut broker = Broker::new();
    let anchor = readonly_anchor(3, 9);

    assert_eq!(
        broker.register(Some(anchor), fresh_handle()),
        Err(BrokerError::PermissionDenied)
    );
    // Nothing was deposited by the refused call.
    assert_eq!(broker.exchange(Some(anchor)), Err(BrokerError::NotFound));
}

#[test]
fn metadata_failure_fails_closed() {
    let mut broker = Broker::new();
    assert_eq!(
        broker.register(None, fresh_handle()),
        Err(BrokerError::PermissionDenied)
    );
    assert_eq!(broker.exchange(None), Err(BrokerError::PermissionDenied));
}

#[test]
fn hard_linked_paths_resolve_to_same_key() {
    let mut broker = Broker::new();
    // Two distinct paths, hard links to one inode: same device, same inode,
    // different open modes.
    let first_path = writable_anchor(11, 5005);
    let second_path = AnchorMeta {
        device_id: 11,
        inode_id: 5005,
        mode: 0o400,
    };
    let handle = fresh_handle();

    assert_eq!(broker.register(Some(first_path), handle.clone()), Ok(()));
    assert_eq!(broker.exchange(Some(second_path)), Ok(handle));
}

#[test]
fn distinct_objects_get_independent_keys() {
    let mut broker = Broker::new();
    let first = fresh_handle();
    let second = fresh_handle();

    assert_eq!(broker.register(Some(writable_anchor(1, 10)), first.clone()), Ok(()));
    assert_eq!(broker.register(Some(writable_anchor(1, 11)), second.clone()), Ok(()));
    // Same inode number on another device is another object.
    assert_eq!(broker.register(Some(writable_anchor(2, 10)), fresh_handle()), Ok(()));

    assert_eq!(broker.exchange(Some(writable_anchor(1, 10))), Ok(first));
    assert_eq!(broker.exchange(Some(writable_anchor(1, 11))), Ok(second));
}

#[test]
fn any_write_bit_admits_registration() {
    let mut broker = Broker::new();
    // Owner-only, group-only and other-only write bits each admit.
    let owner = AnchorMeta { device_id: 1, inode_id: 1, mode: 0o200 };
    let group = AnchorMeta { device_id: 1, inode_id: 2, mode: 0o020 };
    let other = AnchorMeta { device_id: 1, inode_id: 3, mode: 0o002 };
    assert_eq!(broker.register(Some(owner), fresh_handle()), Ok(()));
    assert_eq!(broker.register(Some(group), fresh_handle()), Ok(()));
    assert_eq!(broker.register(Some(other), fresh_handle()), Ok(()));

    // Execute and read bits alone do not.
    let exec_only = AnchorMeta { device_id: 1, inode_id: 4, mode: 0o555 };
    assert_eq!(
        broker.register(Some(exec_only), fresh_handle()),
        Err(BrokerError::PermissionDenied)
    );
}

#[test]
fn single_flight_many_registrations_one_winner() {
    let mut broker = Broker::new();
    let anchor = writable_anchor(9, 77);
    let contenders: Vec<CapabilityHandle> = (0..8).map(|_| fresh_handle()).collect();

    let mut wins: usize = 0;
    let mut losses: usize = 0;
    for handle in &contenders {
        match broker.register(Some(anchor), handle.clone()) {
            Ok(()) => wins += 1,
            Err(BrokerError::AlreadyRegistered) => losses += 1,
            Err(other) => panic!("unexpected error {:?}", other),
        }
    }

    assert_eq!(wins, 1);
    assert_eq!(losses, contenders.len() - 1);
    // The registry holds the winner's handle: the first serialized call.
    assert_eq!(broker.exchange(Some(anchor)), Ok(contenders[0].clone()));
}

#[test]
fn anchor_file_scenario() {
    // The agreed path is created; process A opens it writable, process B
    // read-only. Both observe the same device and inode.
    let device_id: u64 = 64513;
    let inode_id: u64 = 918273;
    let opened_by_a = AnchorMeta { device_id, inode_id, mode: 0o644 };
    let opened_by_b = AnchorMeta { device_id, inode_id, mode: 0o444 };

    let mut broker = Broker::new();
    let handle_a = fresh_handle();
    let handle_b = fresh_handle();

    // A registers its handle.
    assert_eq!(broker.register(Some(opened_by_a), handle_a.clone()), Ok(()));
    // B withdraws A's handle through its read-only view of the same path.
    assert_eq!(broker.exchange(Some(opened_by_b)), Ok(handle_a));
    // B reopens the path writable and tries to register its own handle:
    // the key is taken, so it is told so rather than overwriting A's deposit.
    let reopened_by_b = AnchorMeta { device_id, inode_id, mode: 0o644 };
    assert_eq!(
        broker.register(Some(reopened_by_b), handle_b),
        Err(BrokerError::AlreadyRegistered)
    );
}
