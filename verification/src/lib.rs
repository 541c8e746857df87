//! A capability-exchange broker: two otherwise-unrelated processes rendezvous
//! on a commonly-known filesystem path. Whichever side arrives first deposits
//! a capability handle keyed by the anchor file's on-disk identity; the other
//! side later withdraws a shared reference to it.
//!
//! The broker neither reads nor writes the anchor file itself: a caller hands
//! in the plain metadata it observed on its own file handle (device, inode,
//! permission bits), and the broker derives the rendezvous key and performs
//! the access check from those values alone.

pub mod anchor;
pub mod broker;
pub mod handle;
pub mod laws;
pub mod registry;

pub use anchor::AnchorMeta;
pub use anchor::RendezvousKey;
pub use broker::Broker;
pub use broker::BrokerError;
pub use handle::CapabilityHandle;
pub use registry::Registry;
