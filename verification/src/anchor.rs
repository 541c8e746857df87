//! Rendezvous keys and the anchor metadata they are derived from.
//!
//! An anchor file is never stored: a caller supplies the metadata it observed
//! on its own handle, and the broker extracts from it the `(device, inode)`
//! pair — the filesystem object's system-wide identity — and the permission
//! bits that prove writability.

use vstd::prelude::*;

verus! {

/// The permission bits that grant write access to anyone (owner, group or
/// other), as the low nine mode bits lay them out.
pub const WRITE_BITS: u32 = 0o222;

/// A filesystem object's system-wide identity: the device the object lives
/// on and its inode number there. Two file handles derive the same key if
/// and only if they reference the same filesystem object, independent of
/// path, process, or open mode.
#[derive(Clone, Copy, PartialEq, Eq, Hash, Structural, Debug)]
pub struct RendezvousKey {
    pub device_id: u64,
    pub inode_id: u64,
}

/// What a caller observed of an anchor file's metadata: the identity of the
/// backing filesystem object and its permission bits. The anchor's content
/// plays no part.
#[derive(Clone, Copy, PartialEq, Eq, Structural, Debug)]
pub struct AnchorMeta {
    pub device_id: u64,
    pub inode_id: u64,
    /// The file's mode bits; only the write bits are consulted.
    pub mode: u32,
}

impl AnchorMeta {
    /// The rendezvous key this anchor resolves to.
    pub open spec fn spec_key(self) -> RendezvousKey {
        RendezvousKey { device_id: self.device_id, inode_id: self.inode_id }
    }

    /// Whether the anchor's permission bits grant write access at all: the
    /// access-control guard's criterion. A file none of whose write bits are
    /// set is read-only, and registration through it is refused.
    pub open spec fn spec_writable(self) -> bool {
        self.mode & WRITE_BITS != 0
    }

    /// Derive the rendezvous key from the anchor's metadata.
    pub fn key(&self) -> (k: RendezvousKey)
        ensures
            k == self.spec_key(),
    {
        RendezvousKey { device_id: self.device_id, inode_id: self.inode_id }
    }

    /// Decide whether this anchor authorizes registration.
    pub fn writable(&self) -> (w: bool)
        ensures
            w == self.spec_writable(),
    {
        self.mode & WRITE_BITS != 0
    }
}

} // verus!
