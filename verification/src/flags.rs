//! Protection and mapping flags.

use vstd::prelude::*;

verus! {

/// Permissions for a memory region.
#[derive(Clone, Copy, Debug, PartialEq, Eq, Structural)]
pub struct MemoryRegionPermissions {
    /// Readable.
    pub read: bool,
    /// Writable.
    pub write: bool,
    /// Executable.
    pub execute: bool,
    /// Sharable between processes.
    pub shared: bool,
}

impl MemoryRegionPermissions {
    /// No permission at all.
    pub fn empty() -> (perms: MemoryRegionPermissions)
        ensures
            perms == (MemoryRegionPermissions {
                read: false,
                write: false,
                execute: false,
                shared: false,
            }),
    {
        MemoryRegionPermissions { read: false, write: false, execute: false, shared: false }
    }

    /// The permissions of `self` or of `other`.
    pub open spec fn joined(self, other: MemoryRegionPermissions) -> MemoryRegionPermissions {
        MemoryRegionPermissions {
            read: self.read || other.read,
            write: self.write || other.write,
            execute: self.execute || other.execute,
            shared: self.shared || other.shared,
        }
    }

    /// The permissions of `self` or of `other`.
    pub fn union(self, other: MemoryRegionPermissions) -> (both: MemoryRegionPermissions)
        ensures
            both == self.joined(other),
    {
        MemoryRegionPermissions {
            read: self.read || other.read,
            write: self.write || other.write,
            execute: self.execute || other.execute,
            shared: self.shared || other.shared,
        }
    }

    /// Whether `self` grants all that `other` grants.
    pub open spec fn covers(self, other: MemoryRegionPermissions) -> bool {
        &&& other.read ==> self.read
        &&& other.write ==> self.write
        &&& other.execute ==> self.execute
        &&& other.shared ==> self.shared
    }

    /// Whether `self` grants all that `other` grants.
    pub fn contains(self, other: MemoryRegionPermissions) -> (covered: bool)
        ensures
            covered == self.covers(other),
    {
        (!other.read || self.read) && (!other.write || self.write) && (!other.execute
            || self.execute) && (!other.shared || self.shared)
    }

    /// Whether `self` grants nothing.
    pub fn is_empty(self) -> (none: bool)
        ensures
            none == !(self.read || self.write || self.execute || self.shared),
    {
        !(self.read || self.write || self.execute || self.shared)
    }

    /// `self`, made readable.
    pub open spec fn with_read(self) -> MemoryRegionPermissions {
        MemoryRegionPermissions { read: true, ..self }
    }

    /// `self`, made writable.
    pub open spec fn with_write(self) -> MemoryRegionPermissions {
        MemoryRegionPermissions { write: true, ..self }
    }
}

/// Protection that a guest asks for.
#[derive(Clone, Copy, Debug, PartialEq, Eq, Structural)]
pub struct ProtFlags {
    /// The pages may be read.
    pub read: bool,
    /// The pages may be written.
    pub write: bool,
    /// The pages may be executed.
    pub execute: bool,
}

impl ProtFlags {
    /// Read and write.
    pub open spec fn rw() -> ProtFlags {
        ProtFlags { read: true, write: true, execute: false }
    }

    /// Read and execute.
    pub open spec fn rx() -> ProtFlags {
        ProtFlags { read: true, write: false, execute: true }
    }

    /// Read and write.
    pub fn read_write() -> (prot: ProtFlags)
        ensures
            prot == ProtFlags::rw(),
    {
        ProtFlags { read: true, write: true, execute: false }
    }

    /// Read and execute.
    pub fn read_exec() -> (prot: ProtFlags)
        ensures
            prot == ProtFlags::rx(),
    {
        ProtFlags { read: true, write: false, execute: true }
    }

    /// The permissions of a private region with this protection.
    pub open spec fn as_permissions(self) -> MemoryRegionPermissions {
        MemoryRegionPermissions {
            read: self.read,
            write: self.write,
            execute: self.execute,
            shared: false,
        }
    }

    /// The permissions of a private region with this protection.
    pub fn permissions(self) -> (perms: MemoryRegionPermissions)
        ensures
            perms == self.as_permissions(),
    {
        MemoryRegionPermissions {
            read: self.read,
            write: self.write,
            execute: self.execute,
            shared: false,
        }
    }
}

/// How a guest wants a mapping placed and backed.
#[derive(Clone, Copy, Debug, PartialEq, Eq, Structural)]
pub struct MapFlags {
    pub shared: bool,
    pub private: bool,
    pub anonymous: bool,
    /// Place the mapping at the address, replacing what is there.
    pub fixed: bool,
    /// Place the mapping at the address, or fail if something is there.
    pub fixed_noreplace: bool,
    pub low_32bit: bool,
    pub grows_down: bool,
    pub locked: bool,
    pub nonblock: bool,
    pub sync: bool,
    pub huge_tlb: bool,
    pub huge_2mb: bool,
    pub huge_1gb: bool,
}

impl MapFlags {
    /// No flag at all.
    pub open spec fn none() -> MapFlags {
        MapFlags {
            shared: false,
            private: false,
            anonymous: false,
            fixed: false,
            fixed_noreplace: false,
            low_32bit: false,
            grows_down: false,
            locked: false,
            nonblock: false,
            sync: false,
            huge_tlb: false,
            huge_2mb: false,
            huge_1gb: false,
        }
    }

    /// No flag at all.
    pub fn empty() -> (flags: MapFlags)
        ensures
            flags == MapFlags::none(),
    {
        MapFlags {
            shared: false,
            private: false,
            anonymous: false,
            fixed: false,
            fixed_noreplace: false,
            low_32bit: false,
            grows_down: false,
            locked: false,
            nonblock: false,
            sync: false,
            huge_tlb: false,
            huge_2mb: false,
            huge_1gb: false,
        }
    }

    /// Whether one of the flags is set that mapping does not support.
    pub open spec fn has_unsupported(self) -> bool {
        self.low_32bit || self.grows_down || self.locked || self.nonblock || self.sync
            || self.huge_tlb || self.huge_2mb || self.huge_1gb
    }

    /// Whether one of the flags is set that mapping does not support.
    pub fn is_unsupported(self) -> (unsupported: bool)
        ensures
            unsupported == self.has_unsupported(),
    {
        self.low_32bit || self.grows_down || self.locked || self.nonblock || self.sync
            || self.huge_tlb || self.huge_2mb || self.huge_1gb
    }
}

/// The processor whose conventions a guest follows.
#[derive(Clone, Copy, Debug, PartialEq, Eq, Structural)]
pub enum Arch {
    X86_64,
    Aarch64,
}

/// What two permissions grant together is what either grants, and no more: it
/// covers both, and whatever covers both covers it.
pub proof fn joined_permissions_are_the_least(
    a: MemoryRegionPermissions,
    b: MemoryRegionPermissions,
    c: MemoryRegionPermissions,
)
    ensures
        a.joined(b).covers(a),
        a.joined(b).covers(b),
        c.covers(a) && c.covers(b) ==> c.covers(a.joined(b)),
        a.covers(b) && b.covers(a) ==> a == b,
{
}

/// A private region grants what its protection grants, and is not shared. Code
/// that is patched is never writable while it can run.
pub proof fn protections_grant_what_they_say(prot: ProtFlags)
    ensures
        prot.as_permissions().read == prot.read,
        prot.as_permissions().write == prot.write,
        prot.as_permissions().execute == prot.execute,
        !prot.as_permissions().shared,
        ProtFlags::rx().execute && ProtFlags::rx().read && !ProtFlags::rx().write,
        ProtFlags::rw().write && ProtFlags::rw().read && !ProtFlags::rw().execute,
{
}

} // verus!
