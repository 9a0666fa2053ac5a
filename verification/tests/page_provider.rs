//! What a platform has from managing its pages alone.

use litebox::flags::MemoryRegionPermissions;
use litebox::mm::ranges::AddrRange;
use litebox::page_mgmt::{
    AllocationError, CowAllocationError, DeallocationError, FixedAddressBehavior,
    PageManagementProvider, PermissionUpdateError, RawPointerProvider, RemapError, RemapFault,
};
use litebox::shim::process::{Layer, LinuxShimBuilder, LiteBox};

const PAGE: usize = 0x1000;

fn perms(read: bool, write: bool, execute: bool) -> MemoryRegionPermissions {
    MemoryRegionPermissions {
        read,
        write,
        execute,
        shared: false,
    }
}

/// A platform with a small memory, which refuses as it is told.
struct Host {
    memory: Vec<u8>,
    calls: Vec<&'static str>,
    allocation: Option<AllocationError>,
    refuse_updates: bool,
    refuse_reads: bool,
    refuse_writes: bool,
    refuse_freeing: bool,
}

impl Host {
    fn new() -> Host {
        Host {
            memory: (0..PAGE * 16).map(|i| (i / 7) as u8).collect(),
            calls: Vec::new(),
            allocation: None,
            refuse_updates: false,
            refuse_reads: false,
            refuse_writes: false,
            refuse_freeing: false,
        }
    }
}

impl RawPointerProvider for Host {
    fn read_slice(&mut self, addr: usize, len: usize) -> Option<Vec<u8>> {
        self.calls.push("read");
        if self.refuse_reads {
            return None;
        }
        Some(self.memory[addr..addr + len].to_vec())
    }

    fn write_slice(&mut self, addr: usize, data: &[u8]) -> bool {
        self.calls.push("write");
        if self.refuse_writes {
            return false;
        }
        self.memory[addr..addr + data.len()].copy_from_slice(data);
        true
    }
}

impl PageManagementProvider<PAGE> for Host {
    const TASK_ADDR_MIN: usize = 0;
    const TASK_ADDR_MAX: usize = PAGE * 16;

    fn allocate_pages(
        &mut self,
        suggested_range: AddrRange,
        initial_permissions: MemoryRegionPermissions,
        can_grow_down: bool,
        populate_pages_immediately: bool,
        fixed_address_behavior: FixedAddressBehavior,
    ) -> Result<usize, AllocationError> {
        assert!(initial_permissions.write);
        assert!(!can_grow_down && populate_pages_immediately);
        assert_eq!(fixed_address_behavior, FixedAddressBehavior::NoReplace);
        self.calls.push("allocate");
        match self.allocation {
            Some(e) => Err(e),
            None => Ok(suggested_range.start),
        }
    }

    fn deallocate_pages(&mut self, _range: AddrRange) -> Result<(), DeallocationError> {
        self.calls.push("free");
        if self.refuse_freeing {
            Err(DeallocationError::AlreadyUnallocated)
        } else {
            Ok(())
        }
    }

    fn update_permissions(
        &mut self,
        _range: AddrRange,
        _new_permissions: MemoryRegionPermissions,
    ) -> Result<(), PermissionUpdateError> {
        self.calls.push("update");
        if self.refuse_updates {
            Err(PermissionUpdateError::Unallocated)
        } else {
            Ok(())
        }
    }

    fn reserved_pages(&self) -> Vec<AddrRange> {
        Vec::new()
    }
}

fn old_range() -> AddrRange {
    AddrRange::new(PAGE, 3 * PAGE)
}

fn new_range() -> AddrRange {
    AddrRange::new(8 * PAGE, 12 * PAGE)
}

#[test]
fn moved_pages_keep_their_bytes() {
    let mut host = Host::new();
    let before = host.memory[PAGE..3 * PAGE].to_vec();
    let moved = host.remap_pages(old_range(), new_range(), perms(true, true, false));
    assert_eq!(moved, Ok(Ok(8 * PAGE)));
    assert_eq!(host.memory[8 * PAGE..10 * PAGE], before);
    assert_eq!(
        host.calls,
        vec!["allocate", "read", "write", "read", "write", "free"]
    );
}

#[test]
fn nothing_can_be_moved_to_pages_around_it() {
    let mut host = Host::new();
    let empty = AddrRange::new(9 * PAGE, 9 * PAGE);
    let moved = host.remap_pages(empty, new_range(), perms(true, true, false));
    assert_eq!(moved, Ok(Ok(8 * PAGE)));
    assert_eq!(host.calls, vec!["allocate", "free"]);
}

#[test]
fn permissions_are_lifted_for_the_copy() {
    let mut host = Host::new();
    let moved = host.remap_pages(old_range(), new_range(), perms(false, false, false));
    assert_eq!(moved, Ok(Ok(8 * PAGE)));
    assert_eq!(
        host.calls,
        vec!["allocate", "update", "read", "write", "read", "write", "update", "free"]
    );
}

#[test]
fn refused_pages_leave_the_old_ones() {
    for (refusal, outcome) in [
        (
            AllocationError::OutOfMemory,
            Ok(Err(RemapError::OutOfMemory)),
        ),
        (
            AllocationError::PermissionDenied,
            Ok(Err(RemapError::PermissionDenied)),
        ),
        (
            AllocationError::AddressInUse,
            Ok(Err(RemapError::AlreadyAllocated)),
        ),
        (
            AllocationError::AddressInUseByPlatform,
            Ok(Err(RemapError::AlreadyAllocated)),
        ),
        (
            AllocationError::Unaligned,
            Err(RemapFault::AllocationRejected(AllocationError::Unaligned)),
        ),
        (
            AllocationError::BelowMinAddress,
            Err(RemapFault::AllocationRejected(
                AllocationError::BelowMinAddress,
            )),
        ),
        (
            AllocationError::AddressPartiallyInUse,
            Err(RemapFault::AllocationRejected(
                AllocationError::AddressPartiallyInUse,
            )),
        ),
    ] {
        let mut host = Host::new();
        host.allocation = Some(refusal);
        assert_eq!(
            host.remap_pages(old_range(), new_range(), perms(true, true, false)),
            outcome
        );
        assert_eq!(host.calls, vec!["allocate"]);
    }
}

#[test]
fn moves_stop_where_the_platform_fails() {
    let mut host = Host::new();
    host.refuse_updates = true;
    assert_eq!(
        host.remap_pages(old_range(), new_range(), perms(false, true, false)),
        Err(RemapFault::ReadPermission)
    );
    assert_eq!(
        host.remap_pages(old_range(), new_range(), perms(true, false, false)),
        Err(RemapFault::RestorePermission)
    );
    let mut host = Host::new();
    host.refuse_reads = true;
    assert_eq!(
        host.remap_pages(old_range(), new_range(), perms(true, true, false)),
        Err(RemapFault::Copy)
    );
    let mut host = Host::new();
    host.refuse_writes = true;
    assert_eq!(
        host.remap_pages(old_range(), new_range(), perms(true, true, false)),
        Err(RemapFault::Copy)
    );
    let mut host = Host::new();
    host.refuse_freeing = true;
    assert_eq!(
        host.remap_pages(old_range(), new_range(), perms(true, true, false)),
        Err(RemapFault::Deallocate)
    );
    assert_eq!(
        RemapFault::Deallocate.message(),
        "failed to deallocate old range"
    );
}

#[test]
fn pages_are_not_shared_unless_the_platform_can() {
    let mut host = Host::new();
    assert_eq!(
        host.try_allocate_cow_pages(
            0,
            &[],
            perms(true, true, false),
            FixedAddressBehavior::Replace
        ),
        Err(CowAllocationError::UnsupportedByPlatform)
    );
    assert!(host.calls.is_empty());
}

#[test]
fn errors_are_told_in_words() {
    assert_eq!(
        AllocationError::AddressInUse.message(),
        "provided fixed address range is in use"
    );
    assert_eq!(
        DeallocationError::AlreadyUnallocated.message(),
        "provided range contains unallocated pages"
    );
    assert_eq!(
        RemapError::Overlapping.message(),
        "provided ranges were overlapping"
    );
    assert_eq!(
        PermissionUpdateError::PlatformFailure.message(),
        "platform failed to update page permissions"
    );
    assert_eq!(CowAllocationError::Unaligned.message(), "unaligned request");
}

#[test]
fn shims_are_built_for_a_platform() {
    let platform: &'static Host = Box::leak(Box::new(Host::new()));
    let builder = LinuxShimBuilder::new(platform);
    assert!(std::ptr::eq(builder.litebox().platform, platform));
    let fs = builder.default_fs(5u32, vec![1, 2]);
    assert_eq!(fs.mounts.len(), 2);
    assert_eq!((fs.mounts[0].path, fs.mounts[0].nestable), ("/", true));
    match &fs.mounts[0].layer {
        Layer::Overlay { upper, lower_tar } => {
            assert_eq!((*upper, lower_tar.as_slice()), (5, &[1u8, 2][..]));
        }
        Layer::Devices => panic!("the root is no device"),
    }
    assert_eq!((fs.mounts[1].path, fs.mounts[1].nestable), ("/dev", false));
    assert!(matches!(fs.mounts[1].layer, Layer::Devices));
    let shim = builder.build();
    assert_eq!(shim.next_thread_id, 2);
    assert!(std::ptr::eq(shim.platform(), platform));
    let other = LinuxShimBuilder::new_with_litebox(platform, LiteBox::new(platform)).build();
    assert!(std::ptr::eq(other.litebox().platform, platform));
}
