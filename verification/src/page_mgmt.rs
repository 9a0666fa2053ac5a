//! Page management that a platform offers.

use vstd::prelude::*;

use crate::flags::MemoryRegionPermissions;
use crate::mm::ranges::AddrRange;

verus! {

/// Behavior when allocating pages at a fixed address.
#[derive(Clone, Copy, Debug, PartialEq, Eq, Structural)]
pub enum FixedAddressBehavior {
    /// The address is just a hint: the platform may choose another if the hint
    /// is not available.
    Hint,
    /// Allocate the pages at the address, replacing any existing mappings.
    Replace,
    /// Allocate the pages at the address, failing if any part of the range is
    /// already in use.
    NoReplace,
}

/// Possible errors of allocation.
#[derive(Clone, Copy, Debug, PartialEq, Eq, Structural)]
pub enum AllocationError {
    Unaligned,
    BelowMinAddress,
    AboveMaxAddress,
    OutOfMemory,
    PermissionDenied,
    AddressInUse,
    AddressInUseByPlatform,
    AddressPartiallyInUse,
}

/// Possible errors of de-allocation.
#[derive(Clone, Copy, Debug, PartialEq, Eq, Structural)]
pub enum DeallocationError {
    Unaligned,
    AlreadyUnallocated,
}

/// Possible errors of moving pages.
#[derive(Clone, Copy, Debug, PartialEq, Eq, Structural)]
pub enum RemapError {
    Unaligned,
    AlreadyUnallocated,
    Overlapping,
    AlreadyAllocated,
    PermissionDenied,
    OutOfMemory,
}

/// Possible errors of changing permissions.
#[derive(Clone, Copy, Debug, PartialEq, Eq, Structural)]
pub enum PermissionUpdateError {
    Unaligned,
    Unallocated,
    PermissionDenied,
    OutOfMemory,
    PlatformFailure,
}

/// Possible errors of copy-on-write allocation.
#[derive(Clone, Copy, Debug, PartialEq, Eq, Structural)]
pub enum CowAllocationError {
    UnsupportedByPlatform,
    UnsupportedSourceRegion,
    Unaligned,
    InternalFailure,
}

impl AllocationError {
    /// The error in words.
    pub open spec fn text(self) -> Seq<char> {
        match self {
            AllocationError::Unaligned => "provided range is not page-aligned"@,
            AllocationError::BelowMinAddress =>
                "provided address is below the minimum allowed address"@,
            AllocationError::AboveMaxAddress =>
                "provided address is above the maximum allowed address"@,
            AllocationError::OutOfMemory => "out of memory"@,
            AllocationError::PermissionDenied => "requested page permissions are denied"@,
            AllocationError::AddressInUse => "provided fixed address range is in use"@,
            AllocationError::AddressInUseByPlatform =>
                "provided fixed address range is in use by the platform"@,
            AllocationError::AddressPartiallyInUse =>
                "provided fixed address range partially overlaps existing mappings"@,
        }
    }

    /// The error in words.
    pub fn message(self) -> (message: &'static str)
        ensures
            message@ == self.text(),
    {
        match self {
            AllocationError::Unaligned => "provided range is not page-aligned",
            AllocationError::BelowMinAddress =>
                "provided address is below the minimum allowed address",
            AllocationError::AboveMaxAddress =>
                "provided address is above the maximum allowed address",
            AllocationError::OutOfMemory => "out of memory",
            AllocationError::PermissionDenied => "requested page permissions are denied",
            AllocationError::AddressInUse => "provided fixed address range is in use",
            AllocationError::AddressInUseByPlatform =>
                "provided fixed address range is in use by the platform",
            AllocationError::AddressPartiallyInUse =>
                "provided fixed address range partially overlaps existing mappings",
        }
    }

    /// What an error of allocating the new pages means for moving pages;
    /// `None` for those that no valid request to move leads to.
    pub open spec fn when_remapping(self) -> Option<RemapError> {
        match self {
            AllocationError::OutOfMemory => Some(RemapError::OutOfMemory),
            AllocationError::PermissionDenied => Some(RemapError::PermissionDenied),
            AllocationError::AddressInUse | AllocationError::AddressInUseByPlatform => Some(
                RemapError::AlreadyAllocated,
            ),
            AllocationError::Unaligned
            | AllocationError::BelowMinAddress
            | AllocationError::AboveMaxAddress
            | AllocationError::AddressPartiallyInUse => None,
        }
    }

    /// What an error of allocating the new pages means for moving pages.
    pub fn as_remap_error(self) -> (error: Option<RemapError>)
        ensures
            error == self.when_remapping(),
    {
        match self {
            AllocationError::OutOfMemory => Some(RemapError::OutOfMemory),
            AllocationError::PermissionDenied => Some(RemapError::PermissionDenied),
            AllocationError::AddressInUse | AllocationError::AddressInUseByPlatform => Some(
                RemapError::AlreadyAllocated,
            ),
            AllocationError::Unaligned
            | AllocationError::BelowMinAddress
            | AllocationError::AboveMaxAddress
            | AllocationError::AddressPartiallyInUse => None,
        }
    }
}

impl DeallocationError {
    /// The error in words.
    pub open spec fn text(self) -> Seq<char> {
        match self {
            DeallocationError::Unaligned => "provided range is not page-aligned"@,
            DeallocationError::AlreadyUnallocated =>
                "provided range contains unallocated pages"@,
        }
    }

    /// The error in words.
    pub fn message(self) -> (message: &'static str)
        ensures
            message@ == self.text(),
    {
        match self {
            DeallocationError::Unaligned => "provided range is not page-aligned",
            DeallocationError::AlreadyUnallocated => "provided range contains unallocated pages",
        }
    }
}

impl RemapError {
    /// The error in words.
    pub open spec fn text(self) -> Seq<char> {
        match self {
            RemapError::Unaligned => "at least one of the provided ranges was not page-aligned"@,
            RemapError::AlreadyUnallocated =>
                "provided old range contains unallocated pages"@,
            RemapError::Overlapping => "provided ranges were overlapping"@,
            RemapError::AlreadyAllocated => "provided new range is already allocated"@,
            RemapError::PermissionDenied => "requested page permissions are denied"@,
            RemapError::OutOfMemory => "out of memory"@,
        }
    }

    /// The error in words.
    pub fn message(self) -> (message: &'static str)
        ensures
            message@ == self.text(),
    {
        match self {
            RemapError::Unaligned => "at least one of the provided ranges was not page-aligned",
            RemapError::AlreadyUnallocated => "provided old range contains unallocated pages",
            RemapError::Overlapping => "provided ranges were overlapping",
            RemapError::AlreadyAllocated => "provided new range is already allocated",
            RemapError::PermissionDenied => "requested page permissions are denied",
            RemapError::OutOfMemory => "out of memory",
        }
    }
}

impl PermissionUpdateError {
    /// The error in words.
    pub open spec fn text(self) -> Seq<char> {
        match self {
            PermissionUpdateError::Unaligned => "provided range is not page-aligned"@,
            PermissionUpdateError::Unallocated => "provided range contains unallocated pages"@,
            PermissionUpdateError::PermissionDenied => "requested page permissions are denied"@,
            PermissionUpdateError::OutOfMemory => "out of memory"@,
            PermissionUpdateError::PlatformFailure =>
                "platform failed to update page permissions"@,
        }
    }

    /// The error in words.
    pub fn message(self) -> (message: &'static str)
        ensures
            message@ == self.text(),
    {
        match self {
            PermissionUpdateError::Unaligned => "provided range is not page-aligned",
            PermissionUpdateError::Unallocated => "provided range contains unallocated pages",
            PermissionUpdateError::PermissionDenied => "requested page permissions are denied",
            PermissionUpdateError::OutOfMemory => "out of memory",
            PermissionUpdateError::PlatformFailure => "platform failed to update page permissions",
        }
    }
}

impl CowAllocationError {
    /// The error in words.
    pub open spec fn text(self) -> Seq<char> {
        match self {
            CowAllocationError::UnsupportedByPlatform =>
                "copy-on-write page allocation is not supported for this particular platform"@,
            CowAllocationError::UnsupportedSourceRegion =>
                "source region is not copy-on-writable"@,
            CowAllocationError::Unaligned => "unaligned request"@,
            CowAllocationError::InternalFailure =>
                "internal failure in creating CoW pages"@,
        }
    }

    /// The error in words.
    pub fn message(self) -> (message: &'static str)
        ensures
            message@ == self.text(),
    {
        match self {
            CowAllocationError::UnsupportedByPlatform =>
                "copy-on-write page allocation is not supported for this particular platform",
            CowAllocationError::UnsupportedSourceRegion => "source region is not copy-on-writable",
            CowAllocationError::Unaligned => "unaligned request",
            CowAllocationError::InternalFailure => "internal failure in creating CoW pages",
        }
    }
}

/// The bytes, if there are any.
pub open spec fn seen(bytes: Option<Vec<u8>>) -> Option<Seq<u8>> {
    match bytes {
        Some(b) => Some(b@),
        None => None,
    }
}

/// A request to a platform, with its result.
#[allow(inconsistent_fields)]
pub enum PageCall {
    Allocate {
        range: AddrRange,
        permissions: MemoryRegionPermissions,
        can_grow_down: bool,
        populate: bool,
        behavior: FixedAddressBehavior,
        result: Result<usize, AllocationError>,
    },
    Deallocate { range: AddrRange, result: Result<(), DeallocationError> },
    Update {
        range: AddrRange,
        permissions: MemoryRegionPermissions,
        result: Result<(), PermissionUpdateError>,
    },
    /// What was read, unless reading faulted.
    Read { addr: usize, len: usize, result: Option<Seq<u8>> },
    /// Whether all was written.
    Write { addr: usize, data: Seq<u8>, done: bool },
}

/// Why moving pages cannot go on and the process has to stop.
#[derive(Clone, Copy, Debug, PartialEq, Eq, Structural)]
pub enum RemapFault {
    /// The new pages were refused for a reason that no valid request gives.
    AllocationRejected(AllocationError),
    ReadPermission,
    Copy,
    RestorePermission,
    Deallocate,
}

impl RemapFault {
    /// The fault in words.
    pub open spec fn text(self) -> Seq<char> {
        match self {
            RemapFault::AllocationRejected(e) => e.text(),
            RemapFault::ReadPermission =>
                "failed to update permissions on old range for copying"@,
            RemapFault::Copy => "failed to copy pages to the new range"@,
            RemapFault::RestorePermission => "failed to restore permissions on new range"@,
            RemapFault::Deallocate => "failed to deallocate old range"@,
        }
    }

    /// The fault in words.
    pub fn message(self) -> (message: &'static str)
        ensures
            message@ == self.text(),
    {
        match self {
            RemapFault::AllocationRejected(e) => e.message(),
            RemapFault::ReadPermission => "failed to update permissions on old range for copying",
            RemapFault::Copy => "failed to copy pages to the new range",
            RemapFault::RestorePermission => "failed to restore permissions on new range",
            RemapFault::Deallocate => "failed to deallocate old range",
        }
    }
}

/// Access to the memory of a guest.
pub trait RawPointerProvider: Sized {
    /// The requests made so far, the oldest first. A provider that proves what
    /// it does says how it keeps them.
    open spec fn history(&self) -> Seq<PageCall> {
        Seq::empty()
    }

    /// Reads `len` bytes at `addr`; `None` where that faults.
    fn read_slice(&mut self, addr: usize, len: usize) -> (bytes: Option<Vec<u8>>)
        ensures
            final(self).history() == old(self).history().push(
                (PageCall::Read { addr, len, result: seen(bytes) }),
            ),
    ;

    /// Writes the bytes at `addr`. Returns whether that went without a fault.
    fn write_slice(&mut self, addr: usize, data: &[u8]) -> (done: bool)
        ensures
            final(self).history() == old(self).history().push(
                (PageCall::Write { addr, data: data@, done }),
            ),
    ;
}

/// Whether a request to move pages is valid: both ranges are aligned, the new
/// one is the larger, and they share no page. Offsets that pages are copied
/// from have to fit in `isize`.
pub open spec fn can_remap(old_range: AddrRange, new_range: AddrRange, align: int) -> bool {
    let last_start = if old_range.start > new_range.start {
        old_range.start
    } else {
        new_range.start
    };
    let first_end = if old_range.end < new_range.end {
        old_range.end
    } else {
        new_range.end
    };
    &&& align > 0
    &&& old_range.start as int % align == 0
    &&& new_range.start as int % align == 0
    &&& old_range.extent() % align == 0
    &&& new_range.extent() % align == 0
    &&& new_range.extent() > old_range.extent()
    &&& last_start >= first_end
    &&& old_range.extent() - align <= isize::MAX
}

/// The request for the new pages, writable for the copy.
pub open spec fn remap_allocation(
    new_range: AddrRange,
    permissions: MemoryRegionPermissions,
    result: Result<usize, AllocationError>,
) -> PageCall {
    PageCall::Allocate {
        range: new_range,
        permissions: permissions.with_write(),
        can_grow_down: false,
        populate: true,
        behavior: FixedAddressBehavior::NoReplace,
        result,
    }
}

impl PageCall {
    /// Whether this is a request to update permissions, which was granted or
    /// not.
    pub open spec fn updates(
        self,
        to_range: AddrRange,
        to_permissions: MemoryRegionPermissions,
        granted: bool,
    ) -> bool {
        self matches PageCall::Update { range, permissions, result } && range == to_range
            && permissions == to_permissions && (result is Ok) == granted
    }

    /// Whether this is a request to de-allocate, which was granted or not.
    pub open spec fn frees(self, of_range: AddrRange, granted: bool) -> bool {
        self matches PageCall::Deallocate { range, result } && range == of_range && (result is Ok)
            == granted
    }
}

/// How many requests precede the copy.
pub open spec fn remap_lead(permissions: MemoryRegionPermissions) -> int {
    if permissions.read {
        1
    } else {
        2
    }
}

/// Whether the requests begin with new pages at `to` and, where the old pages
/// cannot be read, with making them readable.
pub open spec fn remap_prepared(
    calls: Seq<PageCall>,
    old_range: AddrRange,
    new_range: AddrRange,
    permissions: MemoryRegionPermissions,
    to: usize,
) -> bool {
    &&& calls.len() >= remap_lead(permissions)
    &&& calls[0] == remap_allocation(new_range, permissions, Ok(to))
    &&& !permissions.read ==> calls[1].updates(old_range, permissions.with_read(), true)
}

/// Whether chunk `k` was read from the old pages and written, as it was read,
/// to the new ones.
pub open spec fn chunk_copied(
    calls: Seq<PageCall>,
    lead: int,
    from: usize,
    to: usize,
    align: int,
    k: int,
) -> bool {
    &&& calls[lead + 2 * k] matches PageCall::Read { addr, len, result: Some(data) } && {
        &&& addr == from + k * align
        &&& len == align
        &&& calls[lead + 2 * k + 1] matches PageCall::Write { addr: at, data: copy, done } && {
            &&& at == crate::arith::wrap_add(to, (k * align) as usize)
            &&& copy == data
            &&& done
        }
    }
}

/// Whether the requests prepare the move and then copy the first `k` chunks.
pub open spec fn remap_copied(
    calls: Seq<PageCall>,
    old_range: AddrRange,
    new_range: AddrRange,
    permissions: MemoryRegionPermissions,
    align: int,
    to: usize,
    k: int,
) -> bool {
    let lead = remap_lead(permissions);
    &&& remap_prepared(calls, old_range, new_range, permissions, to)
    &&& calls.len() >= lead + 2 * k
    &&& forall|j: int|
        0 <= j < k ==> #[trigger] chunk_copied(calls, lead, old_range.start, to, align, j)
}

/// Whether the requests are those of a move that ends with the outcome.
pub open spec fn remapped(
    calls: Seq<PageCall>,
    old_range: AddrRange,
    new_range: AddrRange,
    permissions: MemoryRegionPermissions,
    align: int,
    outcome: Result<Result<usize, RemapError>, RemapFault>,
) -> bool {
    let chunks = old_range.extent() / align;
    let lead = remap_lead(permissions);
    let close = if permissions.write {
        0int
    } else {
        1
    };
    let copied = |to: usize, k: int|
        remap_copied(calls, old_range, new_range, permissions, align, to, k);
    match outcome {
        Ok(Ok(to)) => {
            &&& copied(to, chunks)
            &&& calls.len() == lead + 2 * chunks + close + 1
            &&& !permissions.write ==> calls[lead + 2 * chunks].updates(
                new_range,
                permissions,
                true,
            )
            &&& calls.last().frees(old_range, true)
        },
        Ok(Err(e)) => exists|a: AllocationError| #[trigger]
            a.when_remapping() == Some(e) && calls =~= seq![
                remap_allocation(new_range, permissions, Err(a)),
            ],
        Err(RemapFault::AllocationRejected(a)) => a.when_remapping() is None && calls =~= seq![
            remap_allocation(new_range, permissions, Err(a)),
        ],
        Err(RemapFault::ReadPermission) => {
            &&& !permissions.read
            &&& calls.len() == 2
            &&& exists|to: usize|
                calls[0] == #[trigger] remap_allocation(new_range, permissions, Ok(to))
            &&& calls[1].updates(old_range, permissions.with_read(), false)
        },
        Err(RemapFault::Copy) => exists|to: usize, k: int| #[trigger]
            remap_copied(calls, old_range, new_range, permissions, align, to, k) && 0 <= k
                < chunks && copy_failed(calls, old_range.start, to, align, lead, k),
        Err(RemapFault::RestorePermission) => exists|to: usize| #[trigger]
            remap_copied(calls, old_range, new_range, permissions, align, to, chunks)
                && calls.len() == lead + 2 * chunks + 1 && !permissions.write
                && calls.last().updates(new_range, permissions, false),
        Err(RemapFault::Deallocate) => exists|to: usize| #[trigger]
            remap_copied(calls, old_range, new_range, permissions, align, to, chunks)
                && calls.len() == lead + 2 * chunks + close + 1 && (!permissions.write
                ==> calls[lead + 2 * chunks].updates(new_range, permissions, true))
                && calls.last().frees(old_range, false),
    }
}

/// Whether the requests end with a failure to read, or to write, chunk `k`.
pub open spec fn copy_failed(
    calls: Seq<PageCall>,
    from: usize,
    to: usize,
    align: int,
    lead: int,
    k: int,
) -> bool {
    let read = calls[lead + 2 * k];
    ||| calls.len() == lead + 2 * k + 1 && read == (PageCall::Read {
        addr: (from + k * align) as usize,
        len: align as usize,
        result: None,
    })
    ||| calls.len() == lead + 2 * k + 2 && (read matches PageCall::Read {
        addr,
        len,
        result: Some(data),
    } && addr == from + k * align && len == align && calls.last() == (PageCall::Write {
        addr: crate::arith::wrap_add(to, (k * align) as usize),
        data,
        done: false,
    }))
}

/// A provider for managing memory pages, which come in units of `ALIGN` bytes.
pub trait PageManagementProvider<const ALIGN: usize>: RawPointerProvider {
    /// The lowest address that can be allocated for task memory.
    const TASK_ADDR_MIN: usize;

    /// The address past the highest that can be allocated for task memory.
    const TASK_ADDR_MAX: usize;

    /// Allocates new pages at `suggested_range`. Returns where they start.
    fn allocate_pages(
        &mut self,
        suggested_range: AddrRange,
        initial_permissions: MemoryRegionPermissions,
        can_grow_down: bool,
        populate_pages_immediately: bool,
        fixed_address_behavior: FixedAddressBehavior,
    ) -> (result: Result<usize, AllocationError>)
        ensures
            final(self).history() == old(self).history().push(
                (PageCall::Allocate {
                    range: suggested_range,
                    permissions: initial_permissions,
                    can_grow_down,
                    populate: populate_pages_immediately,
                    behavior: fixed_address_behavior,
                    result,
                }),
            ),
    ;

    /// De-allocates all pages in the range, which must not be in use.
    fn deallocate_pages(&mut self, range: AddrRange) -> (result: Result<(), DeallocationError>)
        ensures
            final(self).history() == old(self).history().push(
                (PageCall::Deallocate { range, result }),
            ),
    ;

    /// Updates the permissions on the pages of the range.
    fn update_permissions(
        &mut self,
        range: AddrRange,
        new_permissions: MemoryRegionPermissions,
    ) -> (result: Result<(), PermissionUpdateError>)
        ensures
            final(self).history() == old(self).history().push(
                (PageCall::Update { range, permissions: new_permissions, result }),
            ),
    ;

    /// The pages that are not available for allocation.
    fn reserved_pages(&self) -> Vec<AddrRange>;

    /// Moves pages from `old_range` to the larger `new_range`: allocates the
    /// new pages, copies the old ones, and de-allocates these. Returns where
    /// the new pages start.
    fn remap_pages(
        &mut self,
        old_range: AddrRange,
        new_range: AddrRange,
        permissions: MemoryRegionPermissions,
    ) -> (outcome: Result<Result<usize, RemapError>, RemapFault>)
        requires
            can_remap(old_range, new_range, ALIGN as int),
        default_ensures
            old(self).history().is_prefix_of(final(self).history()),
            remapped(
                final(self).history().skip(old(self).history().len() as int),
                old_range,
                new_range,
                permissions,
                ALIGN as int,
                outcome,
            ),
    {
        let ghost first = self.history().len() as int;
        let ghost align = ALIGN as int;
        let ghost lead = remap_lead(permissions);
        let temporary = MemoryRegionPermissions { write: true, ..permissions };
        let to: usize = match self.allocate_pages(
            new_range,
            temporary,
            false,
            true,
            FixedAddressBehavior::NoReplace,
        ) {
            Ok(to) => to,
            Err(e) => {
                assert(self.history().skip(first) =~= seq![
                    remap_allocation(new_range, permissions, Err(e)),
                ]);
                return match e.as_remap_error() {
                    Some(r) => Ok(Err(r)),
                    None => Err(RemapFault::AllocationRejected(e)),
                };
            },
        };
        assert(self.history().skip(first) =~= seq![
            remap_allocation(new_range, permissions, Ok(to)),
        ]);
        if !permissions.read {
            let readable = MemoryRegionPermissions { read: true, ..permissions };
            let ghost before = self.history().skip(first);
            let updated = self.update_permissions(old_range, readable);
            assert(self.history().skip(first) =~= before.push(
                PageCall::Update { range: old_range, permissions: readable, result: updated },
            ));
            if updated.is_err() {
                assert(self.history().skip(first)[0] == remap_allocation(
                    new_range,
                    permissions,
                    Ok(to),
                ));
                return Err(RemapFault::ReadPermission);
            }
        }
        assert(remap_prepared(
            self.history().skip(first),
            old_range,
            new_range,
            permissions,
            to,
        ));
        let total: usize = old_range.len();
        let ghost chunks = total as int / align;
        let mut offset: usize = 0;
        let ghost mut k: int = 0;
        proof {
            vstd::arithmetic::div_mod::lemma_fundamental_div_mod(total as int, align);
            assert(total == chunks * align) by (nonlinear_arith)
                requires
                    total == align * chunks + 0,
            ;
        }
        while offset < total
            invariant
                align == ALIGN,
                align > 0,
                total == old_range.extent(),
                total == chunks * align,
                chunks == old_range.extent() / align,
                offset == k * align,
                0 <= k <= chunks,
                offset <= total,
                lead == remap_lead(permissions),
                first == old(self).history().len(),
                old(self).history().is_prefix_of(self.history()),
                self.history().len() == first + lead + 2 * k,
                remap_copied(
                    self.history().skip(first),
                    old_range,
                    new_range,
                    permissions,
                    align,
                    to,
                    k,
                ),
            decreases total - offset,
        {
            let ghost before = self.history().skip(first);
            proof {
                assert(k < chunks) by (nonlinear_arith)
                    requires
                        k * align < chunks * align,
                        align > 0,
                ;
                assert((k + 1) * align <= chunks * align) by (nonlinear_arith)
                    requires
                        k + 1 <= chunks,
                        align > 0,
                ;
                assert((k + 1) * align == k * align + align) by (nonlinear_arith);
            }
            let bytes = self.read_slice(old_range.start + offset, ALIGN);
            let ghost mid = self.history().skip(first);
            let ghost read = PageCall::Read {
                addr: (old_range.start + offset) as usize,
                len: ALIGN,
                result: seen(bytes),
            };
            assert(mid =~= before.push(read));
            assert(mid.drop_last() =~= before);
            proof {
                extends_copied(
                    before,
                    mid,
                    old_range,
                    new_range,
                    permissions,
                    align,
                    to,
                    k,
                );
            }
            let Some(data) = bytes else {
                assert(copy_failed(mid, old_range.start, to, align, lead, k));
                return Err(RemapFault::Copy);
            };
            let done = self.write_slice(to.wrapping_add(offset), data.as_slice());
            let ghost after = self.history().skip(first);
            let ghost write = PageCall::Write {
                addr: crate::arith::wrap_add(to, offset),
                data: data@,
                done,
            };
            assert(after =~= mid.push(write));
            assert(after.drop_last() =~= mid);
            proof {
                extends_copied(
                    mid,
                    after,
                    old_range,
                    new_range,
                    permissions,
                    align,
                    to,
                    k,
                );
            }
            if !done {
                assert(after[lead + 2 * k] == read);
                assert(copy_failed(after, old_range.start, to, align, lead, k));
                return Err(RemapFault::Copy);
            }
            proof {
                assert(after[lead + 2 * k] == read);
                assert(after[lead + 2 * k + 1] == write);
                assert(chunk_copied(after, lead, old_range.start, to, align, k));
                k = k + 1;
            }
            offset += ALIGN;
        }
        proof {
            assert(k == chunks) by (nonlinear_arith)
                requires
                    k * align >= chunks * align,
                    k <= chunks,
                    align > 0,
            ;
        }
        if !permissions.write {
            let ghost before = self.history().skip(first);
            let restored = self.update_permissions(new_range, permissions);
            let ghost after = self.history().skip(first);
            assert(after =~= before.push(
                PageCall::Update { range: new_range, permissions, result: restored },
            ));
            assert(after.drop_last() =~= before);
            proof {
                extends_copied(
                    before,
                    after,
                    old_range,
                    new_range,
                    permissions,
                    align,
                    to,
                    chunks,
                );
            }
            if restored.is_err() {
                return Err(RemapFault::RestorePermission);
            }
            assert(after[lead + 2 * chunks].updates(new_range, permissions, true));
        }
        let ghost before = self.history().skip(first);
        let freed = self.deallocate_pages(old_range);
        let ghost after = self.history().skip(first);
        assert(after =~= before.push(PageCall::Deallocate { range: old_range, result: freed }));
        assert(after.drop_last() =~= before);
        proof {
            extends_copied(before, after, old_range, new_range, permissions, align, to, chunks);
        }
        if freed.is_err() {
            return Err(RemapFault::Deallocate);
        }
        Ok(Ok(to))
    }

    /// Attempts to allocate pages that are copied from `source_data` once they
    /// are written. A platform that can do so overrides this.
    fn try_allocate_cow_pages(
        &mut self,
        suggested_start: usize,
        source_data: &'static [u8],
        permissions: MemoryRegionPermissions,
        fixed_address_behavior: FixedAddressBehavior,
    ) -> (result: Result<usize, CowAllocationError>)
        default_ensures
            result == Err::<usize, CowAllocationError>(CowAllocationError::UnsupportedByPlatform),
            final(self).history() == old(self).history(),
    {
        Err(CowAllocationError::UnsupportedByPlatform)
    }
}

/// One more request leaves what was copied before it as it is.
proof fn extends_copied(
    before: Seq<PageCall>,
    after: Seq<PageCall>,
    old_range: AddrRange,
    new_range: AddrRange,
    permissions: MemoryRegionPermissions,
    align: int,
    to: usize,
    k: int,
)
    requires
        k >= 0,
        after.len() == before.len() + 1,
        after.drop_last() == before,
        remap_copied(before, old_range, new_range, permissions, align, to, k),
    ensures
        remap_copied(after, old_range, new_range, permissions, align, to, k),
{
    let lead = remap_lead(permissions);
    assert(forall|i: int| 0 <= i < before.len() ==> after[i] == before[i]);
    assert forall|j: int| 0 <= j < k implies #[trigger] chunk_copied(
        after,
        lead,
        old_range.start,
        to,
        align,
        j,
    ) by {
        assert(chunk_copied(before, lead, old_range.start, to, align, j));
        assert(after[lead + 2 * j] == before[lead + 2 * j]);
        assert(after[lead + 2 * j + 1] == before[lead + 2 * j + 1]);
    }
}

/// No request that prepares the move or copies a chunk de-allocates anything.
proof fn copying_frees_nothing(
    calls: Seq<PageCall>,
    old_range: AddrRange,
    new_range: AddrRange,
    permissions: MemoryRegionPermissions,
    align: int,
    to: usize,
    k: int,
    i: int,
)
    requires
        remap_copied(calls, old_range, new_range, permissions, align, to, k),
        0 <= i < remap_lead(permissions) + 2 * k,
    ensures
        !(calls[i] is Deallocate),
{
    let lead = remap_lead(permissions);
    if i >= lead {
        let m = (i - lead) / 2;
        assert(chunk_copied(calls, lead, old_range.start, to, align, m));
        assert(i == lead + 2 * m || i == lead + 2 * m + 1);
    }
}

/// The old pages are de-allocated only once all of them have been copied to the
/// new ones, and nothing is asked for after that.
pub proof fn old_pages_are_kept_until_copied(
    calls: Seq<PageCall>,
    old_range: AddrRange,
    new_range: AddrRange,
    permissions: MemoryRegionPermissions,
    align: int,
    outcome: Result<Result<usize, RemapError>, RemapFault>,
    i: int,
)
    requires
        can_remap(old_range, new_range, align),
        remapped(calls, old_range, new_range, permissions, align, outcome),
        0 <= i < calls.len(),
        calls[i] is Deallocate,
    ensures
        i == calls.len() - 1,
        ({
            let chunks = old_range.extent() / align;
            exists|to: usize| #[trigger]
                remap_copied(calls, old_range, new_range, permissions, align, to, chunks)
        }),
{
    let chunks = old_range.extent() / align;
    let lead = remap_lead(permissions);
    vstd::arithmetic::div_mod::lemma_div_pos_is_pos(old_range.extent(), align);
    match outcome {
        Ok(Ok(to)) => {
            if i < lead + 2 * chunks {
                copying_frees_nothing(
                    calls,
                    old_range,
                    new_range,
                    permissions,
                    align,
                    to,
                    chunks,
                    i,
                );
            }
        },
        Ok(Err(e)) => {
            let a = choose|a: AllocationError| #[trigger]
                a.when_remapping() == Some(e) && calls =~= seq![
                    remap_allocation(new_range, permissions, Err(a)),
                ];
            assert(calls[0] == remap_allocation(new_range, permissions, Err(a)));
        },
        Err(RemapFault::AllocationRejected(_)) => {},
        Err(RemapFault::ReadPermission) => {},
        Err(RemapFault::Copy) => {
            let (to, k) = choose|to: usize, k: int| #[trigger]
                remap_copied(calls, old_range, new_range, permissions, align, to, k) && 0 <= k
                    < chunks && copy_failed(calls, old_range.start, to, align, lead, k);
            if i < lead + 2 * k {
                copying_frees_nothing(
                    calls,
                    old_range,
                    new_range,
                    permissions,
                    align,
                    to,
                    k,
                    i,
                );
            }
        },
        Err(RemapFault::RestorePermission) => {
            let to = choose|to: usize| #[trigger]
                remap_copied(calls, old_range, new_range, permissions, align, to, chunks);
            if i < lead + 2 * chunks {
                copying_frees_nothing(
                    calls,
                    old_range,
                    new_range,
                    permissions,
                    align,
                    to,
                    chunks,
                    i,
                );
            }
        },
        Err(RemapFault::Deallocate) => {
            let to = choose|to: usize| #[trigger]
                remap_copied(calls, old_range, new_range, permissions, align, to, chunks);
            if i < lead + 2 * chunks {
                copying_frees_nothing(
                    calls,
                    old_range,
                    new_range,
                    permissions,
                    align,
                    to,
                    chunks,
                    i,
                );
            }
        },
    }
}

/// Pages that were moved are whole: each of their bytes was read where it was and
/// written, as it was read, as far behind the start of the new pages, which were
/// allocated where nothing was and end up with the permissions that were asked
/// for. The old pages are gone.
pub proof fn moved_pages_are_copied_whole(
    calls: Seq<PageCall>,
    old_range: AddrRange,
    new_range: AddrRange,
    permissions: MemoryRegionPermissions,
    align: int,
    to: usize,
    x: int,
)
    requires
        can_remap(old_range, new_range, align),
        remapped(calls, old_range, new_range, permissions, align, Ok(Ok(to))),
        0 <= x < old_range.extent(),
    ensures
        exists|i: int|
            0 <= i < calls.len() - 1 && (#[trigger] calls[i] matches PageCall::Read {
                addr,
                len,
                result: Some(data),
            } && addr <= old_range.start + x < addr + len && (calls[i + 1]
                matches PageCall::Write { addr: at, data: copy, done } && done && copy == data && at
                == crate::arith::wrap_add(to, (addr - old_range.start) as usize))),
        calls[0] matches PageCall::Allocate {
            range,
            permissions: first,
            behavior,
            result,
            ..
        } && range == new_range && behavior is NoReplace && result == Ok::<
            usize,
            AllocationError,
        >(to) && first == (MemoryRegionPermissions { write: true, ..permissions }),
        permissions.write || calls[calls.len() - 2].updates(new_range, permissions, true),
        calls.last().frees(old_range, true),
{
    let chunks = old_range.extent() / align;
    let lead = remap_lead(permissions);
    let k = x / align;
    vstd::arithmetic::div_mod::lemma_fundamental_div_mod(x, align);
    vstd::arithmetic::div_mod::lemma_fundamental_div_mod(old_range.extent(), align);
    vstd::arithmetic::div_mod::lemma_div_pos_is_pos(x, align);
    vstd::arithmetic::div_mod::lemma_mod_bound(x, align);
    assert(k < chunks) by (nonlinear_arith)
        requires
            align > 0,
            x == align * k + x % align,
            0 <= x % align,
            x < align * chunks,
    ;
    assert(chunk_copied(calls, lead, old_range.start, to, align, k));
    assert(k * align == align * k) by (nonlinear_arith);
    let i = lead + 2 * k;
    assert(calls[i] is Read);
}

/// A request to move pages fails for what kept the new ones from being allocated:
/// memory, rights, or something that is there. Errors of a range that cannot be
/// asked for have no place there.
pub proof fn moves_fail_for_what_failed(e: AllocationError)
    ensures
        e.when_remapping() == Some(RemapError::OutOfMemory) <==> e is OutOfMemory,
        e.when_remapping() == Some(RemapError::PermissionDenied) <==> e is PermissionDenied,
        e.when_remapping() == Some(RemapError::AlreadyAllocated) <==> e is AddressInUse
            || e is AddressInUseByPlatform,
        e.when_remapping() is None <==> e is Unaligned || e is BelowMinAddress
            || e is AboveMaxAddress || e is AddressPartiallyInUse,
{
}

} // verus!
