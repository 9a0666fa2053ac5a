//! The pages that a guest owns on macOS, and what is allowed of them.

use vstd::prelude::*;

use crate::flags::MemoryRegionPermissions;
use crate::mm::ranges::AddrRange;
use crate::page_mgmt::{AllocationError, PermissionUpdateError};

verus! {

/// Size of a page on AArch64 macOS.
pub const PAGE_SIZE: usize = 0x4000;

/// The host reserves the first four gibibytes.
pub const TASK_ADDR_MIN: u64 = 0x1_0000_0000;

/// The address past the highest that a guest can have.
pub const TASK_ADDR_MAX: u64 = 0x7FFF_FE00_0000;

pub const PROT_READ: i32 = 1;

pub const PROT_WRITE: i32 = 2;

pub const PROT_EXEC: i32 = 4;

pub const EPERM: i32 = 1;

pub const ENOMEM: i32 = 12;

pub const EACCES: i32 = 13;

pub const EBUSY: i32 = 16;

pub const EEXIST: i32 = 17;

pub const ENOTSUP: i32 = 45;

/// Whether the range holds something and consists of whole pages.
pub open spec fn aligned(range: AddrRange) -> bool {
    range.start < range.end && range.start % PAGE_SIZE == 0 && range.end % PAGE_SIZE == 0
}

/// Whether the range holds something and consists of whole pages.
pub fn is_page_aligned(range: &AddrRange) -> (whole: bool)
    ensures
        whole == aligned(*range),
{
    range.start < range.end && range.start % PAGE_SIZE == 0 && range.end % PAGE_SIZE == 0
}

/// Whether `page` is one of the pages of the range.
pub open spec fn is_page_of(range: AddrRange, page: usize) -> bool {
    range.start <= page < range.end && (page - range.start) % PAGE_SIZE as int == 0
}

/// The pages of the range.
pub open spec fn pages_of(range: AddrRange) -> Set<usize> {
    Set::new(|page: usize| is_page_of(range, page))
}

/// The permissions as the host's protection bits.
pub fn prot_flags(p: MemoryRegionPermissions) -> (prot: i32)
    ensures
        prot == (if p.read {
            PROT_READ
        } else {
            0
        }) + (if p.write {
            PROT_WRITE
        } else {
            0
        }) + (if p.execute {
            PROT_EXEC
        } else {
            0
        }),
{
    let read: i32 = if p.read {
        PROT_READ
    } else {
        0
    };
    let write: i32 = if p.write {
        PROT_WRITE
    } else {
        0
    };
    let execute: i32 = if p.execute {
        PROT_EXEC
    } else {
        0
    };
    read + write + execute
}

/// Whether the permissions are both to write and to execute.
pub fn wx(p: MemoryRegionPermissions) -> (both: bool)
    ensures
        both == (p.write && p.execute),
{
    p.write && p.execute
}

/// What a failure of the host means for an allocation.
pub open spec fn allocation_failure(errno: i32) -> AllocationError {
    if errno == EACCES || errno == EPERM {
        AllocationError::PermissionDenied
    } else if errno == EEXIST {
        AllocationError::AddressInUse
    } else {
        AllocationError::OutOfMemory
    }
}

/// What a failure of the host means for an allocation.
pub fn allocation_error(errno: i32) -> (error: AllocationError)
    ensures
        error == allocation_failure(errno),
{
    if errno == EACCES || errno == EPERM {
        AllocationError::PermissionDenied
    } else if errno == EEXIST {
        AllocationError::AddressInUse
    } else {
        AllocationError::OutOfMemory
    }
}

/// What a failure of the host means for a change of permissions.
pub open spec fn permission_failure(errno: i32) -> PermissionUpdateError {
    if errno == EACCES || errno == EPERM {
        PermissionUpdateError::PermissionDenied
    } else if errno == ENOMEM {
        PermissionUpdateError::OutOfMemory
    } else {
        PermissionUpdateError::PlatformFailure
    }
}

/// What a failure of the host means for a change of permissions.
pub fn permission_update_error(errno: i32) -> (error: PermissionUpdateError)
    ensures
        error == permission_failure(errno),
{
    if errno == EACCES || errno == EPERM {
        PermissionUpdateError::PermissionDenied
    } else if errno == ENOMEM {
        PermissionUpdateError::OutOfMemory
    } else {
        PermissionUpdateError::PlatformFailure
    }
}

/// Whether the addresses ascend.
pub open spec fn ascends(items: Seq<usize>) -> bool {
    forall|i: int, j: int| 0 <= i < j < items.len() ==> #[trigger] items[i] < #[trigger] items[j]
}

/// A set of pages.
#[derive(Debug)]
pub struct PageSet {
    items: Vec<usize>,
}

impl View for PageSet {
    type V = Set<usize>;

    closed spec fn view(&self) -> Set<usize> {
        self.items@.to_set()
    }
}

impl PageSet {
    pub closed spec fn wf(self) -> bool {
        ascends(self.items@)
    }

    /// The empty set.
    pub fn new() -> (set: PageSet)
        ensures
            set.wf(),
            set@ == Set::<usize>::empty(),
    {
        let set = PageSet { items: Vec::new() };
        assert(set@ =~= Set::<usize>::empty());
        set
    }

    /// The place of the first page that is not below `page`.
    fn place(&self, page: usize) -> (at: usize)
        requires
            self.wf(),
        ensures
            at <= self.items@.len(),
            forall|k: int| 0 <= k < at ==> #[trigger] self.items@[k] < page,
            forall|k: int| at <= k < self.items@.len() ==> #[trigger] self.items@[k] >= page,
            self@.contains(page) == (at < self.items@.len() && self.items@[at as int] == page),
    {
        let mut at: usize = 0;
        while at < self.items.len() && self.items[at] < page
            invariant
                at <= self.items.len(),
                forall|k: int| 0 <= k < at ==> #[trigger] self.items@[k] < page,
            decreases self.items.len() - at,
        {
            at += 1;
        }
        proof {
            assert forall|k: int| at <= k < self.items@.len() implies #[trigger] self.items@[k]
                >= page by {
                if at < k {
                    assert(self.items@[at as int] < self.items@[k]);
                }
            }
            if self@.contains(page) {
                let k = choose|k: int| 0 <= k < self.items@.len() && self.items@[k] == page;
                assert(k >= at);
                if k > at {
                    assert(self.items@[at as int] < self.items@[k]);
                }
            }
        }
        at
    }

    /// Whether the set holds the page.
    pub fn contains(&self, page: usize) -> (held: bool)
        requires
            self.wf(),
        ensures
            held == self@.contains(page),
    {
        let at = self.place(page);
        at < self.items.len() && self.items[at] == page
    }

    /// Adds the page to the set.
    pub fn insert(&mut self, page: usize)
        requires
            old(self).wf(),
        ensures
            final(self).wf(),
            final(self)@ == old(self)@.insert(page),
    {
        let at = self.place(page);
        if at < self.items.len() && self.items[at] == page {
            assert(self@ =~= old(self)@.insert(page));
            return;
        }
        let ghost before = self.items@;
        self.items.insert(at, page);
        proof {
            let after = self.items@;
            assert(after =~= before.insert(at as int, page));
            assert forall|i: int, j: int| 0 <= i < j < after.len() implies #[trigger] after[i]
                < #[trigger] after[j] by {
                let p = if i < at { i } else { i - 1 };
                let q = if j < at { j } else { j - 1 };
                if i == at {
                    assert(after[j] == before[q]);
                } else if j == at {
                    assert(after[i] == before[p]);
                } else {
                    assert(after[i] == before[p] && after[j] == before[q]);
                }
            }
            assert forall|x: usize| after.to_set().contains(x) == before.to_set().insert(
                page,
            ).contains(x) by {
                if after.to_set().contains(x) {
                    let k = choose|k: int| 0 <= k < after.len() && after[k] == x;
                    if k < at {
                        assert(before[k] == x);
                    } else if k > at {
                        assert(before[k - 1] == x);
                    }
                }
                if before.to_set().contains(x) {
                    let k = choose|k: int| 0 <= k < before.len() && before[k] == x;
                    if k < at {
                        assert(after[k] == x);
                    } else {
                        assert(after[k + 1] == x);
                    }
                }
                assert(after[at as int] == page);
            }
            assert(self@ =~= old(self)@.insert(page));
        }
    }

    /// Takes the page out of the set.
    pub fn remove(&mut self, page: usize)
        requires
            old(self).wf(),
        ensures
            final(self).wf(),
            final(self)@ == old(self)@.remove(page),
    {
        let at = self.place(page);
        if !(at < self.items.len() && self.items[at] == page) {
            assert(self@ =~= old(self)@.remove(page));
            return;
        }
        let ghost before = self.items@;
        self.items.remove(at);
        proof {
            let after = self.items@;
            assert(after =~= before.remove(at as int));
            assert forall|i: int, j: int| 0 <= i < j < after.len() implies #[trigger] after[i]
                < #[trigger] after[j] by {
                let p = if i < at { i } else { i + 1 };
                let q = if j < at { j } else { j + 1 };
                assert(before[p] < before[q]);
            }
            assert forall|x: usize| after.to_set().contains(x) == before.to_set().remove(
                page,
            ).contains(x) by {
                if after.to_set().contains(x) {
                    let k = choose|k: int| 0 <= k < after.len() && after[k] == x;
                    let p = if k < at { k } else { k + 1 };
                    assert(before[p] == x);
                    if p < at {
                        assert(before[p] < before[at as int]);
                    } else {
                        assert(before[at as int] < before[p]);
                    }
                }
                if before.to_set().contains(x) && x != page {
                    let k = choose|k: int| 0 <= k < before.len() && before[k] == x;
                    if k < at {
                        assert(after[k] == x);
                    } else {
                        assert(after[k - 1] == x);
                    }
                }
            }
            assert(self@ =~= old(self)@.remove(page));
        }
    }

    /// The pages of the set that start in the range, in ascending order.
    pub fn owned_in(&self, range: AddrRange) -> (owned: Vec<usize>)
        requires
            self.wf(),
        ensures
            ascends(owned@),
            forall|page: usize| #[trigger]
                owned@.contains(page) == (self@.contains(page) && range.holds(page as int)),
    {
        let mut owned: Vec<usize> = Vec::new();
        let first = self.place(range.start);
        let mut at: usize = first;
        while at < self.items.len() && self.items[at] < range.end
            invariant
                first <= at <= self.items.len(),
                ascends(self.items@),
                owned@ == self.items@.subrange(first as int, at as int),
                forall|k: int| first <= k < at ==> #[trigger] self.items@[k] < range.end,
            decreases self.items.len() - at,
        {
            owned.push(self.items[at]);
            at += 1;
            assert(owned@ =~= self.items@.subrange(first as int, at as int));
        }
        proof {
            assert forall|i: int, j: int| 0 <= i < j < owned@.len() implies #[trigger] owned@[i]
                < #[trigger] owned@[j] by {
                assert(self.items@[first + i] < self.items@[first + j]);
            }
            assert forall|page: usize| #[trigger] owned@.contains(page) == (self@.contains(page)
                && range.holds(page as int)) by {
                if owned@.contains(page) {
                    let k = choose|k: int| 0 <= k < owned@.len() && owned@[k] == page;
                    assert(self.items@[first + k] == page);
                }
                if self@.contains(page) && range.holds(page as int) {
                    let k = choose|k: int| 0 <= k < self.items@.len() && self.items@[k] == page;
                    assert(k >= first);
                    if k >= at {
                        if k > at {
                            assert(self.items@[at as int] < self.items@[k]);
                        }
                    }
                    assert(owned@[k - first] == page);
                }
            }
        }
        owned
    }

    /// Adds the pages of the range to the set.
    pub fn extend(&mut self, range: AddrRange)
        requires
            old(self).wf(),
            aligned(range),
        ensures
            final(self).wf(),
            final(self)@ == old(self)@.union(pages_of(range)),
    {
        let mut page: usize = range.start;
        while page < range.end
            invariant
                self.wf(),
                aligned(range),
                range.start <= page <= range.end,
                (page - range.start) % PAGE_SIZE as int == 0,
                page % PAGE_SIZE == 0,
                self@ =~= old(self)@.union(pages_of(AddrRange { start: range.start, end: page })),
            decreases range.end - page,
        {
            let ghost before = self@;
            self.insert(page);
            proof {
                let done = AddrRange { start: range.start, end: page };
                let next = AddrRange { start: range.start, end: (page + PAGE_SIZE) as usize };
                assert(page + PAGE_SIZE <= range.end);
                assert forall|x: usize| is_page_of(next, x) == (is_page_of(done, x) || x
                    == page) by {}
                assert(pages_of(next) =~= pages_of(done).insert(page));
            }
            page = page + PAGE_SIZE;
        }
        assert(AddrRange { start: range.start, end: page } == range);
    }

    /// Whether the set holds each page of the range.
    pub fn covers(&self, range: AddrRange) -> (covered: bool)
        requires
            self.wf(),
            aligned(range),
        ensures
            covered == pages_of(range).subset_of(self@),
    {
        let mut page: usize = range.start;
        while page < range.end
            invariant
                self.wf(),
                aligned(range),
                range.start <= page <= range.end,
                (page - range.start) % PAGE_SIZE as int == 0,
                page % PAGE_SIZE == 0,
                forall|x: usize|
                    is_page_of(range, x) && x < page ==> #[trigger] self@.contains(x),
            decreases range.end - page,
        {
            if !self.contains(page) {
                assert(pages_of(range).contains(page));
                return false;
            }
            assert(page + PAGE_SIZE <= range.end);
            assert forall|x: usize|
                is_page_of(range, x) && x < page + PAGE_SIZE implies #[trigger] self@.contains(
                x,
            ) by {
                if x >= page {
                    assert(x == page);
                }
            }
            page = page + PAGE_SIZE;
        }
        true
    }
}

} // verus!
