//! Allocation of pages on macOS.
//!
//! The host would replace its own memory if asked to map at a fixed address.
//! So each page that the guest does not own yet is first reserved in a way
//! that fails where something is mapped, and only then is the whole range
//! mapped.

use vstd::prelude::*;

use crate::flags::MemoryRegionPermissions;
use crate::macos::pages::{
    aligned, allocation_error, allocation_failure, ascends, is_page_aligned, is_page_of, pages_of,
    prot_flags, wx, PageSet, PAGE_SIZE, PROT_EXEC, PROT_READ, PROT_WRITE, TASK_ADDR_MAX,
    TASK_ADDR_MIN,
};
use crate::mm::ranges::AddrRange;
use crate::page_mgmt::{AllocationError, FixedAddressBehavior};

verus! {

/// What the host has to do next.
#[derive(Clone, Copy, Debug, PartialEq, Eq)]
pub enum AllocAction {
    /// Map fresh memory, at the hint if nothing is there.
    MapHint { hint: usize, len: usize, prot: i32 },
    /// Unmap what this allocation has mapped or reserved.
    Unmap { addr: usize, len: usize },
    /// Reserve a page, unless something is mapped there.
    Reserve { page: usize },
    /// Map fresh memory in place of what is there.
    MapFixed { start: usize, len: usize, prot: i32 },
    /// The allocation is over.
    Finish(Result<usize, AllocationError>),
}

/// What the host answers.
#[derive(Clone, Copy, Debug, PartialEq, Eq)]
pub enum AllocEvent {
    /// Where memory was mapped, or the error number.
    Mapped(Result<usize, i32>),
    Unmapped,
    /// Zero if the page was reserved, or why it was not.
    Reserved(i32),
}

/// What the allocation is waiting for.
#[derive(Clone, Copy, Debug, PartialEq, Eq, Structural)]
pub enum AllocPhase {
    /// A mapping at a hint, the second time without one, and the error if it
    /// fails.
    Hint { second: bool, error: AllocationError },
    /// A mapping that the guest cannot have is given back.
    DropHint { second: bool, error: AllocationError },
    Reserve { page: usize },
    MapFixed,
    /// The reserved pages are given back, so many being done.
    Rollback { done: usize, error: AllocationError },
    End,
}

/// Pages being allocated.
#[derive(Debug)]
pub struct Allocation {
    pub range: AddrRange,
    pub permissions: MemoryRegionPermissions,
    pub behavior: FixedAddressBehavior,
    /// The pages that were reserved for this allocation.
    pub reserved: Vec<usize>,
    pub phase: AllocPhase,
}

/// Why a request is refused before the host is asked, if it is.
pub open spec fn refusal(
    range: AddrRange,
    permissions: MemoryRegionPermissions,
    behavior: FixedAddressBehavior,
    owned: Set<usize>,
) -> Option<AllocationError> {
    if !aligned(range) {
        Some(AllocationError::Unaligned)
    } else if range.start < TASK_ADDR_MIN {
        Some(AllocationError::BelowMinAddress)
    } else if range.end > TASK_ADDR_MAX {
        Some(AllocationError::AboveMaxAddress)
    } else if permissions.write && permissions.execute {
        Some(AllocationError::PermissionDenied)
    } else if behavior is NoReplace && exists|page: usize| #[trigger]
        owned.contains(page) && range.holds(page as int) {
        Some(AllocationError::AddressInUse)
    } else {
        None
    }
}

/// The host's protection bits for the permissions.
pub open spec fn prot_of(p: MemoryRegionPermissions) -> int {
    (if p.read {
        PROT_READ as int
    } else {
        0
    }) + (if p.write {
        PROT_WRITE as int
    } else {
        0
    }) + (if p.execute {
        PROT_EXEC as int
    } else {
        0
    })
}

/// Whether a guest can have `len` bytes at `start`.
pub open spec fn in_task(start: int, len: int) -> bool {
    TASK_ADDR_MIN <= start && start + len <= TASK_ADDR_MAX && start + len <= usize::MAX
}

/// What a failure to reserve a page means.
pub open spec fn reserve_failure(code: i32) -> AllocationError {
    if code == 2 {
        AllocationError::PermissionDenied
    } else if code == 6 {
        AllocationError::OutOfMemory
    } else {
        AllocationError::AddressInUseByPlatform
    }
}

impl Allocation {
    pub open spec fn len(self) -> usize {
        (self.range.end - self.range.start) as usize
    }

    /// Whether both are one allocation.
    pub open spec fn continues(self, other: Allocation) -> bool {
        &&& self.range == other.range
        &&& self.permissions == other.permissions
        &&& self.behavior == other.behavior
    }

    /// Whether the pages of the range below `end` are the guest's or reserved.
    pub open spec fn secured(self, owned: Set<usize>, end: int) -> bool {
        forall|p: usize|
            is_page_of(self.range, p) && p < end ==> owned.contains(p)
                || #[trigger] self.reserved@.contains(p)
    }

    /// What holds while the guest owns the pages.
    pub open spec fn wf(self, owned: Set<usize>) -> bool {
        &&& aligned(self.range)
        &&& in_task(self.range.start as int, self.len() as int)
        &&& !(self.permissions.write && self.permissions.execute)
        &&& ascends(self.reserved@)
        &&& forall|p: usize| #[trigger]
            self.reserved@.contains(p) ==> is_page_of(self.range, p) && !owned.contains(p)
        &&& match self.phase {
            AllocPhase::Hint { .. } | AllocPhase::DropHint { .. } => {
                &&& self.behavior is Hint
                &&& self.reserved@.len() == 0
            },
            AllocPhase::Reserve { page } => {
                &&& !(self.behavior is Hint)
                &&& is_page_of(self.range, page)
                &&& !owned.contains(page)
                &&& self.secured(owned, page as int)
                &&& forall|p: usize| #[trigger] self.reserved@.contains(p) ==> p < page
            },
            AllocPhase::MapFixed => {
                &&& !(self.behavior is Hint)
                &&& self.secured(owned, self.range.end as int)
            },
            AllocPhase::Rollback { done, .. } => done < self.reserved@.len(),
            AllocPhase::End => true,
        }
    }

    /// Whether the event answers what the allocation waits for.
    pub open spec fn accepts(self, event: AllocEvent) -> bool {
        match self.phase {
            AllocPhase::Hint { .. } => event matches AllocEvent::Mapped(r) && (r matches Ok(start)
                ==> start % PAGE_SIZE == 0),
            AllocPhase::MapFixed => event is Mapped,
            AllocPhase::DropHint { .. } | AllocPhase::Rollback { .. } => event is Unmapped,
            AllocPhase::Reserve { .. } => event is Reserved,
            AllocPhase::End => false,
        }
    }

    /// Whether the event answers what the allocation waits for.
    pub fn is_answered_by(&self, event: AllocEvent) -> (answered: bool)
        ensures
            answered == self.accepts(event),
    {
        match (self.phase, event) {
            (AllocPhase::Hint { .. }, AllocEvent::Mapped(Ok(start))) => start % PAGE_SIZE == 0,
            (AllocPhase::Hint { .. }, AllocEvent::Mapped(Err(_))) => true,
            (AllocPhase::MapFixed, AllocEvent::Mapped(_)) => true,
            (AllocPhase::DropHint { .. }, AllocEvent::Unmapped) => true,
            (AllocPhase::Rollback { .. }, AllocEvent::Unmapped) => true,
            (AllocPhase::Reserve { .. }, AllocEvent::Reserved(_)) => true,
            _ => false,
        }
    }

    pub open spec fn ends(
        self,
        action: AllocAction,
        result: Result<usize, AllocationError>,
    ) -> bool {
        self.phase is End && action == AllocAction::Finish(result)
    }

    /// Whether the allocation tries a mapping at a hint: first where the range
    /// starts, then anywhere.
    pub open spec fn hints(
        self,
        action: AllocAction,
        second: bool,
        error: AllocationError,
    ) -> bool {
        &&& self.phase == (AllocPhase::Hint { second, error })
        &&& action matches AllocAction::MapHint { hint, len, prot } && {
            &&& hint == if second {
                0
            } else {
                self.range.start
            }
            &&& len == self.len()
            &&& prot == prot_of(self.permissions)
        }
    }

    /// Whether the allocation tries once more, or has failed.
    pub open spec fn tries_again(
        self,
        action: AllocAction,
        second: bool,
        error: AllocationError,
    ) -> bool {
        if second {
            self.ends(action, Err(error))
        } else {
            self.hints(action, true, error)
        }
    }

    /// Whether the allocation reserves the next page of the range from `from`
    /// on that the guest does not own, or maps the range if there is none.
    pub open spec fn reserves_from(
        self,
        action: AllocAction,
        owned: Set<usize>,
        from: int,
    ) -> bool {
        match self.phase {
            AllocPhase::Reserve { page } => {
                &&& action == (AllocAction::Reserve { page })
                &&& from <= page
                &&& is_page_of(self.range, page)
                &&& !owned.contains(page)
                &&& forall|p: usize|
                    is_page_of(self.range, p) && from <= p < page ==> #[trigger] owned.contains(p)
            },
            AllocPhase::MapFixed => {
                &&& action matches AllocAction::MapFixed { start, len, prot } && start
                    == self.range.start && len == self.len() && prot == prot_of(self.permissions)
                &&& forall|p: usize|
                    is_page_of(self.range, p) && from <= p ==> #[trigger] owned.contains(p)
            },
            _ => false,
        }
    }

    /// Whether the allocation gives back what it reserved, from the page at
    /// `done` on, and then fails.
    pub open spec fn rolls_back(
        self,
        action: AllocAction,
        done: int,
        error: AllocationError,
    ) -> bool {
        if done < self.reserved@.len() {
            &&& self.phase == (AllocPhase::Rollback { done: done as usize, error })
            &&& action == (AllocAction::Unmap {
                addr: self.reserved@[done],
                len: PAGE_SIZE,
            })
        } else {
            self.ends(action, Err(error))
        }
    }

    /// Whether an event that answers what the allocation waits for leads to
    /// `after` with the action, and to the pages in `grown` being the guest's
    /// where it owned those in `owned`.
    pub open spec fn leads_to(
        self,
        event: AllocEvent,
        owned: Set<usize>,
        after: Allocation,
        action: AllocAction,
        grown: Set<usize>,
    ) -> bool {
        match (self.phase, event) {
            (AllocPhase::Hint { second, error }, AllocEvent::Mapped(Ok(start))) => {
                let span = AddrRange { start, end: (start + self.len()) as usize };
                if in_task(start as int, self.len() as int) {
                    &&& grown == owned.union(pages_of(span))
                    &&& after.ends(action, Ok(start))
                } else {
                    &&& grown == owned
                    &&& after.phase == (AllocPhase::DropHint { second, error })
                    &&& action == (AllocAction::Unmap { addr: start, len: self.len() })
                }
            },
            (AllocPhase::Hint { second, .. }, AllocEvent::Mapped(Err(errno))) => {
                &&& grown == owned
                &&& after.tries_again(action, second, allocation_failure(errno))
            },
            (AllocPhase::DropHint { second, error }, _) => {
                &&& grown == owned
                &&& after.tries_again(action, second, error)
            },
            (AllocPhase::Reserve { page }, AllocEvent::Reserved(code)) => {
                &&& grown == owned
                &&& if code == 0 {
                    &&& after.reserved@ == self.reserved@.push(page)
                    &&& after.reserves_from(action, owned, page + PAGE_SIZE)
                } else {
                    &&& after.reserved@ == self.reserved@
                    &&& after.rolls_back(action, 0, reserve_failure(code))
                }
            },
            (AllocPhase::MapFixed, AllocEvent::Mapped(Ok(_))) => {
                &&& grown == owned.union(pages_of(self.range))
                &&& after.ends(action, Ok(self.range.start))
            },
            (AllocPhase::MapFixed, AllocEvent::Mapped(Err(errno))) => {
                &&& grown == owned
                &&& after.reserved@ == self.reserved@
                &&& after.rolls_back(action, 0, allocation_failure(errno))
            },
            (AllocPhase::Rollback { done, error }, _) => {
                &&& grown == owned
                &&& after.reserved@ == self.reserved@
                &&& after.rolls_back(action, done + 1, error)
            },
            _ => true,
        }
    }

    fn reserve_from(&mut self, from: usize, pages: &PageSet) -> (action: AllocAction)
        requires
            pages.wf(),
            aligned(old(self).range),
            in_task(old(self).range.start as int, old(self).len() as int),
            !(old(self).permissions.write && old(self).permissions.execute),
            !(old(self).behavior is Hint),
            old(self).range.start <= from <= old(self).range.end,
            (from - old(self).range.start) % PAGE_SIZE as int == 0,
            ascends(old(self).reserved@),
            forall|p: usize| #[trigger]
                old(self).reserved@.contains(p) ==> is_page_of(old(self).range, p)
                    && !pages@.contains(p) && p < from,
            old(self).secured(pages@, from as int),
        ensures
            final(self).wf(pages@),
            final(self).continues(*old(self)),
            final(self).reserved@ == old(self).reserved@,
            final(self).reserves_from(action, pages@, from as int),
    {
        let range = self.range;
        let mut page: usize = from;
        while page < range.end
            invariant
                pages.wf(),
                self.range == range,
                aligned(range),
                self.continues(*old(self)),
                self.reserved@ == old(self).reserved@,
                old(self).range == range,
                in_task(range.start as int, self.len() as int),
                !(self.permissions.write && self.permissions.execute),
                !(self.behavior is Hint),
                ascends(self.reserved@),
                range.start <= from <= page <= range.end,
                (page - range.start) % PAGE_SIZE as int == 0,
                forall|p: usize| #[trigger]
                    self.reserved@.contains(p) ==> is_page_of(range, p) && !pages@.contains(p) && p
                        < from,
                forall|p: usize|
                    is_page_of(range, p) && from <= p < page ==> #[trigger] pages@.contains(p),
                self.secured(pages@, from as int),
            decreases range.end - page,
        {
            if !pages.contains(page) {
                self.phase = AllocPhase::Reserve { page };
                assert forall|p: usize|
                    is_page_of(self.range, p) && p < page implies pages@.contains(p)
                    || #[trigger] self.reserved@.contains(p) by {
                    if p < from {
                    } else {
                        assert(pages@.contains(p));
                    }
                }
                return AllocAction::Reserve { page };
            }
            assert(page + PAGE_SIZE <= range.end);
            assert forall|p: usize|
                is_page_of(range, p) && from <= p < page + PAGE_SIZE
                implies #[trigger] pages@.contains(p) by {
                if p >= page {
                    assert(p == page);
                }
            }
            page = page + PAGE_SIZE;
        }
        self.phase = AllocPhase::MapFixed;
        assert forall|p: usize|
            is_page_of(self.range, p) && p < self.range.end
            implies pages@.contains(p) || #[trigger] self.reserved@.contains(p) by {
            if p < from {
            } else {
                assert(pages@.contains(p));
            }
        }
        AllocAction::MapFixed {
            start: range.start,
            len: range.end - range.start,
            prot: prot_flags(self.permissions),
        }
    }

    fn roll_back(
        &mut self,
        done: usize,
        error: AllocationError,
        Ghost(owned): Ghost<Set<usize>>,
    ) -> (action: AllocAction)
        requires
            old(self).wf(owned),
        ensures
            final(self).wf(owned),
            final(self).continues(*old(self)),
            final(self).reserved@ == old(self).reserved@,
            final(self).rolls_back(action, done as int, error),
    {
        if done < self.reserved.len() {
            self.phase = AllocPhase::Rollback { done, error };
            AllocAction::Unmap { addr: self.reserved[done], len: PAGE_SIZE }
        } else {
            self.phase = AllocPhase::End;
            AllocAction::Finish(Err(error))
        }
    }

    fn try_again(&mut self, second: bool, error: AllocationError) -> (action: AllocAction)
        requires
            old(self).range.start <= old(self).range.end,
        ensures
            final(self).continues(*old(self)),
            final(self).reserved@ == old(self).reserved@,
            final(self).tries_again(action, second, error),
    {
        if second {
            self.phase = AllocPhase::End;
            AllocAction::Finish(Err(error))
        } else {
            self.phase = AllocPhase::Hint { second: true, error };
            AllocAction::MapHint {
                hint: 0,
                len: self.range.end - self.range.start,
                prot: prot_flags(self.permissions),
            }
        }
    }

    /// The first action of allocating the pages of the range.
    pub fn start(
        range: AddrRange,
        permissions: MemoryRegionPermissions,
        behavior: FixedAddressBehavior,
        pages: &PageSet,
    ) -> (first: (Allocation, AllocAction))
        requires
            pages.wf(),
        ensures
            first.0.range == range && first.0.permissions == permissions && first.0.behavior
                == behavior,
            first.0.reserved@.len() == 0,
            match refusal(range, permissions, behavior, pages@) {
                Some(error) => first.0.ends(first.1, Err(error)),
                None => first.0.wf(pages@) && if behavior is Hint {
                    first.0.hints(first.1, false, AllocationError::OutOfMemory)
                } else {
                    first.0.reserves_from(first.1, pages@, range.start as int)
                },
            },
    {
        let mut allocation = Allocation {
            range,
            permissions,
            behavior,
            reserved: Vec::new(),
            phase: AllocPhase::End,
        };
        let refused = if !is_page_aligned(&range) {
            Some(AllocationError::Unaligned)
        } else if (range.start as u64) < TASK_ADDR_MIN {
            Some(AllocationError::BelowMinAddress)
        } else if range.end as u64 > TASK_ADDR_MAX {
            Some(AllocationError::AboveMaxAddress)
        } else if wx(permissions) {
            Some(AllocationError::PermissionDenied)
        } else if matches!(behavior, FixedAddressBehavior::NoReplace) {
            let owned = pages.owned_in(range);
            if owned.len() > 0 {
                proof {
                    assert(owned@.contains(owned@[0]));
                }
                Some(AllocationError::AddressInUse)
            } else {
                proof {
                    assert forall|page: usize| #[trigger] pages@.contains(page)
                        implies !range.holds(page as int) by {
                        assert(!owned@.contains(page));
                    }
                }
                None
            }
        } else {
            None
        };
        if let Some(error) = refused {
            return (allocation, AllocAction::Finish(Err(error)));
        }
        if matches!(behavior, FixedAddressBehavior::Hint) {
            allocation.phase =
            AllocPhase::Hint { second: false, error: AllocationError::OutOfMemory };
            let action = AllocAction::MapHint {
                hint: range.start,
                len: range.end - range.start,
                prot: prot_flags(permissions),
            };
            return (allocation, action);
        }
        let action = allocation.reserve_from(range.start, pages);
        (allocation, action)
    }

    /// Takes the reply of the host and returns what it has to do next. The
    /// pages of the guest grow once the allocation succeeds.
    pub fn step(&mut self, event: AllocEvent, pages: &mut PageSet) -> (action: AllocAction)
        requires
            old(pages).wf(),
            old(self).wf(old(pages)@),
            old(self).accepts(event),
        ensures
            final(pages).wf(),
            final(self).continues(*old(self)),
            !(final(self).phase is End) ==> final(self).wf(final(pages)@),
            old(self).leads_to(event, old(pages)@, *final(self), action, final(pages)@),
    {
        let ghost owned = pages@;
        let range = self.range;
        let len: usize = range.end - range.start;
        match (self.phase, event) {
            (AllocPhase::Hint { second, error }, AllocEvent::Mapped(Ok(start))) => {
                let fits = match start.checked_add(len) {
                    Some(end) => start as u64 >= TASK_ADDR_MIN && end as u64 <= TASK_ADDR_MAX,
                    None => false,
                };
                if !fits {
                    self.phase = AllocPhase::DropHint { second, error };
                    return AllocAction::Unmap { addr: start, len };
                }
                pages.extend(AddrRange { start, end: start + len });
                self.phase = AllocPhase::End;
                AllocAction::Finish(Ok(start))
            },
            (AllocPhase::Hint { second, .. }, AllocEvent::Mapped(Err(errno))) => {
                self.try_again(second, allocation_error(errno))
            },
            (AllocPhase::DropHint { second, error }, _) => self.try_again(second, error),
            (AllocPhase::Reserve { page }, AllocEvent::Reserved(code)) => {
                if code != 0 {
                    let error = if code == 2 {
                        AllocationError::PermissionDenied
                    } else if code == 6 {
                        AllocationError::OutOfMemory
                    } else {
                        AllocationError::AddressInUseByPlatform
                    };
                    return self.roll_back(0, error, Ghost(owned));
                }
                let ghost before = self.reserved@;
                self.reserved.push(page);
                proof {
                    assert(page + PAGE_SIZE <= range.end);
                    assert forall|p: usize| #[trigger] self.reserved@.contains(p)
                        implies is_page_of(range, p) && !owned.contains(p) && p < page + PAGE_SIZE by {
                        let k = choose|k: int|
                            0 <= k < self.reserved@.len() && self.reserved@[k] == p;
                        if k < before.len() {
                            assert(before[k] == p);
                            assert(before.contains(p));
                        }
                    }
                    assert forall|i: int, j: int| 0 <= i < j < self.reserved@.len() implies
                        #[trigger] self.reserved@[i] < #[trigger] self.reserved@[j] by {
                        if j == before.len() {
                            assert(before.contains(before[i]));
                        } else {
                            assert(before[i] < before[j]);
                        }
                    }
                    assert forall|p: usize|
                        is_page_of(range, p) && p < page + PAGE_SIZE implies owned.contains(p)
                        || #[trigger] self.reserved@.contains(p) by {
                        if p < page {
                            if !owned.contains(p) {
                                assert(before.contains(p));
                                let k = choose|k: int| 0 <= k < before.len() && before[k] == p;
                                assert(self.reserved@[k] == p);
                            }
                        } else {
                            assert(p == page);
                            assert(self.reserved@[before.len() as int] == p);
                        }
                    }
                }
                self.reserve_from(page + PAGE_SIZE, pages)
            },
            (AllocPhase::MapFixed, AllocEvent::Mapped(Ok(_))) => {
                pages.extend(range);
                self.phase = AllocPhase::End;
                AllocAction::Finish(Ok(range.start))
            },
            (AllocPhase::MapFixed, AllocEvent::Mapped(Err(errno))) => {
                self.roll_back(0, allocation_error(errno), Ghost(owned))
            },
            (AllocPhase::Rollback { done, error }, _) => {
                let count: usize = self.reserved.len();
                assert(done < count);
                self.roll_back(done + 1, error, Ghost(owned))
            },
            _ => AllocAction::Finish(Err(AllocationError::OutOfMemory)),
        }
    }
}

/// A mapping at a fixed address replaces no memory of the host: whenever one is
/// asked for, each of its pages is the guest's own or was found free and
/// reserved.
pub proof fn fixed_mappings_replace_no_host_memory(
    allocation: Allocation,
    owned: Set<usize>,
    page: usize,
)
    requires
        allocation.wf(owned),
        allocation.phase is MapFixed,
        is_page_of(allocation.range, page),
    ensures
        owned.contains(page) || allocation.reserved@.contains(page),
{
    assert(owned.contains(page) || allocation.reserved@.contains(page));
}

/// What is given back was reserved by the allocation itself, and is none of
/// the guest's pages.
pub proof fn only_reservations_are_given_back(
    allocation: Allocation,
    owned: Set<usize>,
    action: AllocAction,
    done: int,
    error: AllocationError,
)
    requires
        allocation.wf(owned),
        allocation.phase is Rollback,
        done >= 0,
        allocation.rolls_back(action, done, error),
    ensures
        action matches AllocAction::Unmap { addr, len } && len == PAGE_SIZE
            && allocation.reserved@.contains(addr) && !owned.contains(addr) && is_page_of(
            allocation.range,
            addr,
        ),
{
    assert(allocation.reserved@.contains(allocation.reserved@[done]));
}

/// The pages that an allocation holds reserved on the host, once the event
/// answers its action.
pub open spec fn held_after(
    held: Set<usize>,
    allocation: Allocation,
    event: AllocEvent,
) -> Set<usize> {
    match (allocation.phase, event) {
        (AllocPhase::Reserve { page }, AllocEvent::Reserved(0)) => held.insert(page),
        (AllocPhase::Rollback { done, .. }, AllocEvent::Unmapped) => held.remove(
            allocation.reserved@[done as int],
        ),
        _ => held,
    }
}

/// Whether these are the reserved pages from the one at `done` on.
pub open spec fn is_rest(held: Set<usize>, reserved: Seq<usize>, done: int) -> bool {
    forall|p: usize| #[trigger] held.contains(p) == reserved.skip(done).contains(p)
}

/// What an allocation holds reserved in each phase. Once it has failed, that is
/// nothing; once it has succeeded at a fixed address, the pages of the range
/// that were not the guest's before.
pub open spec fn holds_reserved(
    allocation: Allocation,
    action: AllocAction,
    owned: Set<usize>,
    held: Set<usize>,
) -> bool {
    match allocation.phase {
        AllocPhase::Hint { .. } | AllocPhase::DropHint { .. } => held =~= Set::empty(),
        AllocPhase::Reserve { .. } | AllocPhase::MapFixed => is_rest(
            held,
            allocation.reserved@,
            0,
        ),
        AllocPhase::Rollback { done, .. } => is_rest(held, allocation.reserved@, done as int),
        AllocPhase::End => match action {
            AllocAction::Finish(Err(_)) => held =~= Set::empty(),
            _ => held.subset_of(owned),
        },
    }
}

/// An allocation that fails gives back every page that it reserved, and one
/// that succeeds reserved nothing but pages that are now the guest's: each
/// answer keeps what the phase says of the pages that are held.
pub proof fn failed_allocations_keep_nothing(
    before: Allocation,
    owned: Set<usize>,
    held: Set<usize>,
    event: AllocEvent,
    after: Allocation,
    action: AllocAction,
    grown: Set<usize>,
    asked: AllocAction,
)
    requires
        before.wf(owned),
        before.accepts(event),
        holds_reserved(before, asked, owned, held),
        before.leads_to(event, owned, after, action, grown),
        after.continues(before),
        !(after.phase is End) ==> after.wf(grown),
    ensures
        holds_reserved(after, action, grown, held_after(held, before, event)),
{
    let now = held_after(held, before, event);
    match (before.phase, event) {
        (AllocPhase::Reserve { page }, AllocEvent::Reserved(code)) => {
            assert(before.reserved@.skip(0) =~= before.reserved@);
            assert(after.reserved@.skip(0) =~= after.reserved@);
            if code == 0 {
                assert forall|p: usize| #[trigger]
                    now.contains(p) == after.reserved@.contains(p) by {
                    let k = before.reserved@.len() as int;
                    assert(after.reserved@[k] == page);
                    if before.reserved@.contains(p) {
                        let i = choose|i: int|
                            0 <= i < before.reserved@.len() && before.reserved@[i] == p;
                        assert(after.reserved@[i] == p);
                    }
                    if after.reserved@.contains(p) && p != page {
                        let i = choose|i: int|
                            0 <= i < after.reserved@.len() && after.reserved@[i] == p;
                        assert(before.reserved@[i] == p);
                    }
                    assert(held.contains(p) == before.reserved@.skip(0).contains(p));
                }
            } else {
                none_is_left(after.reserved@, 0, now);
            }
        },
        (AllocPhase::MapFixed, AllocEvent::Mapped(r)) => {
            assert(before.reserved@.skip(0) =~= before.reserved@);
            match r {
                Ok(_) => {
                    assert forall|p: usize| #[trigger] now.contains(p)
                        implies grown.contains(p) by {
                        assert(before.reserved@.skip(0).contains(p));
                        assert(before.reserved@.contains(p));
                        assert(pages_of(before.range).contains(p));
                    }
                },
                Err(_) => {
                    none_is_left(after.reserved@, 0, now);
                },
            }
        },
        (AllocPhase::Rollback { done, .. }, AllocEvent::Unmapped) => {
            let left = before.reserved@.skip(done as int);
            let rest = before.reserved@.skip(done + 1);
            assert(left[0] == before.reserved@[done as int]);
            assert forall|p: usize| #[trigger] now.contains(p) == rest.contains(p) by {
                assert(held.contains(p) == left.contains(p));
                if rest.contains(p) {
                    let i = choose|i: int| 0 <= i < rest.len() && rest[i] == p;
                    assert(left[i + 1] == p);
                    assert(before.reserved@[done as int] < before.reserved@[done + 1 + i]);
                }
                if left.contains(p) && p != left[0] {
                    let i = choose|i: int| 0 <= i < left.len() && left[i] == p;
                    assert(rest[i - 1] == p);
                }
            }
            assert(done + 1 <= after.reserved.len());
            none_is_left(after.reserved@, done + 1, now);
        },
        _ => {},
    }
}

/// Where nothing is left to give back, nothing is held.
proof fn none_is_left(reserved: Seq<usize>, done: int, held: Set<usize>)
    requires
        0 <= done <= reserved.len(),
        is_rest(held, reserved, done),
    ensures
        done == reserved.len() ==> held =~= Set::empty(),
{
    if done == reserved.len() {
        assert forall|p: usize| !held.contains(p) by {
            assert(held.contains(p) == reserved.skip(done).contains(p));
        }
    }
}

/// Nothing that is allocated can be both written and executed.
pub proof fn nothing_is_writable_and_executable(allocation: Allocation, owned: Set<usize>)
    requires
        allocation.wf(owned),
    ensures
        prot_of(allocation.permissions) < PROT_WRITE + PROT_EXEC,
{
}

/// The host's protection bits allow what the permissions allow, each of the three
/// on its own, and nothing else.
pub proof fn protection_bits_are_the_permissions(p: MemoryRegionPermissions)
    ensures
        0 <= prot_of(p) < 8,
        prot_of(p) % 2 == 1 <==> p.read,
        prot_of(p) / 2 % 2 == 1 <==> p.write,
        prot_of(p) / 4 % 2 == 1 <==> p.execute,
{
}

/// A guest is given the pages that the host mapped, all of them and no others,
/// and only when the allocation ends well: at the address where the host put
/// them, within the reach of guests, and where the guest asked for them if it
/// insisted. All the while its other pages stay its own.
pub proof fn guests_own_what_was_mapped(
    before: Allocation,
    owned: Set<usize>,
    event: AllocEvent,
    after: Allocation,
    action: AllocAction,
    grown: Set<usize>,
    page: usize,
)
    requires
        before.wf(owned),
        before.accepts(event),
        before.leads_to(event, owned, after, action, grown),
    ensures
        owned.contains(page) ==> grown.contains(page),
        match action {
            AllocAction::Finish(Ok(addr)) => {
                &&& event matches AllocEvent::Mapped(Ok(at)) && (before.behavior is Hint ==> addr
                    == at)
                &&& !(before.behavior is Hint) ==> addr == before.range.start
                &&& addr % PAGE_SIZE == 0
                &&& TASK_ADDR_MIN <= addr && addr + before.len() <= TASK_ADDR_MAX
                &&& grown.contains(page) && !owned.contains(page) ==> addr <= page < addr
                    + before.len()
                &&& addr <= page < addr + before.len() && page % PAGE_SIZE == 0 ==> grown.contains(
                    page,
                )
            },
            _ => grown.contains(page) ==> owned.contains(page),
        },
{
    if let AllocAction::Finish(Ok(addr)) = action {
        if addr <= page < addr + before.len() && page % PAGE_SIZE == 0 {
            assert((page - addr) % PAGE_SIZE as int == 0);
        }
    }
}

/// A request is turned down before the host is asked exactly where it is not for
/// whole pages, reaches past what guests can have, wants memory that is both
/// writable and executable, or must not replace pages and would.
pub proof fn only_bad_requests_are_refused(
    range: AddrRange,
    permissions: MemoryRegionPermissions,
    behavior: FixedAddressBehavior,
    owned: Set<usize>,
    page: usize,
)
    ensures
        ({
            let told = refusal(range, permissions, behavior, owned);
            &&& told is None ==> {
                &&& range.start < range.end
                &&& range.start % 0x4000 == 0 && range.end % 0x4000 == 0
                &&& TASK_ADDR_MIN <= range.start && range.end <= TASK_ADDR_MAX
                &&& !(permissions.write && permissions.execute)
                &&& behavior is NoReplace && range.start <= page < range.end ==> !owned.contains(
                    page,
                )
            }
            &&& match told {
                None => true,
                Some(AllocationError::Unaligned) => range.start >= range.end || range.start % 0x4000
                    != 0 || range.end % 0x4000 != 0,
                Some(AllocationError::BelowMinAddress) => range.start < TASK_ADDR_MIN,
                Some(AllocationError::AboveMaxAddress) => range.end > TASK_ADDR_MAX,
                Some(AllocationError::PermissionDenied) => permissions.write
                    && permissions.execute,
                Some(AllocationError::AddressInUse) => behavior is NoReplace && exists|p: usize|
                    #[trigger] owned.contains(p) && range.start <= p < range.end,
                _ => false,
            }
        }),
{
}

/// A page that the host would not reserve ends the allocation: for want of rights
/// or memory where the host says so, else because the host has something there.
pub proof fn unreserved_pages_end_the_allocation(
    before: Allocation,
    owned: Set<usize>,
    code: i32,
    after: Allocation,
    action: AllocAction,
    grown: Set<usize>,
)
    requires
        before.wf(owned),
        before.phase is Reserve,
        code != 0,
        before.leads_to(AllocEvent::Reserved(code), owned, after, action, grown),
    ensures
        action matches AllocAction::Finish(r) ==> r is Err && before.reserved@.len() == 0,
        action matches AllocAction::Finish(Err(e)) ==> match e {
            AllocationError::PermissionDenied => code == 2,
            AllocationError::OutOfMemory => code == 6,
            AllocationError::AddressInUseByPlatform => code != 2 && code != 6,
            _ => false,
        },
        action is Finish || action is Unmap,
{
}

/// Whatever is mapped for an allocation is as long as was asked for and allows
/// what was asked for. A place that the guest only suggests is tried first, then
/// any other; one that it insists on is the only one.
pub proof fn mappings_are_as_asked_for(
    before: Allocation,
    owned: Set<usize>,
    event: AllocEvent,
    after: Allocation,
    action: AllocAction,
    grown: Set<usize>,
)
    requires
        before.wf(owned),
        before.accepts(event),
        after.continues(before),
        before.leads_to(event, owned, after, action, grown),
    ensures
        match action {
            AllocAction::MapHint { hint, len, prot } => {
                &&& before.behavior is Hint
                &&& hint == 0
                &&& len == before.range.end - before.range.start
                &&& prot == prot_of(before.permissions)
            },
            AllocAction::MapFixed { start, len, prot } => {
                &&& !(before.behavior is Hint)
                &&& start == before.range.start
                &&& len == before.range.end - before.range.start
                &&& prot == prot_of(before.permissions)
            },
            AllocAction::Reserve { page } => !(before.behavior is Hint) && before.range.start
                <= page < before.range.end && !owned.contains(page),
            AllocAction::Finish(Err(e)) => before.phase is Reserve || before.phase is Rollback
                || before.phase is MapFixed || (before.behavior is Hint && (
            before.phase matches AllocPhase::Hint { second, .. } ==> second) && (
            before.phase matches AllocPhase::DropHint { second, .. } ==> second)),
            _ => true,
        },
{
}

/// What the host says is what an allocation fails with: that it is not allowed,
/// that something is there, or that there is no memory.
pub proof fn allocation_errors_come_from_the_host(errno: i32)
    ensures
        allocation_failure(errno) is PermissionDenied <==> errno == 1 || errno == 13,
        allocation_failure(errno) is AddressInUse <==> errno == 17,
        allocation_failure(errno) is OutOfMemory <==> errno != 1 && errno != 13 && errno != 17,
{
}

} // verus!
