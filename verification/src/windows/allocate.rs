//! Allocation of pages on Windows.

use vstd::prelude::*;

use crate::arith::{
    align_down, align_up, align_up_spec, ceil_to, ceil_to_is_least_multiple, floor_to,
    floor_to_is_greatest_multiple, is_pow2, pow2_is_positive, wrap_sub,
};
use crate::flags::MemoryRegionPermissions;
use crate::mm::patch_laws::region;
use crate::mm::ranges::AddrRange;
use crate::page_mgmt::{AllocationError, FixedAddressBehavior};
use crate::windows::regions::{
    part_before, part_of, prot_flags, prot_of, Region, WindowsUserland, MEM_COMMIT, MEM_FREE,
    MEM_RESERVE, TASK_ADDR_MAX, TASK_ADDR_MIN,
};

verus! {

/// What the host has to do next.
#[derive(Clone, Copy, Debug, PartialEq, Eq)]
pub enum AllocAction {
    /// Tell of the region at the address.
    Query { addr: usize },
    /// Give committed memory back.
    Decommit { addr: usize, len: usize },
    /// Reserve memory, anywhere if the address is zero.
    Reserve { addr: usize, len: usize },
    /// Commit reserved memory.
    Commit { addr: usize, len: usize, prot: u32 },
    /// Bring the pages to memory.
    Prefetch { addr: usize, len: usize },
    Finish(Result<usize, AllocationError>),
    Fatal(AllocFailure),
}

/// Why the process has to stop.
#[derive(Clone, Copy, Debug, PartialEq, Eq, Structural)]
pub enum AllocFailure {
    /// The host cannot tell of a region.
    Query,
    /// Another allocator took memory meanwhile.
    Raced,
    /// A region is in no known state.
    UnexpectedState,
    Decommit,
    Commit,
    Prefetch,
}

/// What the host answers.
#[derive(Clone, Copy, Debug, PartialEq, Eq, Structural)]
pub enum AllocEvent {
    Region(Option<Region>),
    /// Whether the action succeeded.
    Done(bool),
    /// Where memory was reserved or committed, if it was.
    Placed(Option<usize>),
}

/// What the allocation is waiting for.
#[derive(Clone, Copy, Debug, PartialEq, Eq, Structural)]
pub enum AllocPhase {
    /// The range is looked through for committed memory.
    Scan { at: usize },
    /// The range is committed, region by region.
    Query { at: usize },
    Decommit { at: usize, len: usize },
    Reserve { at: usize, len: usize },
    Commit { at: usize, len: usize },
    Prefetch { at: usize, len: usize },
    /// Memory is allocated anywhere.
    ReserveAnywhere,
    CommitAnywhere,
    PrefetchAnywhere { at: usize },
    End,
}

/// Pages being allocated.
#[derive(Clone, Copy, Debug, PartialEq, Eq, Structural)]
pub struct Allocation {
    pub range: AddrRange,
    pub permissions: MemoryRegionPermissions,
    pub populate: bool,
    pub behavior: FixedAddressBehavior,
    /// The unit in which the host reserves memory.
    pub granularity: usize,
    pub phase: AllocPhase,
}

/// An allocation and the action that it asks for.
#[derive(Clone, Copy, Debug, PartialEq, Eq)]
pub struct Allocating {
    pub allocation: Allocation,
    pub action: AllocAction,
}

/// Whether a range can be asked for: anywhere, or where a guest can have it.
pub open spec fn can_allocate(range: AddrRange) -> bool {
    range.start != 0 ==> TASK_ADDR_MIN <= range.start && range.end <= TASK_ADDR_MAX
}

impl Allocation {
    /// How many bytes are allocated: none where the range ends before it
    /// starts.
    pub open spec fn size(self) -> usize {
        if self.range.start < self.range.end {
            (self.range.end - self.range.start) as usize
        } else {
            0
        }
    }

    pub open spec fn wf(self) -> bool {
        &&& can_allocate(self.range)
        &&& is_pow2(self.granularity as int)
        &&& self.granularity <= u32::MAX
        &&& match self.phase {
            AllocPhase::Scan { at } | AllocPhase::Query { at } => self.range.start <= at
                < self.range.end && self.range.start != 0,
            AllocPhase::Decommit { at, len }
            | AllocPhase::Reserve { at, len }
            | AllocPhase::Commit { at, len }
            | AllocPhase::Prefetch { at, len } => self.range.start <= at && 0 < len
                <= self.range.end - at && self.range.start != 0,
            _ => true,
        }
    }

    /// Whether the event answers what the allocation waits for.
    pub open spec fn accepts(self, event: AllocEvent) -> bool {
        match self.phase {
            AllocPhase::Scan { at } | AllocPhase::Query { at } => {
                event matches AllocEvent::Region(r) && (r matches Some(x) ==> x.base == at && x.size
                    > 0)
            },
            AllocPhase::Decommit { .. }
            | AllocPhase::Prefetch { .. }
            | AllocPhase::PrefetchAnywhere { .. } => event is Done,
            AllocPhase::Reserve { .. }
            | AllocPhase::Commit { .. }
            | AllocPhase::ReserveAnywhere
            | AllocPhase::CommitAnywhere => event is Placed,
            AllocPhase::End => false,
        }
    }

    /// Whether the event answers what the allocation waits for.
    pub fn is_answered_by(&self, event: AllocEvent) -> (answered: bool)
        ensures
            answered == self.accepts(event),
    {
        match self.phase {
            AllocPhase::Scan { at } | AllocPhase::Query { at } => match event {
                AllocEvent::Region(Some(x)) => x.base == at && x.size > 0,
                AllocEvent::Region(None) => true,
                _ => false,
            },
            AllocPhase::Decommit { .. }
            | AllocPhase::Prefetch { .. }
            | AllocPhase::PrefetchAnywhere { .. } => matches!(event, AllocEvent::Done(_)),
            AllocPhase::Reserve { .. }
            | AllocPhase::Commit { .. }
            | AllocPhase::ReserveAnywhere
            | AllocPhase::CommitAnywhere => matches!(event, AllocEvent::Placed(_)),
            AllocPhase::End => false,
        }
    }

    pub open spec fn goes(self, phase: AllocPhase, action: AllocAction) -> Allocating {
        Allocating { allocation: Allocation { phase, ..self }, action }
    }

    pub open spec fn finishes(self, result: Result<usize, AllocationError>) -> Allocating {
        self.goes(AllocPhase::End, AllocAction::Finish(result))
    }

    pub open spec fn fails(self, failure: AllocFailure) -> Allocating {
        self.goes(AllocPhase::End, AllocAction::Fatal(failure))
    }

    /// Looks for committed memory from `at` on, and then commits the range.
    pub open spec fn scans(self, at: usize) -> Allocating {
        if at < self.range.end {
            self.goes(AllocPhase::Scan { at }, AllocAction::Query { addr: at })
        } else {
            self.walks(self.range.start)
        }
    }

    /// Commits the range from `at` on.
    pub open spec fn walks(self, at: usize) -> Allocating {
        if at < self.range.end {
            self.goes(AllocPhase::Query { at }, AllocAction::Query { addr: at })
        } else {
            self.finishes(Ok(self.range.start))
        }
    }

    pub open spec fn commits(self, at: usize, len: usize) -> Allocating {
        self.goes(
            AllocPhase::Commit { at, len },
            AllocAction::Commit { addr: at, len, prot: prot_of(self.permissions) },
        )
    }

    /// Allocates memory anywhere, reserved in whole units.
    pub open spec fn reserves_anywhere(self) -> Allocating {
        self.goes(
            AllocPhase::ReserveAnywhere,
            AllocAction::Reserve { addr: 0, len: align_up_spec(self.size(), self.granularity) },
        )
    }

    /// What follows committed memory in the range.
    pub open spec fn meets_committed(self) -> Allocating {
        match self.behavior {
            FixedAddressBehavior::Hint => self.reserves_anywhere(),
            FixedAddressBehavior::NoReplace => self.finishes(Err(AllocationError::AddressInUse)),
            FixedAddressBehavior::Replace => self.walks(self.range.start),
        }
    }

    /// What follows a region that is to be committed.
    pub open spec fn after_region(self, at: usize, r: Region) -> Allocating {
        let len = part_of(at, r.size, self.range.end);
        let start = floor_to(at as int, self.granularity as int);
        let end = align_up_spec((at + len) as usize, self.granularity);
        if r.state == MEM_RESERVE {
            self.commits(at, len)
        } else if r.state == MEM_COMMIT {
            if self.behavior is Replace {
                self.goes(
                    AllocPhase::Decommit { at, len },
                    AllocAction::Decommit { addr: at, len },
                )
            } else {
                self.fails(AllocFailure::Raced)
            }
        } else if r.state == MEM_FREE {
            self.goes(
                AllocPhase::Reserve { at, len },
                AllocAction::Reserve {
                    addr: start as usize,
                    len: wrap_sub(end, start as usize),
                },
            )
        } else {
            self.fails(AllocFailure::UnexpectedState)
        }
    }

    /// What follows an event that answers what the allocation waits for.
    pub open spec fn next(self, event: AllocEvent) -> Allocating {
        match (self.phase, event) {
            (_, AllocEvent::Region(None)) => self.fails(AllocFailure::Query),
            (AllocPhase::Scan { at }, AllocEvent::Region(Some(r))) => if r.state == MEM_COMMIT {
                self.meets_committed()
            } else {
                self.scans((at + part_of(at, r.size, self.range.end)) as usize)
            },
            (AllocPhase::Query { at }, AllocEvent::Region(Some(r))) => self.after_region(at, r),
            (AllocPhase::Decommit { at, len }, AllocEvent::Done(ok)) => if ok {
                self.commits(at, len)
            } else {
                self.fails(AllocFailure::Decommit)
            },
            (AllocPhase::Reserve { at, len }, AllocEvent::Placed(p)) => match p {
                Some(_) => self.commits(at, len),
                None => self.fails(AllocFailure::Commit),
            },
            (AllocPhase::Commit { at, len }, AllocEvent::Placed(p)) => match p {
                Some(_) => if self.populate {
                    self.goes(
                        AllocPhase::Prefetch { at, len },
                        AllocAction::Prefetch { addr: at, len },
                    )
                } else {
                    self.walks((at + len) as usize)
                },
                None => self.fails(AllocFailure::Commit),
            },
            (AllocPhase::Prefetch { at, len }, AllocEvent::Done(ok)) => if ok {
                self.walks((at + len) as usize)
            } else {
                self.fails(AllocFailure::Prefetch)
            },
            (AllocPhase::ReserveAnywhere, AllocEvent::Placed(p)) => match p {
                Some(at) => self.goes(
                    AllocPhase::CommitAnywhere,
                    AllocAction::Commit {
                        addr: at,
                        len: self.size(),
                        prot: prot_of(self.permissions),
                    },
                ),
                None => self.fails(AllocFailure::Commit),
            },
            (AllocPhase::CommitAnywhere, AllocEvent::Placed(p)) => match p {
                Some(at) => if self.populate {
                    self.goes(
                        AllocPhase::PrefetchAnywhere { at },
                        AllocAction::Prefetch { addr: at, len: self.size() },
                    )
                } else {
                    self.finishes(Ok(at))
                },
                None => self.fails(AllocFailure::Commit),
            },
            (AllocPhase::PrefetchAnywhere { at }, AllocEvent::Done(ok)) => if ok {
                self.finishes(Ok(at))
            } else {
                self.fails(AllocFailure::Prefetch)
            },
            _ => arbitrary(),
        }
    }

    fn go(self, phase: AllocPhase, action: AllocAction) -> (next: Allocating)
        ensures
            next == self.goes(phase, action),
    {
        Allocating { allocation: Allocation { phase, ..self }, action }
    }

    fn finish(self, result: Result<usize, AllocationError>) -> (next: Allocating)
        ensures
            next == self.finishes(result),
    {
        self.go(AllocPhase::End, AllocAction::Finish(result))
    }

    fn fail(self, failure: AllocFailure) -> (next: Allocating)
        ensures
            next == self.fails(failure),
    {
        self.go(AllocPhase::End, AllocAction::Fatal(failure))
    }

    fn walk(self, at: usize) -> (next: Allocating)
        requires
            self.wf(),
            self.range.start != 0,
            self.range.start <= at,
        ensures
            next == self.walks(at),
            next.allocation.wf(),
    {
        if at < self.range.end {
            self.go(AllocPhase::Query { at }, AllocAction::Query { addr: at })
        } else {
            self.finish(Ok(self.range.start))
        }
    }

    fn scan(self, at: usize) -> (next: Allocating)
        requires
            self.wf(),
            self.range.start != 0,
            self.range.start <= at,
        ensures
            next == self.scans(at),
            next.allocation.wf(),
    {
        if at < self.range.end {
            self.go(AllocPhase::Scan { at }, AllocAction::Query { addr: at })
        } else {
            self.walk(self.range.start)
        }
    }

    fn commit(self, at: usize, len: usize) -> (next: Allocating)
        ensures
            next == self.commits(at, len),
    {
        self.go(
            AllocPhase::Commit { at, len },
            AllocAction::Commit { addr: at, len, prot: prot_flags(self.permissions) },
        )
    }

    fn reserve_anywhere(self) -> (next: Allocating)
        requires
            self.wf(),
        ensures
            next == self.reserves_anywhere(),
            next.allocation.wf(),
    {
        let size: usize = self.range.len();
        self.go(
            AllocPhase::ReserveAnywhere,
            AllocAction::Reserve { addr: 0, len: align_up(size, self.granularity) },
        )
    }

    fn on_region(self, at: usize, r: Region) -> (next: Allocating)
        requires
            self.wf(),
            self.phase == (AllocPhase::Query { at }),
            r.size > 0,
        ensures
            next == self.after_region(at, r),
            next.allocation.wf(),
    {
        let len: usize = part_before(at, r.size, self.range.end);
        if r.state == MEM_RESERVE {
            self.commit(at, len)
        } else if r.state == MEM_COMMIT {
            match self.behavior {
                FixedAddressBehavior::Replace => self.go(
                    AllocPhase::Decommit { at, len },
                    AllocAction::Decommit { addr: at, len },
                ),
                _ => self.fail(AllocFailure::Raced),
            }
        } else if r.state == MEM_FREE {
            let start: usize = align_down(at, self.granularity);
            let end: usize = align_up(at + len, self.granularity);
            self.go(
                AllocPhase::Reserve { at, len },
                AllocAction::Reserve { addr: start, len: end.wrapping_sub(start) },
            )
        } else {
            self.fail(AllocFailure::UnexpectedState)
        }
    }

    /// The first action of allocating the pages of the range, or as many
    /// anywhere if it starts at zero.
    pub fn allocate_pages(
        platform: &WindowsUserland,
        range: AddrRange,
        permissions: MemoryRegionPermissions,
        populate: bool,
        behavior: FixedAddressBehavior,
    ) -> (first: Allocating)
        requires
            platform.wf(),
            can_allocate(range),
        ensures
            ({
                let allocation = Allocation {
                    range,
                    permissions,
                    populate,
                    behavior,
                    granularity: platform.granularity,
                    phase: AllocPhase::End,
                };
                first == if range.start == 0 {
                    allocation.reserves_anywhere()
                } else {
                    allocation.scans(range.start)
                }
            }),
            first == begins(
                Allocation {
                    range,
                    permissions,
                    populate,
                    behavior,
                    granularity: platform.granularity,
                    phase: AllocPhase::End,
                },
            ),
            first.allocation.wf(),
    {
        let allocation = Allocation {
            range,
            permissions,
            populate,
            behavior,
            granularity: platform.granularity,
            phase: AllocPhase::End,
        };
        if range.start == 0 {
            allocation.reserve_anywhere()
        } else {
            allocation.scan(range.start)
        }
    }

    /// Takes the reply of the host and returns what it has to do next.
    pub fn step(&mut self, event: AllocEvent) -> (action: AllocAction)
        requires
            old(self).wf(),
            old(self).accepts(event),
        ensures
            (Allocating { allocation: *final(self), action }) == old(self).next(event),
            final(self).wf(),
    {
        let now = *self;
        let size: usize = now.range.len();
        let next = match (now.phase, event) {
            (_, AllocEvent::Region(None)) => now.fail(AllocFailure::Query),
            (AllocPhase::Scan { at }, AllocEvent::Region(Some(r))) => {
                if r.state == MEM_COMMIT {
                    match now.behavior {
                        FixedAddressBehavior::Hint => now.reserve_anywhere(),
                        FixedAddressBehavior::NoReplace => now.finish(
                            Err(AllocationError::AddressInUse),
                        ),
                        FixedAddressBehavior::Replace => now.walk(now.range.start),
                    }
                } else {
                    now.scan(at + part_before(at, r.size, now.range.end))
                }
            },
            (AllocPhase::Query { at }, AllocEvent::Region(Some(r))) => now.on_region(at, r),
            (AllocPhase::Decommit { at, len }, AllocEvent::Done(ok)) => if ok {
                now.commit(at, len)
            } else {
                now.fail(AllocFailure::Decommit)
            },
            (AllocPhase::Reserve { at, len }, AllocEvent::Placed(p)) => match p {
                Some(_) => now.commit(at, len),
                None => now.fail(AllocFailure::Commit),
            },
            (AllocPhase::Commit { at, len }, AllocEvent::Placed(p)) => match p {
                Some(_) => if now.populate {
                    now.go(
                        AllocPhase::Prefetch { at, len },
                        AllocAction::Prefetch { addr: at, len },
                    )
                } else {
                    now.walk(at + len)
                },
                None => now.fail(AllocFailure::Commit),
            },
            (AllocPhase::Prefetch { at, len }, AllocEvent::Done(ok)) => if ok {
                now.walk(at + len)
            } else {
                now.fail(AllocFailure::Prefetch)
            },
            (AllocPhase::ReserveAnywhere, AllocEvent::Placed(p)) => match p {
                Some(at) => now.go(
                    AllocPhase::CommitAnywhere,
                    AllocAction::Commit {
                        addr: at,
                        len: size,
                        prot: prot_flags(now.permissions),
                    },
                ),
                None => now.fail(AllocFailure::Commit),
            },
            (AllocPhase::CommitAnywhere, AllocEvent::Placed(p)) => match p {
                Some(at) => if now.populate {
                    now.go(
                        AllocPhase::PrefetchAnywhere { at },
                        AllocAction::Prefetch { addr: at, len: size },
                    )
                } else {
                    now.finish(Ok(at))
                },
                None => now.fail(AllocFailure::Commit),
            },
            (AllocPhase::PrefetchAnywhere { at }, AllocEvent::Done(ok)) => if ok {
                now.finish(Ok(at))
            } else {
                now.fail(AllocFailure::Prefetch)
            },
            _ => now.fail(AllocFailure::Query),
        };
        *self = next.allocation;
        next.action
    }
}

/// Committed memory is given up only where the caller wants it replaced.
pub proof fn committed_memory_is_kept(allocation: Allocation, event: AllocEvent)
    requires
        allocation.wf(),
        allocation.accepts(event),
        !(allocation.behavior is Replace),
    ensures
        !(allocation.next(event).action is Decommit),
        allocation.next(event).allocation.behavior == allocation.behavior,
{
}

/// A range that must not be replaced fails at the first committed region in it,
/// before anything is changed.
pub proof fn occupied_range_is_refused(allocation: Allocation, r: Region)
    requires
        allocation.wf(),
        allocation.phase is Scan,
        allocation.behavior is NoReplace,
        allocation.accepts(AllocEvent::Region(Some(r))),
        r.state == MEM_COMMIT,
    ensures
        allocation.next(AllocEvent::Region(Some(r))).action == AllocAction::Finish(
            Err(AllocationError::AddressInUse),
        ),
{
}

/// What is reserved for a free region is made of whole units and covers the part
/// of the region that is committed.
pub proof fn reservations_cover_regions(allocation: Allocation, at: usize, r: Region)
    requires
        usize::MAX == u64::MAX,
        allocation.wf(),
        allocation.phase == (AllocPhase::Query { at }),
        allocation.accepts(AllocEvent::Region(Some(r))),
        r.state == MEM_FREE,
    ensures
        allocation.next(AllocEvent::Region(Some(r))).action matches AllocAction::Reserve {
            addr,
            len,
        } && {
            &&& addr <= at
            &&& at + part_of(at, r.size, allocation.range.end) <= addr + len
            &&& addr as int % allocation.granularity as int == 0
            &&& len as int % allocation.granularity as int == 0
        },
{
    let g = allocation.granularity as int;
    let end = at + part_of(at, r.size, allocation.range.end);
    pow2_is_positive(g);
    floor_to_is_greatest_multiple(at as int, g);
    ceil_to_is_least_multiple(end, g);
    reveal(align_up_spec);
    vstd::arithmetic::div_mod::lemma_sub_mod_noop(ceil_to(end, g), floor_to(at as int, g), g);
    vstd::arithmetic::div_mod::lemma_small_mod(0, g as nat);
}

/// The addresses that an allocation has committed, once the event answers its
/// action.
pub open spec fn committed_after(
    before: Set<int>,
    now: Allocating,
    event: AllocEvent,
) -> Set<int> {
    match (now.action, event) {
        (AllocAction::Commit { len, .. }, AllocEvent::Placed(Some(at))) => before.union(
            region(at, len),
        ),
        (AllocAction::Decommit { addr, len }, AllocEvent::Done(true)) => before.difference(
            region(addr, len),
        ),
        _ => before,
    }
}

/// What each phase says of the addresses that were committed: while the range
/// is walked, all of it up to the place that was reached.
pub open spec fn alloc_inv(now: Allocating, committed: Set<int>) -> bool {
    let a = now.allocation;
    let walked = |at: usize| region(a.range.start, (at - a.range.start) as usize);
    &&& a.wf()
    &&& match a.phase {
        AllocPhase::Query { at } => now.action is Query && walked(at).subset_of(committed),
        AllocPhase::Decommit { at, len } => now.action == (AllocAction::Decommit { addr: at, len })
            && walked(at).subset_of(committed),
        AllocPhase::Reserve { at, .. } => now.action is Reserve && walked(at).subset_of(committed),
        AllocPhase::Commit { at, len } => now.action == a.commits(at, len).action && walked(
            at,
        ).subset_of(committed),
        AllocPhase::Prefetch { at, len } => now.action is Prefetch && walked(
            (at + len) as usize,
        ).subset_of(committed),
        AllocPhase::ReserveAnywhere => now.action is Reserve,
        AllocPhase::CommitAnywhere => now.action matches AllocAction::Commit { len, .. } && len
            == a.size(),
        AllocPhase::PrefetchAnywhere { at } => now.action is Prefetch && region(
            at,
            a.size(),
        ).subset_of(committed),
        AllocPhase::Scan { .. } => now.action is Query,
        AllocPhase::End => now.action matches AllocAction::Finish(Ok(at)) ==> region(
            at,
            a.size(),
        ).subset_of(committed),
    }
}

/// Whether the host answers as one that keeps its word: memory is committed
/// where that was asked for.
pub open spec fn commits_in_place(now: Allocating, event: AllocEvent) -> bool {
    (now.action, event) matches (
        AllocAction::Commit { addr, .. },
        AllocEvent::Placed(Some(at)),
    ) ==> at == addr
}

/// What an allocation returns is committed in full: each answer keeps what the
/// phase says of the committed addresses, up to the end, where all of the
/// memory that is handed out is among them.
pub proof fn allocated_memory_is_committed(
    now: Allocating,
    committed: Set<int>,
    event: AllocEvent,
)
    requires
        alloc_inv(now, committed),
        now.allocation.accepts(event),
        commits_in_place(now, event),
    ensures
        alloc_inv(now.allocation.next(event), committed_after(committed, now, event)),
{
}

/// What an allocation has done: which addresses it committed with the protection
/// that was asked for, which it brought to memory, whether it met memory that was
/// committed before, which addresses still hold what they held then, and whether
/// it changed anything at all.
pub struct AllocWorld {
    pub committed: Set<int>,
    pub fetched: Set<int>,
    pub stale: Set<int>,
    pub met: bool,
    pub changed: bool,
}

impl AllocWorld {
    /// Nothing is done.
    pub open spec fn untouched() -> AllocWorld {
        AllocWorld {
            committed: Set::empty(),
            fetched: Set::empty(),
            stale: Set::empty(),
            met: false,
            changed: false,
        }
    }

    /// The world once an action has come to something.
    pub open spec fn step(
        self,
        permissions: MemoryRegionPermissions,
        action: AllocAction,
        event: AllocEvent,
    ) -> AllocWorld {
        match (action, event) {
            (AllocAction::Commit { len, prot, .. }, AllocEvent::Placed(Some(at))) => AllocWorld {
                committed: if prot == prot_of(permissions) {
                    self.committed.union(region(at, len))
                } else {
                    self.committed.difference(region(at, len))
                },
                changed: true,
                ..self
            },
            (AllocAction::Decommit { addr, len }, _) => AllocWorld {
                committed: self.committed.difference(region(addr, len)),
                stale: if event == AllocEvent::Done(true) {
                    self.stale.difference(region(addr, len))
                } else {
                    self.stale
                },
                changed: true,
                ..self
            },
            (AllocAction::Reserve { .. }, AllocEvent::Placed(Some(_))) => AllocWorld {
                changed: true,
                ..self
            },
            (AllocAction::Prefetch { addr, len }, AllocEvent::Done(true)) => AllocWorld {
                fetched: self.fetched.union(region(addr, len)),
                ..self
            },
            (AllocAction::Query { .. }, AllocEvent::Region(Some(r))) => AllocWorld {
                met: self.met || r.state == MEM_COMMIT,
                stale: if r.state == MEM_COMMIT {
                    self.stale.union(region(r.base, r.size))
                } else {
                    self.stale.difference(region(r.base, r.size))
                },
                ..self
            },
            _ => self,
        }
    }
}

/// Whether each event answers the action before it, from a host that commits
/// memory where that was asked for.
pub open spec fn is_alloc_run(now: Allocating, events: Seq<AllocEvent>) -> bool
    decreases events.len(),
{
    events.len() == 0 || (now.allocation.accepts(events[0]) && commits_in_place(now, events[0])
        && is_alloc_run(now.allocation.next(events[0]), events.drop_first()))
}

/// The allocation, and the world, after the events.
pub open spec fn after_alloc(now: Allocating, w: AllocWorld, events: Seq<AllocEvent>) -> (
    Allocating,
    AllocWorld,
)
    decreases events.len(),
{
    if events.len() == 0 {
        (now, w)
    } else {
        after_alloc(
            now.allocation.next(events[0]),
            w.step(now.allocation.permissions, now.action, events[0]),
            events.drop_first(),
        )
    }
}

/// Whether the addresses from `start` up to `end` are committed, and brought to
/// memory where that is wanted.
spec fn is_ready(a: Allocation, w: AllocWorld, start: int, end: int) -> bool {
    &&& forall|x: int| start <= x < end ==> #[trigger] w.committed.contains(x)
    &&& a.populate ==> forall|x: int| start <= x < end ==> #[trigger] w.fetched.contains(x)
    &&& forall|x: int| start <= x < end ==> !#[trigger] w.stale.contains(x)
}

spec fn alloc_holds(first: Allocation, now: Allocating, w: AllocWorld) -> bool {
    let a = now.allocation;
    let start = a.range.start as int;
    &&& a.wf()
    &&& a.range == first.range && a.permissions == first.permissions && a.populate
        == first.populate && a.behavior == first.behavior
    &&& match a.phase {
        AllocPhase::Scan { at } => now.action == (AllocAction::Query { addr: at }) && !w.changed,
        AllocPhase::Query { at } => now.action == (AllocAction::Query { addr: at }) && is_ready(
            a,
            w,
            start,
            at as int,
        ),
        AllocPhase::Decommit { at, len } => {
            &&& now.action == (AllocAction::Decommit { addr: at, len })
            &&& is_ready(a, w, start, at as int)
            &&& a.behavior is Replace
        },
        AllocPhase::Reserve { at, len } => {
            &&& now.action is Reserve
            &&& is_ready(a, w, start, at as int)
            &&& forall|x: int| at <= x < at + len ==> !#[trigger] w.stale.contains(x)
        },
        AllocPhase::Commit { at, len } => {
            &&& now.action == (AllocAction::Commit {
                addr: at,
                len,
                prot: prot_of(first.permissions),
            })
            &&& is_ready(a, w, start, at as int)
            &&& forall|x: int| at <= x < at + len ==> !#[trigger] w.stale.contains(x)
        },
        AllocPhase::Prefetch { at, len } => {
            &&& now.action == (AllocAction::Prefetch { addr: at, len })
            &&& is_ready(a, w, start, at as int)
            &&& forall|x: int| at <= x < at + len ==> #[trigger] w.committed.contains(x)
            &&& forall|x: int| at <= x < at + len ==> !#[trigger] w.stale.contains(x)
        },
        AllocPhase::ReserveAnywhere => {
            &&& now.action is Reserve
            &&& a.range.start == 0 || (a.behavior is Hint && w.met)
        },
        AllocPhase::CommitAnywhere => {
            &&& now.action matches AllocAction::Commit { len, prot, .. } && len == a.size()
                && prot == prot_of(first.permissions)
            &&& a.range.start == 0 || (a.behavior is Hint && w.met)
        },
        AllocPhase::PrefetchAnywhere { at } => {
            &&& now.action == (AllocAction::Prefetch { addr: at, len: a.size() })
            &&& forall|x: int| at <= x < at + a.size() ==> #[trigger] w.committed.contains(x)
            &&& a.range.start == 0 || (a.behavior is Hint && w.met)
        },
        AllocPhase::End => match now.action {
            AllocAction::Finish(Ok(at)) => {
                &&& forall|x: int| at <= x < at + a.size() ==> #[trigger] w.committed.contains(x)
                &&& a.populate ==> forall|x: int|
                    at <= x < at + a.size() ==> #[trigger] w.fetched.contains(x)
                &&& a.range.start == 0 || a.behavior is Hint || is_ready(
                    a,
                    w,
                    at as int,
                    at + a.size(),
                )
                &&& at == a.range.start || a.range.start == 0 || (a.behavior is Hint && w.met)
            },
            AllocAction::Finish(Err(e)) => {
                &&& e == AllocationError::AddressInUse
                &&& a.behavior is NoReplace
                &&& w.met
                &&& !w.changed
            },
            AllocAction::Fatal(_) => true,
            _ => false,
        },
    }
}

proof fn alloc_step_holds(first: Allocation, now: Allocating, w: AllocWorld, event: AllocEvent)
    requires
        alloc_holds(first, now, w),
        now.allocation.accepts(event),
        commits_in_place(now, event),
    ensures
        alloc_holds(
            first,
            now.allocation.next(event),
            w.step(now.allocation.permissions, now.action, event),
        ),
{
}

proof fn alloc_run_holds(
    first: Allocation,
    now: Allocating,
    w: AllocWorld,
    events: Seq<AllocEvent>,
)
    requires
        alloc_holds(first, now, w),
        is_alloc_run(now, events),
    ensures
        ({
            let (end, world) = after_alloc(now, w, events);
            alloc_holds(first, end, world)
        }),
    decreases events.len(),
{
    if events.len() > 0 {
        alloc_step_holds(first, now, w, events[0]);
        alloc_run_holds(
            first,
            now.allocation.next(events[0]),
            w.step(now.allocation.permissions, now.action, events[0]),
            events.drop_first(),
        );
    }
}

/// The first action of an allocation.
pub open spec fn begins(allocation: Allocation) -> Allocating {
    if allocation.range.start == 0 {
        allocation.reserves_anywhere()
    } else {
        allocation.scans(allocation.range.start)
    }
}

/// Memory that is handed out is as long as was asked for, committed with the
/// permissions that were asked for, and brought to memory if that was. It is
/// where the guest wants it, unless the guest does not care or only suggests a
/// place where something is. Memory that replaces other holds nothing of it.
pub proof fn allocated_memory_is_as_asked_for(
    allocation: Allocation,
    events: Seq<AllocEvent>,
    x: int,
)
    requires
        allocation.wf(),
        allocation.phase is End,
        is_alloc_run(begins(allocation), events),
    ensures
        ({
            let (end, w) = after_alloc(begins(allocation), AllocWorld::untouched(), events);
            end.action matches AllocAction::Finish(Ok(at)) ==> {
                &&& at <= x < at + allocation.range.end - allocation.range.start
                    ==> w.committed.contains(x)
                &&& allocation.populate && at <= x < at + allocation.range.end
                    - allocation.range.start ==> w.fetched.contains(x)
                &&& at != allocation.range.start ==> allocation.range.start == 0 || (
                allocation.behavior is Hint && w.met)
                &&& allocation.range.start != 0 && !(allocation.behavior is Hint) && at <= x < at
                    + allocation.range.end - allocation.range.start ==> !w.stale.contains(x)
            }
        }),
{
    alloc_run_holds(allocation, begins(allocation), AllocWorld::untouched(), events);
}

/// An allocation is refused only where it must not replace anything and there is
/// something; then nothing was changed.
pub proof fn refused_allocations_change_nothing(allocation: Allocation, events: Seq<AllocEvent>)
    requires
        allocation.wf(),
        allocation.phase is End,
        is_alloc_run(begins(allocation), events),
    ensures
        ({
            let (end, w) = after_alloc(begins(allocation), AllocWorld::untouched(), events);
            end.action matches AllocAction::Finish(Err(e)) ==> {
                &&& e == AllocationError::AddressInUse
                &&& allocation.behavior is NoReplace
                &&& w.met
                &&& !w.changed
            }
        }),
{
    alloc_run_holds(allocation, begins(allocation), AllocWorld::untouched(), events);
}

/// The process stops only where the host fails, or where memory was taken while
/// the allocation went on.
pub proof fn allocations_stop_for_a_reason(
    allocation: Allocation,
    event: AllocEvent,
    failure: AllocFailure,
)
    requires
        allocation.wf(),
        allocation.accepts(event),
        allocation.next(event).action == AllocAction::Fatal(failure),
    ensures
        match failure {
            AllocFailure::Query => event == AllocEvent::Region(None),
            AllocFailure::Raced => event matches AllocEvent::Region(Some(r)) && r.state
                == MEM_COMMIT && !(allocation.behavior is Replace) && allocation.phase is Query,
            AllocFailure::UnexpectedState => event matches AllocEvent::Region(Some(r)) && r.state
                != MEM_COMMIT && r.state != MEM_RESERVE && r.state != MEM_FREE
                && allocation.phase is Query,
            AllocFailure::Decommit => event == AllocEvent::Done(false)
                && allocation.phase is Decommit,
            AllocFailure::Commit => event == AllocEvent::Placed(None),
            AllocFailure::Prefetch => event == AllocEvent::Done(false) && (
            allocation.phase is Prefetch || allocation.phase is PrefetchAnywhere),
        },
{
}

/// Memory that may go anywhere is reserved in whole units, and for all that is
/// committed of it after that.
pub proof fn reservations_cover_allocations(allocation: Allocation)
    requires
        allocation.wf(),
        allocation.size() + allocation.granularity <= usize::MAX,
    ensures
        allocation.reserves_anywhere().action matches AllocAction::Reserve { addr, len } && {
            &&& addr == 0
            &&& allocation.size() <= len < allocation.size() + allocation.granularity
            &&& len as int % allocation.granularity as int == 0
        },
{
    pow2_is_positive(allocation.granularity as int);
    reveal(align_up_spec);
    ceil_to_is_least_multiple(allocation.size() as int, allocation.granularity as int);
}

/// A range can be asked for where guests can have memory, or anywhere.
pub proof fn ranges_are_within_reach(range: AddrRange)
    ensures
        can_allocate(range) <==> range.start == 0 || (range.start >= 0x1_0000 && range.end
            <= 0x7FFF_FFFE_F000),
{
}

} // verus!
