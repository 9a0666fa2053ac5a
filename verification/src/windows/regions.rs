//! Memory of a Windows process, which comes in regions of one state each.

use vstd::prelude::*;

use crate::arith::{align_down, align_up, align_up_spec, floor_to, is_pow2};
use crate::flags::MemoryRegionPermissions;
use crate::mm::ranges::{ascending, AddrRange};
use crate::shim::process::TaskParams;

verus! {

/// The lowest address that a guest can have.
pub const TASK_ADDR_MIN: u64 = 0x1_0000;

/// The address past the highest that a guest can have.
pub const TASK_ADDR_MAX: u64 = 0x7FFF_FFFE_F000;

pub const PAGE_NOACCESS: u32 = 0x01;

pub const PAGE_READONLY: u32 = 0x02;

pub const PAGE_READWRITE: u32 = 0x04;

pub const PAGE_EXECUTE_READ: u32 = 0x20;

pub const PAGE_EXECUTE_READWRITE: u32 = 0x40;

pub const MEM_COMMIT: u32 = 0x1000;

pub const MEM_RESERVE: u32 = 0x2000;

pub const MEM_FREE: u32 = 0x1_0000;

/// The host's protection for the permissions. What can be written or executed
/// can also be read there.
pub open spec fn prot_of(p: MemoryRegionPermissions) -> u32 {
    if p.write && p.execute {
        PAGE_EXECUTE_READWRITE
    } else if p.execute {
        PAGE_EXECUTE_READ
    } else if p.write {
        PAGE_READWRITE
    } else if p.read {
        PAGE_READONLY
    } else {
        PAGE_NOACCESS
    }
}

/// The host's protection for the permissions.
pub fn prot_flags(flags: MemoryRegionPermissions) -> (prot: u32)
    ensures
        prot == prot_of(flags),
{
    match (flags.read, flags.write, flags.execute) {
        (false, false, false) => PAGE_NOACCESS,
        (true, false, false) => PAGE_READONLY,
        (_, true, false) => PAGE_READWRITE,
        (_, false, true) => PAGE_EXECUTE_READ,
        (_, true, true) => PAGE_EXECUTE_READWRITE,
    }
}

/// Memory of one state, as the host tells of it.
#[derive(Clone, Copy, Debug, PartialEq, Eq, Structural)]
pub struct Region {
    pub base: usize,
    pub size: usize,
    pub state: u32,
}

/// The Windows platform.
#[derive(Debug)]
pub struct WindowsUserland {
    /// What was in use when the platform was created.
    pub reserved_pages: Vec<AddrRange>,
    /// The unit in which the host reserves memory.
    pub granularity: usize,
}

impl WindowsUserland {
    pub open spec fn wf(self) -> bool {
        &&& is_pow2(self.granularity as int)
        &&& self.granularity <= u32::MAX
        &&& ascending(self.reserved_pages@)
    }

    /// The platform of a process with this memory in use, on a host that
    /// reserves memory in this unit.
    pub fn new(reserved_pages: Vec<AddrRange>, granularity: u32) -> (platform: WindowsUserland)
        requires
            is_pow2(granularity as int),
            ascending(reserved_pages@),
        ensures
            platform.wf(),
            platform.reserved_pages@ == reserved_pages@,
            platform.granularity == granularity,
    {
        WindowsUserland { reserved_pages, granularity: granularity as usize }
    }

    /// The memory that is not available for allocation, in ascending order.
    pub fn reserved_pages(&self) -> (reserved: &Vec<AddrRange>)
        requires
            self.wf(),
        ensures
            reserved@ == self.reserved_pages@,
            ascending(reserved@),
    {
        &self.reserved_pages
    }

    /// Rounds up to the unit in which the host reserves memory.
    pub fn round_up_to_granu(&self, x: usize) -> (rounded: usize)
        requires
            self.wf(),
        ensures
            rounded == align_up_spec(x, self.granularity),
    {
        align_up(x, self.granularity)
    }

    /// Rounds down to the unit in which the host reserves memory.
    pub fn round_down_to_granu(&self, x: usize) -> (rounded: usize)
        requires
            self.wf(),
        ensures
            rounded == floor_to(x as int, self.granularity as int),
    {
        align_down(x, self.granularity)
    }

    /// Who the first process runs for.
    pub fn init_task(&self) -> (params: TaskParams)
        ensures
            params == (TaskParams {
                pid: 1000,
                ppid: 0,
                uid: 1000,
                euid: 1000,
                gid: 1000,
                egid: 1000,
            }),
    {
        TaskParams { pid: 1000, ppid: 0, uid: 1000, euid: 1000, gid: 1000, egid: 1000 }
    }
}

/// The memory of the process being read, region by region.
#[derive(Debug)]
pub struct MapReader {
    /// What is in use, as far as it was read.
    pub reserved: Vec<AddrRange>,
    /// The address to be asked for next, unless all is read.
    pub next: Option<usize>,
}

/// Whether the memory of the region is in use.
pub open spec fn in_use(region: Region) -> bool {
    region.state == MEM_RESERVE || region.state == MEM_COMMIT
}

impl MapReader {
    /// What was read ascends and lies below the next address.
    pub open spec fn wf(self) -> bool {
        &&& ascending(self.reserved@)
        &&& self.next matches Some(next) ==> forall|i: int|
            0 <= i < self.reserved@.len() ==> (#[trigger] self.reserved@[i]).end <= next
    }

    /// Whether the host can answer so: a region is not empty, and does not
    /// start below the address that was asked for.
    pub open spec fn accepts(self, region: Option<Region>) -> bool {
        &&& self.next is Some
        &&& region matches Some(r) ==> r.size > 0 && r.base >= self.next->0 && r.base + r.size
            <= usize::MAX
    }

    /// Whether the host can answer so.
    pub fn is_answered_by(&self, region: Option<Region>) -> (answered: bool)
        ensures
            answered == self.accepts(region),
    {
        match (self.next, region) {
            (Some(next), Some(r)) => {
                r.size > 0 && r.base >= next && r.base.checked_add(r.size).is_some()
            },
            (Some(_), None) => true,
            _ => false,
        }
    }

    /// Nothing is read; the first address is asked for.
    pub fn read_memory_maps() -> (reader: MapReader)
        ensures
            reader.wf(),
            reader.reserved@.len() == 0,
            reader.next == Some(0usize),
    {
        MapReader { reserved: Vec::new(), next: Some(0) }
    }

    /// Takes the region at the address that was asked for, or that there is
    /// none.
    pub fn step(&mut self, region: Option<Region>)
        requires
            old(self).wf(),
            old(self).accepts(region),
        ensures
            final(self).wf(),
            match region {
                None => final(self).reserved@ == old(self).reserved@ && final(self).next is None,
                Some(r) => {
                    let span = AddrRange { start: r.base, end: (r.base + r.size) as usize };
                    &&& final(self).next == Some(span.end)
                    &&& final(self).reserved@ == if in_use(r) {
                        old(self).reserved@.push(span)
                    } else {
                        old(self).reserved@
                    }
                },
            },
    {
        let Some(r) = region else {
            self.next = None;
            return;
        };
        let end: usize = r.base + r.size;
        if r.state == MEM_RESERVE || r.state == MEM_COMMIT {
            let ghost before = self.reserved@;
            self.reserved.push(AddrRange { start: r.base, end });
            proof {
                let after = self.reserved@;
                assert forall|i: int, j: int| 0 <= i < j < after.len() implies (
                #[trigger] after[i]).end <= (#[trigger] after[j]).start by {
                    if j == before.len() {
                        assert(before[i].end <= self.next->0);
                    } else {
                        assert(before[i].end <= before[j].start);
                    }
                }
            }
        }
        self.next = Some(end);
    }
}

/// What is done with each region of a range.
#[derive(Clone, Copy, Debug, PartialEq, Eq, Structural)]
pub enum RegionOp {
    /// Its memory is given back; it has to be in use.
    Decommit,
    /// Its protection is changed; it has to be committed.
    Protect(u32),
}

/// What the host has to do next.
#[derive(Clone, Copy, Debug, PartialEq, Eq, Structural)]
pub enum WalkAction {
    /// Tell of the region at the address.
    Query { addr: usize },
    Decommit { addr: usize, len: usize },
    Protect { addr: usize, len: usize, prot: u32 },
    /// All of the range is done.
    Finish,
    Fatal(WalkFailure),
}

/// Why the process has to stop.
#[derive(Clone, Copy, Debug, PartialEq, Eq, Structural)]
pub enum WalkFailure {
    /// The host cannot tell of a region.
    Query,
    /// A region is not in the state that the operation is for.
    State,
    /// The host refused the operation.
    Operation,
}

/// What the host answers.
#[derive(Clone, Copy, Debug, PartialEq, Eq, Structural)]
pub enum WalkEvent {
    Region(Option<Region>),
    /// Whether the operation succeeded.
    Done(bool),
}

/// What the walk is waiting for.
#[derive(Clone, Copy, Debug, PartialEq, Eq, Structural)]
pub enum WalkPhase {
    Query,
    /// The operation on so many bytes.
    Operate { len: usize },
    End,
}

/// A range being gone through, region by region.
#[derive(Clone, Copy, Debug, PartialEq, Eq, Structural)]
pub struct RegionWalk {
    pub op: RegionOp,
    /// What is left of the range.
    pub at: usize,
    pub end: usize,
    pub phase: WalkPhase,
}

/// A walk and the action that it asks for.
#[derive(Clone, Copy, Debug, PartialEq, Eq, Structural)]
pub struct Walking {
    pub walk: RegionWalk,
    pub action: WalkAction,
}

/// How much of a region, from its start on, lies before `end`.
pub open spec fn part_of(at: usize, size: usize, end: usize) -> usize {
    if size < end - at {
        size
    } else {
        (end - at) as usize
    }
}

/// How much of a region, from its start on, lies before `end`.
pub fn part_before(at: usize, size: usize, end: usize) -> (len: usize)
    requires
        at <= end,
    ensures
        len == part_of(at, size, end),
{
    if size < end - at {
        size
    } else {
        end - at
    }
}

impl RegionWalk {
    pub open spec fn wf(self) -> bool {
        match self.phase {
            WalkPhase::Query => self.at < self.end,
            WalkPhase::Operate { len } => 0 < len <= self.end - self.at,
            WalkPhase::End => true,
        }
    }

    /// Whether the event answers what the walk waits for. A region that the
    /// host tells of starts at the address that was asked for, and is not
    /// empty.
    pub open spec fn accepts(self, event: WalkEvent) -> bool {
        match self.phase {
            WalkPhase::Query => event matches WalkEvent::Region(r) && (r matches Some(x) ==> x.base
                == self.at && x.size > 0),
            WalkPhase::Operate { .. } => event is Done,
            WalkPhase::End => false,
        }
    }

    /// Whether the event answers what the walk waits for.
    pub fn is_answered_by(&self, event: WalkEvent) -> (answered: bool)
        ensures
            answered == self.accepts(event),
    {
        match (self.phase, event) {
            (WalkPhase::Query, WalkEvent::Region(Some(x))) => x.base == self.at && x.size > 0,
            (WalkPhase::Query, WalkEvent::Region(None)) => true,
            (WalkPhase::Operate { .. }, WalkEvent::Done(_)) => true,
            _ => false,
        }
    }

    pub open spec fn goes(self, phase: WalkPhase, action: WalkAction) -> Walking {
        Walking { walk: RegionWalk { phase, ..self }, action }
    }

    /// Asks for the next region, unless all is done.
    pub open spec fn goes_on(self) -> Walking {
        if self.at < self.end {
            self.goes(WalkPhase::Query, WalkAction::Query { addr: self.at })
        } else {
            self.goes(WalkPhase::End, WalkAction::Finish)
        }
    }

    /// Whether the state is one that the operation is for.
    pub open spec fn suits(self, state: u32) -> bool {
        match self.op {
            RegionOp::Decommit => state != MEM_FREE,
            RegionOp::Protect(_) => state == MEM_COMMIT,
        }
    }

    /// What follows an event that answers what the walk waits for.
    pub open spec fn next(self, event: WalkEvent) -> Walking {
        match event {
            WalkEvent::Region(None) => self.goes(
                WalkPhase::End,
                WalkAction::Fatal(WalkFailure::Query),
            ),
            WalkEvent::Region(Some(r)) => {
                let len = part_of(self.at, r.size, self.end);
                if !self.suits(r.state) {
                    self.goes(WalkPhase::End, WalkAction::Fatal(WalkFailure::State))
                } else {
                    self.goes(
                        WalkPhase::Operate { len },
                        match self.op {
                            RegionOp::Decommit => WalkAction::Decommit { addr: self.at, len },
                            RegionOp::Protect(prot) => WalkAction::Protect {
                                addr: self.at,
                                len,
                                prot,
                            },
                        },
                    )
                }
            },
            WalkEvent::Done(ok) => if ok {
                RegionWalk { at: (self.at + self.phase->len) as usize, ..self }.goes_on()
            } else {
                self.goes(WalkPhase::End, WalkAction::Fatal(WalkFailure::Operation))
            },
        }
    }

    fn go(self, phase: WalkPhase, action: WalkAction) -> (next: Walking)
        ensures
            next == self.goes(phase, action),
    {
        Walking { walk: RegionWalk { phase, ..self }, action }
    }

    fn go_on(self) -> (next: Walking)
        ensures
            next == self.goes_on(),
            next.walk.wf(),
    {
        if self.at < self.end {
            self.go(WalkPhase::Query, WalkAction::Query { addr: self.at })
        } else {
            self.go(WalkPhase::End, WalkAction::Finish)
        }
    }

    /// The first action of an operation on the range.
    pub fn process_memory_range_by_regions(range: AddrRange, op: RegionOp) -> (first: Walking)
        ensures
            first == (RegionWalk {
                op,
                at: range.start,
                end: range.end,
                phase: WalkPhase::End,
            }).goes_on(),
            first.walk.wf(),
    {
        let walk = RegionWalk { op, at: range.start, end: range.end, phase: WalkPhase::End };
        walk.go_on()
    }

    /// The first action of giving the memory of the range back.
    pub fn deallocate_pages(range: AddrRange) -> (first: Walking)
        ensures
            first == (RegionWalk {
                op: RegionOp::Decommit,
                at: range.start,
                end: range.end,
                phase: WalkPhase::End,
            }).goes_on(),
            first.walk.wf(),
    {
        RegionWalk::process_memory_range_by_regions(range, RegionOp::Decommit)
    }

    /// The first action of changing the permissions of the range.
    pub fn update_permissions(range: AddrRange, permissions: MemoryRegionPermissions) -> (first:
        Walking)
        ensures
            first == (RegionWalk {
                op: RegionOp::Protect(prot_of(permissions)),
                at: range.start,
                end: range.end,
                phase: WalkPhase::End,
            }).goes_on(),
            first.walk.wf(),
    {
        RegionWalk::process_memory_range_by_regions(
            range,
            RegionOp::Protect(prot_flags(permissions)),
        )
    }

    /// Takes the reply of the host and returns what it has to do next.
    pub fn step(&mut self, event: WalkEvent) -> (action: WalkAction)
        requires
            old(self).wf(),
            old(self).accepts(event),
        ensures
            (Walking { walk: *final(self), action }) == old(self).next(event),
            final(self).wf(),
    {
        let now = *self;
        let next = match event {
            WalkEvent::Region(None) => now.go(
                WalkPhase::End,
                WalkAction::Fatal(WalkFailure::Query),
            ),
            WalkEvent::Region(Some(r)) => {
                let len: usize = part_before(now.at, r.size, now.end);
                match now.op {
                    RegionOp::Decommit => {
                        if r.state == MEM_FREE {
                            now.go(WalkPhase::End, WalkAction::Fatal(WalkFailure::State))
                        } else {
                            now.go(
                                WalkPhase::Operate { len },
                                WalkAction::Decommit { addr: now.at, len },
                            )
                        }
                    },
                    RegionOp::Protect(prot) => {
                        if r.state != MEM_COMMIT {
                            now.go(WalkPhase::End, WalkAction::Fatal(WalkFailure::State))
                        } else {
                            now.go(
                                WalkPhase::Operate { len },
                                WalkAction::Protect { addr: now.at, len, prot },
                            )
                        }
                    },
                }
            },
            WalkEvent::Done(ok) => match now.phase {
                WalkPhase::Operate { len } => if ok {
                    let on = RegionWalk { at: now.at + len, ..now };
                    on.go_on()
                } else {
                    now.go(WalkPhase::End, WalkAction::Fatal(WalkFailure::Operation))
                },
                _ => now.go(WalkPhase::End, WalkAction::Finish),
            },
        };
        *self = next.walk;
        next.action
    }
}

/// A walk leaves nothing out and goes past nothing: each operation starts where
/// the one before ended and stays within the range, so that all of the range is
/// done when the walk finishes.
pub proof fn walks_are_gapless(walk: RegionWalk, event: WalkEvent)
    requires
        walk.wf(),
        walk.accepts(event),
    ensures
        ({
            let next = walk.next(event);
            &&& next.walk.end == walk.end
            &&& next.walk.at >= walk.at
            &&& next.action matches WalkAction::Decommit { addr, len } ==> addr == walk.at && addr
                + len <= walk.end && next.walk.at == walk.at
            &&& next.action matches WalkAction::Protect { addr, len, .. } ==> addr == walk.at
                && addr + len <= walk.end && next.walk.at == walk.at
            &&& next.action is Finish ==> next.walk.at >= walk.end
            &&& event is Done && next.action is Query ==> next.walk.at == walk.at
                + walk.phase->len
        }),
{
}

/// The host's protection lets a guest write and execute what its permissions let
/// it write and execute, and read what they let it use at all.
pub proof fn protections_are_the_permissions(p: MemoryRegionPermissions)
    ensures
        prot_of(p) == 0x04 || prot_of(p) == 0x40 <==> p.write,
        prot_of(p) == 0x20 || prot_of(p) == 0x40 <==> p.execute,
        prot_of(p) == 0x01 <==> !p.read && !p.write && !p.execute,
        prot_of(p) == 0x02 <==> p.read && !p.write && !p.execute,
        prot_of(p) == 0x01 || prot_of(p) == 0x02 || prot_of(p) == 0x04 || prot_of(p) == 0x20
            || prot_of(p) == 0x40,
{
}

/// What a walk has done: which addresses were given back, and which were protected
/// as asked for.
pub struct WalkWorld {
    pub freed: Set<int>,
    pub guarded: Set<int>,
}

impl WalkWorld {
    /// Nothing is done.
    pub open spec fn untouched() -> WalkWorld {
        WalkWorld { freed: Set::empty(), guarded: Set::empty() }
    }

    /// The world once an action has come to something.
    pub open spec fn step(self, op: RegionOp, action: WalkAction, event: WalkEvent) -> WalkWorld {
        match (action, event) {
            (WalkAction::Decommit { addr, len }, WalkEvent::Done(true)) => WalkWorld {
                freed: self.freed.union(Set::new(|a: int| addr <= a < addr + len)),
                ..self
            },
            (WalkAction::Protect { addr, len, prot }, WalkEvent::Done(true)) => WalkWorld {
                guarded: if op == RegionOp::Protect(prot) {
                    self.guarded.union(Set::new(|a: int| addr <= a < addr + len))
                } else {
                    self.guarded
                },
                ..self
            },
            _ => self,
        }
    }
}

/// Whether each event answers the action before it.
pub open spec fn is_walk_run(now: Walking, events: Seq<WalkEvent>) -> bool
    decreases events.len(),
{
    events.len() == 0 || (now.walk.accepts(events[0]) && is_walk_run(
        now.walk.next(events[0]),
        events.drop_first(),
    ))
}

/// The walk, and the world, after the events.
pub open spec fn after_walk(now: Walking, w: WalkWorld, events: Seq<WalkEvent>) -> (
    Walking,
    WalkWorld,
)
    decreases events.len(),
{
    if events.len() == 0 {
        (now, w)
    } else {
        after_walk(
            now.walk.next(events[0]),
            w.step(now.walk.op, now.action, events[0]),
            events.drop_first(),
        )
    }
}

/// The addresses on which the operation was done.
spec fn done_by(op: RegionOp, w: WalkWorld) -> Set<int> {
    match op {
        RegionOp::Decommit => w.freed,
        RegionOp::Protect(_) => w.guarded,
    }
}

spec fn walk_inv(range: AddrRange, op: RegionOp, now: Walking, w: WalkWorld) -> bool {
    let k = now.walk;
    &&& k.wf()
    &&& k.op == op && k.end == range.end
    &&& op is Protect ==> w.freed =~= Set::empty()
    &&& op is Decommit ==> w.guarded =~= Set::empty()
    &&& range.start < range.end ==> {
        &&& range.start <= k.at <= k.end
        &&& forall|a: int| #[trigger]
            done_by(op, w).contains(a) <==> range.start <= a < k.at
    }
    &&& range.start >= range.end ==> done_by(op, w) =~= Set::empty() && k.phase is End
    &&& match k.phase {
        WalkPhase::Query => now.action == (WalkAction::Query { addr: k.at }),
        WalkPhase::Operate { len } => match op {
            RegionOp::Decommit => now.action == (WalkAction::Decommit { addr: k.at, len }),
            RegionOp::Protect(prot) => now.action == (WalkAction::Protect {
                addr: k.at,
                len,
                prot,
            }),
        },
        WalkPhase::End => match now.action {
            WalkAction::Finish => k.at >= range.end,
            WalkAction::Fatal(_) => true,
            _ => false,
        },
    }
}

proof fn walk_run_keeps(
    range: AddrRange,
    op: RegionOp,
    now: Walking,
    w: WalkWorld,
    events: Seq<WalkEvent>,
)
    requires
        walk_inv(range, op, now, w),
        is_walk_run(now, events),
    ensures
        ({
            let (end, world) = after_walk(now, w, events);
            walk_inv(range, op, end, world)
        }),
    decreases events.len(),
{
    if events.len() > 0 {
        let next = now.walk.next(events[0]);
        let world = w.step(now.walk.op, now.action, events[0]);
        assert forall|a: int| range.start < range.end implies #[trigger] done_by(
            op,
            world,
        ).contains(a) == (range.start <= a < next.walk.at) by {
            assert(done_by(op, w).contains(a) <==> range.start <= a < now.walk.at);
        }
        walk_run_keeps(range, op, next, world, events.drop_first());
    }
}

/// A walk that finishes has given back, or protected as asked for, every address
/// of the range. None outside of it is touched, however the walk ends, and
/// nothing else is done.
pub proof fn walks_reach_all_of_the_range(
    range: AddrRange,
    op: RegionOp,
    events: Seq<WalkEvent>,
    a: int,
)
    requires
        ({
            let walk = RegionWalk { op, at: range.start, end: range.end, phase: WalkPhase::End };
            is_walk_run(walk.goes_on(), events)
        }),
    ensures
        ({
            let walk = RegionWalk { op, at: range.start, end: range.end, phase: WalkPhase::End };
            let (end, w) = after_walk(walk.goes_on(), WalkWorld::untouched(), events);
            let inside = range.start <= a < range.end;
            &&& w.freed.contains(a) ==> inside && op is Decommit
            &&& w.guarded.contains(a) ==> inside && op is Protect
            &&& end.action is Finish && inside ==> match op {
                RegionOp::Decommit => w.freed.contains(a),
                RegionOp::Protect(_) => w.guarded.contains(a),
            }
        }),
{
    let walk = RegionWalk { op, at: range.start, end: range.end, phase: WalkPhase::End };
    walk_run_keeps(range, op, walk.goes_on(), WalkWorld::untouched(), events);
    let (end, w) = after_walk(walk.goes_on(), WalkWorld::untouched(), events);
    assert(done_by(op, w).contains(a) ==> range.start <= a < range.end);
    if end.action is Finish && range.start <= a < range.end {
        assert(done_by(op, w).contains(a));
    }
}

/// Memory is given back only of regions that are in use, and protected only where
/// it is committed; any other region stops the process.
pub proof fn regions_are_in_the_right_state(walk: RegionWalk, r: Region)
    requires
        walk.wf(),
        walk.accepts(WalkEvent::Region(Some(r))),
    ensures
        ({
            let next = walk.next(WalkEvent::Region(Some(r)));
            &&& next.action is Decommit <==> walk.op is Decommit && r.state != 0x1_0000
            &&& next.action is Protect <==> walk.op is Protect && r.state == 0x1000
            &&& !(next.action is Decommit) && !(next.action is Protect) ==> next.action
                == WalkAction::Fatal(WalkFailure::State)
        }),
{
}

} // verus!
