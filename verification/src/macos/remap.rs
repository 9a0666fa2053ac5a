//! Moving of pages on macOS.

use vstd::prelude::*;

use crate::flags::MemoryRegionPermissions;
use crate::macos::pages::{aligned, is_page_aligned, pages_of, PageSet};
use crate::mm::ranges::AddrRange;
use crate::page_mgmt::{
    AllocationError, FixedAddressBehavior, PermissionUpdateError, RemapError,
};

verus! {

/// What has to be done next.
#[allow(inconsistent_fields)]
#[derive(Clone, Copy, Debug, PartialEq, Eq)]
pub enum RemapAction {
    /// Allocate pages.
    Allocate {
        range: AddrRange,
        permissions: MemoryRegionPermissions,
        behavior: FixedAddressBehavior,
    },
    /// Change the permissions of pages.
    Update { range: AddrRange, permissions: MemoryRegionPermissions },
    /// Copy bytes.
    CopyBytes { from: usize, to: usize, len: usize },
    /// De-allocate pages.
    Deallocate { range: AddrRange },
    Finish(Result<usize, RemapError>),
}

/// What came of it.
#[derive(Clone, Copy, Debug, PartialEq, Eq)]
pub enum RemapEvent {
    Allocated(Result<usize, AllocationError>),
    Updated(Option<PermissionUpdateError>),
    Copied,
    /// Whether the pages were de-allocated.
    Deallocated(bool),
}

/// What the move is waiting for.
#[derive(Clone, Copy, Debug, PartialEq, Eq, Structural)]
pub enum RemapPhase {
    /// New pages at the wanted address, and anywhere if these are taken.
    Preferred,
    Fallback,
    /// The old pages are made readable.
    Readable { to: usize },
    Bytes { to: usize },
    /// The new pages are given their permissions.
    Restore { to: usize },
    /// The old pages are given their permissions back, before the move fails.
    Undo { to: usize, error: RemapError },
    /// The new pages are given back, before the move fails.
    GiveBack { error: RemapError },
    /// The old pages are given back.
    Free { to: usize },
    End,
}

/// Pages being moved.
#[derive(Clone, Copy, Debug, PartialEq, Eq, Structural)]
pub struct Remap {
    pub old_range: AddrRange,
    pub new_range: AddrRange,
    pub permissions: MemoryRegionPermissions,
    pub phase: RemapPhase,
}

/// A move and the action that it asks for.
#[derive(Clone, Copy, Debug, PartialEq, Eq)]
pub struct Remapping {
    pub remap: Remap,
    pub action: RemapAction,
}

/// Why a move is refused before anything is done, if it is.
pub open spec fn remap_refusal(
    old_range: AddrRange,
    new_range: AddrRange,
    pages: Set<usize>,
) -> Option<RemapError> {
    if !aligned(old_range) || !aligned(new_range) {
        Some(RemapError::Unaligned)
    } else if old_range.start < new_range.end && new_range.start < old_range.end {
        Some(RemapError::Overlapping)
    } else if new_range.end - new_range.start <= old_range.end - old_range.start {
        Some(RemapError::OutOfMemory)
    } else if !pages_of(old_range).subset_of(pages) {
        Some(RemapError::AlreadyUnallocated)
    } else {
        None
    }
}

/// Whether the address was taken.
pub open spec fn is_taken(e: AllocationError) -> bool {
    e is AddressInUse || e is AddressPartiallyInUse || e is AddressInUseByPlatform
}

/// What a failure to allocate means for the move.
pub open spec fn allocation_meaning(e: AllocationError) -> RemapError {
    match e {
        AllocationError::Unaligned => RemapError::Unaligned,
        AllocationError::PermissionDenied => RemapError::PermissionDenied,
        AllocationError::AddressInUse
        | AllocationError::AddressPartiallyInUse
        | AllocationError::AddressInUseByPlatform => RemapError::AlreadyAllocated,
        _ => RemapError::OutOfMemory,
    }
}

fn mean_allocation(e: AllocationError) -> (r: RemapError)
    ensures
        r == allocation_meaning(e),
{
    match e {
        AllocationError::Unaligned => RemapError::Unaligned,
        AllocationError::PermissionDenied => RemapError::PermissionDenied,
        AllocationError::AddressInUse
        | AllocationError::AddressPartiallyInUse
        | AllocationError::AddressInUseByPlatform => RemapError::AlreadyAllocated,
        _ => RemapError::OutOfMemory,
    }
}

/// What a failure to make the old pages readable means for the move.
pub open spec fn readable_meaning(e: PermissionUpdateError) -> RemapError {
    match e {
        PermissionUpdateError::PermissionDenied => RemapError::PermissionDenied,
        PermissionUpdateError::Unallocated => RemapError::AlreadyUnallocated,
        _ => RemapError::OutOfMemory,
    }
}

/// What a failure to give the new pages their permissions means for the move.
pub open spec fn restore_meaning(e: PermissionUpdateError) -> RemapError {
    match e {
        PermissionUpdateError::PermissionDenied => RemapError::PermissionDenied,
        _ => RemapError::OutOfMemory,
    }
}

impl Remap {
    pub open spec fn wf(self) -> bool {
        &&& self.old_range.start < self.old_range.end
        &&& self.new_range.start < self.new_range.end
        &&& match self.phase {
            RemapPhase::Readable { to }
            | RemapPhase::Bytes { to }
            | RemapPhase::Restore { to }
            | RemapPhase::Undo { to, .. } => to + self.new_len() <= usize::MAX,
            _ => true,
        }
    }

    pub open spec fn new_len(self) -> int {
        self.new_range.end - self.new_range.start
    }

    /// The permissions while the pages are copied: never to execute.
    pub open spec fn temporary(self) -> MemoryRegionPermissions {
        MemoryRegionPermissions { read: true, write: true, execute: false, ..self.permissions }
    }

    /// The new pages at `to`.
    pub open spec fn span(self, to: usize) -> AddrRange {
        AddrRange { start: to, end: (to + self.new_len()) as usize }
    }

    /// Whether the event answers what the move waits for.
    pub open spec fn accepts(self, event: RemapEvent) -> bool {
        match self.phase {
            RemapPhase::Preferred | RemapPhase::Fallback => event matches RemapEvent::Allocated(r)
                && (r matches Ok(to) ==> to + self.new_len() <= usize::MAX),
            RemapPhase::Readable { .. }
            | RemapPhase::Restore { .. }
            | RemapPhase::Undo { .. } => event is Updated,
            RemapPhase::Bytes { .. } => event is Copied,
            RemapPhase::GiveBack { .. } | RemapPhase::Free { .. } => event is Deallocated,
            RemapPhase::End => false,
        }
    }

    /// Whether the event answers what the move waits for.
    pub fn is_answered_by(&self, event: RemapEvent) -> (answered: bool)
        requires
            self.wf(),
        ensures
            answered == self.accepts(event),
    {
        match self.phase {
            RemapPhase::Preferred | RemapPhase::Fallback => match event {
                RemapEvent::Allocated(Ok(to)) => {
                    to.checked_add(self.new_range.end - self.new_range.start).is_some()
                },
                RemapEvent::Allocated(Err(_)) => true,
                _ => false,
            },
            RemapPhase::Readable { .. }
            | RemapPhase::Restore { .. }
            | RemapPhase::Undo { .. } => matches!(event, RemapEvent::Updated(_)),
            RemapPhase::Bytes { .. } => matches!(event, RemapEvent::Copied),
            RemapPhase::GiveBack { .. } | RemapPhase::Free { .. } => {
                matches!(event, RemapEvent::Deallocated(_))
            },
            RemapPhase::End => false,
        }
    }

    pub open spec fn goes(self, phase: RemapPhase, action: RemapAction) -> Remapping {
        Remapping { remap: Remap { phase, ..self }, action }
    }

    pub open spec fn finishes(self, result: Result<usize, RemapError>) -> Remapping {
        self.goes(RemapPhase::End, RemapAction::Finish(result))
    }

    pub open spec fn allocates(
        self,
        behavior: FixedAddressBehavior,
        phase: RemapPhase,
    ) -> Remapping {
        self.goes(
            phase,
            RemapAction::Allocate {
                range: self.new_range,
                permissions: self.temporary(),
                behavior,
            },
        )
    }

    pub open spec fn copies(self, to: usize) -> Remapping {
        self.goes(
            RemapPhase::Bytes { to },
            RemapAction::CopyBytes {
                from: self.old_range.start,
                to,
                len: (self.old_range.end - self.old_range.start) as usize,
            },
        )
    }

    pub open spec fn gives_back(self, to: usize, error: RemapError) -> Remapping {
        self.goes(
            RemapPhase::GiveBack { error },
            RemapAction::Deallocate { range: self.span(to) },
        )
    }

    pub open spec fn frees(self, to: usize) -> Remapping {
        self.goes(
            RemapPhase::Free { to },
            RemapAction::Deallocate { range: self.old_range },
        )
    }

    /// What follows once the new pages are at `to`.
    pub open spec fn after_allocation(self, to: usize) -> Remapping {
        if self.permissions.read {
            self.copies(to)
        } else {
            self.goes(
                RemapPhase::Readable { to },
                RemapAction::Update {
                    range: self.old_range,
                    permissions: self.permissions.with_read(),
                },
            )
        }
    }

    /// What follows an event that answers what the move waits for.
    pub open spec fn next(self, event: RemapEvent) -> Remapping {
        match (self.phase, event) {
            (RemapPhase::Preferred, RemapEvent::Allocated(r)) => match r {
                Ok(to) => self.after_allocation(to),
                Err(e) => if is_taken(e) {
                    self.allocates(FixedAddressBehavior::Hint, RemapPhase::Fallback)
                } else {
                    self.finishes(Err(allocation_meaning(e)))
                },
            },
            (RemapPhase::Fallback, RemapEvent::Allocated(r)) => match r {
                Ok(to) => self.after_allocation(to),
                Err(e) => self.finishes(Err(allocation_meaning(e))),
            },
            (RemapPhase::Readable { to }, RemapEvent::Updated(r)) => match r {
                Some(e) => self.gives_back(to, readable_meaning(e)),
                None => self.copies(to),
            },
            (RemapPhase::Bytes { to }, _) => if self.temporary() != self.permissions {
                self.goes(
                    RemapPhase::Restore { to },
                    RemapAction::Update { range: self.span(to), permissions: self.permissions },
                )
            } else {
                self.frees(to)
            },
            (RemapPhase::Restore { to }, RemapEvent::Updated(r)) => match r {
                Some(e) => if self.permissions.read {
                    self.gives_back(to, restore_meaning(e))
                } else {
                    self.goes(
                        RemapPhase::Undo { to, error: restore_meaning(e) },
                        RemapAction::Update {
                            range: self.old_range,
                            permissions: self.permissions,
                        },
                    )
                },
                None => self.frees(to),
            },
            (RemapPhase::Undo { to, error }, _) => self.gives_back(to, error),
            (RemapPhase::GiveBack { error }, _) => self.finishes(Err(error)),
            (RemapPhase::Free { to }, RemapEvent::Deallocated(done)) => if done {
                self.finishes(Ok(to))
            } else {
                self.finishes(Err(RemapError::AlreadyUnallocated))
            },
            _ => arbitrary(),
        }
    }

    fn go(self, phase: RemapPhase, action: RemapAction) -> (next: Remapping)
        ensures
            next == self.goes(phase, action),
    {
        Remapping { remap: Remap { phase, ..self }, action }
    }

    fn finish(self, result: Result<usize, RemapError>) -> (next: Remapping)
        ensures
            next == self.finishes(result),
    {
        self.go(RemapPhase::End, RemapAction::Finish(result))
    }

    fn temporary_permissions(&self) -> (permissions: MemoryRegionPermissions)
        ensures
            permissions == self.temporary(),
    {
        MemoryRegionPermissions { read: true, write: true, execute: false, ..self.permissions }
    }

    fn allocate(self, behavior: FixedAddressBehavior, phase: RemapPhase) -> (next: Remapping)
        ensures
            next == self.allocates(behavior, phase),
    {
        self.go(
            phase,
            RemapAction::Allocate {
                range: self.new_range,
                permissions: self.temporary_permissions(),
                behavior,
            },
        )
    }

    fn copy(self, to: usize) -> (next: Remapping)
        requires
            self.wf(),
            to + self.new_len() <= usize::MAX,
        ensures
            next == self.copies(to),
            next.remap.wf(),
    {
        self.go(
            RemapPhase::Bytes { to },
            RemapAction::CopyBytes {
                from: self.old_range.start,
                to,
                len: self.old_range.end - self.old_range.start,
            },
        )
    }

    fn give_back(self, to: usize, error: RemapError) -> (next: Remapping)
        requires
            self.wf(),
            to + self.new_len() <= usize::MAX,
        ensures
            next == self.gives_back(to, error),
            next.remap.wf(),
    {
        let range = AddrRange {
            start: to,
            end: to + (self.new_range.end - self.new_range.start),
        };
        self.go(RemapPhase::GiveBack { error }, RemapAction::Deallocate { range })
    }

    fn free(self, to: usize) -> (next: Remapping)
        requires
            self.wf(),
        ensures
            next == self.frees(to),
            next.remap.wf(),
    {
        self.go(RemapPhase::Free { to }, RemapAction::Deallocate { range: self.old_range })
    }

    fn on_allocation(self, to: usize) -> (next: Remapping)
        requires
            self.wf(),
            to + self.new_len() <= usize::MAX,
        ensures
            next == self.after_allocation(to),
            next.remap.wf(),
    {
        if self.permissions.read {
            self.copy(to)
        } else {
            let readable = MemoryRegionPermissions { read: true, ..self.permissions };
            self.go(
                RemapPhase::Readable { to },
                RemapAction::Update { range: self.old_range, permissions: readable },
            )
        }
    }

    /// The first action of moving the old pages to a larger range.
    pub fn start(
        old_range: AddrRange,
        new_range: AddrRange,
        permissions: MemoryRegionPermissions,
        pages: &PageSet,
    ) -> (first: Remapping)
        requires
            pages.wf(),
        ensures
            ({
                let remap = Remap {
                    old_range,
                    new_range,
                    permissions,
                    phase: RemapPhase::Preferred,
                };
                first == match remap_refusal(old_range, new_range, pages@) {
                    Some(error) => remap.finishes(Err(error)),
                    None => remap.allocates(
                        FixedAddressBehavior::NoReplace,
                        RemapPhase::Preferred,
                    ),
                }
            }),
            !(first.remap.phase is End) ==> first.remap.wf(),
    {
        let remap = Remap { old_range, new_range, permissions, phase: RemapPhase::Preferred };
        if !is_page_aligned(&old_range) || !is_page_aligned(&new_range) {
            return remap.finish(Err(RemapError::Unaligned));
        }
        if old_range.start < new_range.end && new_range.start < old_range.end {
            return remap.finish(Err(RemapError::Overlapping));
        }
        if new_range.end - new_range.start <= old_range.end - old_range.start {
            return remap.finish(Err(RemapError::OutOfMemory));
        }
        if !pages.covers(old_range) {
            return remap.finish(Err(RemapError::AlreadyUnallocated));
        }
        remap.allocate(FixedAddressBehavior::NoReplace, RemapPhase::Preferred)
    }

    /// Takes what came of the last action and returns what has to be done
    /// next.
    pub fn step(&mut self, event: RemapEvent) -> (action: RemapAction)
        requires
            old(self).wf(),
            old(self).accepts(event),
        ensures
            (Remapping { remap: *final(self), action }) == old(self).next(event),
            final(self).wf(),
    {
        let now = *self;
        let next = match (now.phase, event) {
            (RemapPhase::Preferred, RemapEvent::Allocated(r)) => match r {
                Ok(to) => now.on_allocation(to),
                Err(e) => match e {
                    AllocationError::AddressInUse
                    | AllocationError::AddressPartiallyInUse
                    | AllocationError::AddressInUseByPlatform => now.allocate(
                        FixedAddressBehavior::Hint,
                        RemapPhase::Fallback,
                    ),
                    _ => now.finish(Err(mean_allocation(e))),
                },
            },
            (RemapPhase::Fallback, RemapEvent::Allocated(r)) => match r {
                Ok(to) => now.on_allocation(to),
                Err(e) => now.finish(Err(mean_allocation(e))),
            },
            (RemapPhase::Readable { to }, RemapEvent::Updated(r)) => match r {
                Some(e) => {
                    let error = match e {
                        PermissionUpdateError::PermissionDenied => RemapError::PermissionDenied,
                        PermissionUpdateError::Unallocated => RemapError::AlreadyUnallocated,
                        _ => RemapError::OutOfMemory,
                    };
                    now.give_back(to, error)
                },
                None => now.copy(to),
            },
            (RemapPhase::Bytes { to }, _) => {
                if now.temporary_permissions() != now.permissions {
                    let range = AddrRange {
                        start: to,
                        end: to + (now.new_range.end - now.new_range.start),
                    };
                    now.go(
                        RemapPhase::Restore { to },
                        RemapAction::Update { range, permissions: now.permissions },
                    )
                } else {
                    now.free(to)
                }
            },
            (RemapPhase::Restore { to }, RemapEvent::Updated(r)) => match r {
                Some(e) => {
                    let error = match e {
                        PermissionUpdateError::PermissionDenied => RemapError::PermissionDenied,
                        _ => RemapError::OutOfMemory,
                    };
                    if now.permissions.read {
                        now.give_back(to, error)
                    } else {
                        now.go(
                            RemapPhase::Undo { to, error },
                            RemapAction::Update {
                                range: now.old_range,
                                permissions: now.permissions,
                            },
                        )
                    }
                },
                None => now.free(to),
            },
            (RemapPhase::Undo { to, error }, _) => now.give_back(to, error),
            (RemapPhase::GiveBack { error }, _) => now.finish(Err(error)),
            (RemapPhase::Free { to }, RemapEvent::Deallocated(done)) => if done {
                now.finish(Ok(to))
            } else {
                now.finish(Err(RemapError::AlreadyUnallocated))
            },
            _ => now.finish(Err(RemapError::OutOfMemory)),
        };
        *self = next.remap;
        next.action
    }
}

/// What a move has done.
pub struct RemapWorld {
    /// Where the new pages are, while there are any.
    pub new_at: Option<usize>,
    /// What is allowed of the new pages, and of the old ones.
    pub new_allows: MemoryRegionPermissions,
    pub old_allows: MemoryRegionPermissions,
    /// Whether the old pages were copied to the new ones, from the first byte to
    /// the last.
    pub copied: bool,
    /// Whether the old pages were de-allocated.
    pub freed: bool,
    /// Whether permissions could not be changed.
    pub stuck: bool,
}

impl RemapWorld {
    /// Nothing is done.
    pub open spec fn untouched(permissions: MemoryRegionPermissions) -> RemapWorld {
        RemapWorld {
            new_at: None,
            new_allows: permissions,
            old_allows: permissions,
            copied: false,
            freed: false,
            stuck: false,
        }
    }

    /// The world once an action has come to something.
    pub open spec fn step(
        self,
        remap: Remap,
        action: RemapAction,
        event: RemapEvent,
    ) -> RemapWorld {
        match (action, event) {
            (RemapAction::Allocate { permissions, .. }, RemapEvent::Allocated(Ok(to))) => {
                RemapWorld { new_at: Some(to), new_allows: permissions, ..self }
            },
            (RemapAction::CopyBytes { from, to, len }, RemapEvent::Copied) => RemapWorld {
                copied: from == remap.old_range.start && self.new_at == Some(to) && len
                    == remap.old_range.end - remap.old_range.start,
                ..self
            },
            (RemapAction::Update { range, permissions }, RemapEvent::Updated(None)) => if range
                == remap.old_range {
                RemapWorld { old_allows: permissions, ..self }
            } else if self.new_at == Some(range.start) && range.end - range.start
                == remap.new_range.end - remap.new_range.start {
                RemapWorld { new_allows: permissions, ..self }
            } else {
                self
            },
            (RemapAction::Update { .. }, RemapEvent::Updated(Some(_))) => RemapWorld {
                stuck: true,
                ..self
            },
            (RemapAction::Deallocate { range }, RemapEvent::Deallocated(done)) => if range
                == remap.old_range {
                RemapWorld { freed: done, ..self }
            } else if self.new_at == Some(range.start) && range.end - range.start
                == remap.new_range.end - remap.new_range.start {
                RemapWorld { new_at: None, ..self }
            } else {
                self
            },
            _ => self,
        }
    }
}

/// What holds between any two steps of a move.
pub open spec fn remap_inv(now: Remapping, w: RemapWorld) -> bool {
    let r = now.remap;
    let own = r.permissions;
    let temporary = MemoryRegionPermissions { read: true, write: true, execute: false, ..own };
    let readable = MemoryRegionPermissions { read: true, ..own };
    &&& r.wf()
    &&& r.new_len() > r.old_range.end - r.old_range.start
    &&& match r.phase {
        RemapPhase::Preferred | RemapPhase::Fallback => now.action
            matches RemapAction::Allocate { permissions, .. } && permissions == temporary && w
            == RemapWorld::untouched(own),
        RemapPhase::Readable { to } => {
            &&& now.action == (RemapAction::Update { range: r.old_range, permissions: readable })
            &&& w.new_at == Some(to) && !w.copied && !w.freed
            &&& w.old_allows == own && w.new_allows == temporary && !w.stuck && !own.read
        },
        RemapPhase::Bytes { to } => {
            &&& now.action == r.copies(to).action
            &&& w.new_at == Some(to) && !w.copied && !w.freed
            &&& w.old_allows == readable && w.new_allows == temporary && !w.stuck
        },
        RemapPhase::Restore { to } => {
            &&& now.action == (RemapAction::Update { range: r.span(to), permissions: own })
            &&& w.new_at == Some(to) && w.copied && !w.freed
            &&& w.old_allows == readable && !w.stuck
        },
        RemapPhase::Undo { to, .. } => {
            &&& now.action == (RemapAction::Update { range: r.old_range, permissions: own })
            &&& w.new_at == Some(to) && !w.freed
            &&& w.stuck
        },
        RemapPhase::GiveBack { .. } => {
            &&& now.action matches RemapAction::Deallocate { range } && w.new_at == Some(
                range.start,
            ) && range.end - range.start == r.new_len()
            &&& !w.freed
            &&& w.stuck
        },
        RemapPhase::Free { to } => {
            &&& now.action == (RemapAction::Deallocate { range: r.old_range })
            &&& w.new_at == Some(to) && w.copied && !w.freed
            &&& w.new_allows == own
            &&& w.old_allows == readable && !w.stuck
        },
        RemapPhase::End => match now.action {
            RemapAction::Finish(Ok(to)) => {
                &&& w.new_at == Some(to) && w.copied && w.freed
                &&& w.new_allows == own
            },
            RemapAction::Finish(Err(e)) => {
                &&& !w.freed
                &&& w.new_at is None || (w.copied && e == RemapError::AlreadyUnallocated
                    && w.new_allows == own)
                &&& !w.stuck ==> w.old_allows == own || (w.new_at is Some && w.old_allows
                    == readable)
            },
            _ => false,
        },
    }
}

/// Whether each event answers the action before it.
pub open spec fn is_remap_run(now: Remapping, events: Seq<RemapEvent>) -> bool
    decreases events.len(),
{
    events.len() == 0 || (now.remap.accepts(events[0]) && is_remap_run(
        now.remap.next(events[0]),
        events.drop_first(),
    ))
}

/// The move, and the world, after the events.
pub open spec fn after_remap(now: Remapping, w: RemapWorld, events: Seq<RemapEvent>) -> (
    Remapping,
    RemapWorld,
)
    decreases events.len(),
{
    if events.len() == 0 {
        (now, w)
    } else {
        after_remap(
            now.remap.next(events[0]),
            w.step(now.remap, now.action, events[0]),
            events.drop_first(),
        )
    }
}

proof fn remap_run_keeps(now: Remapping, w: RemapWorld, events: Seq<RemapEvent>)
    requires
        remap_inv(now, w),
        is_remap_run(now, events),
    ensures
        remap_inv(after_remap(now, w, events).0, after_remap(now, w, events).1),
        after_remap(now, w, events).0.remap.permissions == now.remap.permissions,
        after_remap(now, w, events).0.remap.old_range == now.remap.old_range,
        after_remap(now, w, events).0.remap.new_range == now.remap.new_range,
    decreases events.len(),
{
    if events.len() > 0 {
        remap_run_keeps(
            now.remap.next(events[0]),
            w.step(now.remap, now.action, events[0]),
            events.drop_first(),
        );
    }
}

/// A move is all or nothing: where it succeeds, the old pages were copied to
/// the new ones before they were de-allocated; where it fails, the old pages
/// are still there, and the new ones are gone. Only where the old pages cannot
/// be de-allocated after the copy do both stay. The new pages are as long as was
/// asked for and allow what the old ones allowed. What the old ones allow is
/// unchanged where the move fails, as far as permissions can be changed at all.
pub proof fn move_is_all_or_nothing(
    old_range: AddrRange,
    new_range: AddrRange,
    permissions: MemoryRegionPermissions,
    events: Seq<RemapEvent>,
)
    requires
        old_range.start < old_range.end,
        new_range.start < new_range.end,
        new_range.end - new_range.start > old_range.end - old_range.start,
        ({
            let remap = Remap { old_range, new_range, permissions, phase: RemapPhase::Preferred };
            is_remap_run(
                remap.allocates(FixedAddressBehavior::NoReplace, RemapPhase::Preferred),
                events,
            )
        }),
    ensures
        ({
            let remap = Remap { old_range, new_range, permissions, phase: RemapPhase::Preferred };
            let first = remap.allocates(FixedAddressBehavior::NoReplace, RemapPhase::Preferred);
            let (end, w) = after_remap(first, RemapWorld::untouched(permissions), events);
            &&& end.action matches RemapAction::Finish(Ok(to)) ==> w.new_at == Some(to) && w.copied
                && w.freed && w.new_allows == end.remap.permissions
            &&& end.action matches RemapAction::Finish(Err(e)) ==> !w.freed && (w.new_at is None
                || (w.copied && e == RemapError::AlreadyUnallocated))
            &&& end.action is Finish && end.action->Finish_0 is Err && !w.stuck && w.new_at is None
                ==> w.old_allows == end.remap.permissions
            &&& end.remap.permissions == permissions && end.remap.old_range == old_range
                && end.remap.new_range == new_range
        }),
{
    let remap = Remap { old_range, new_range, permissions, phase: RemapPhase::Preferred };
    let first = remap.allocates(FixedAddressBehavior::NoReplace, RemapPhase::Preferred);
    remap_run_keeps(first, RemapWorld::untouched(permissions), events);
    let (end, w) = after_remap(first, RemapWorld::untouched(permissions), events);
    assert(remap_inv(end, w));
}

/// Pages are never writable and executable at once while they are moved.
pub proof fn moved_code_is_not_executable_while_copied(remap: Remap)
    ensures
        !remap.temporary().execute,
        remap.temporary().read && remap.temporary().write,
        remap.temporary().shared == remap.permissions.shared,
{
}

/// An address that is taken is no obstacle: the pages then go anywhere. Any other
/// failure to allocate ends the move, and so does one to allocate anywhere.
pub proof fn taken_addresses_are_avoided(remap: Remap, e: AllocationError)
    requires
        remap.phase is Preferred || remap.phase is Fallback,
    ensures
        ({
            let next = remap.next(RemapEvent::Allocated(Err(e)));
            let taken = e is AddressInUse || e is AddressPartiallyInUse
                || e is AddressInUseByPlatform;
            if taken && remap.phase is Preferred {
                next.action matches RemapAction::Allocate { range, behavior, .. } && range
                    == remap.new_range && behavior is Hint
            } else {
                next.action matches RemapAction::Finish(Err(told)) && match told {
                    RemapError::AlreadyAllocated => taken,
                    RemapError::Unaligned => e is Unaligned,
                    RemapError::PermissionDenied => e is PermissionDenied,
                    RemapError::OutOfMemory => !taken && !(e is Unaligned)
                        && !(e is PermissionDenied),
                    _ => false,
                }
            }
        }),
{
}

/// A move is turned down before anything is done exactly where it is not of whole
/// pages, to where they are, to no more of them, or of pages that the guest does
/// not own.
pub proof fn only_bad_moves_are_refused(
    old_range: AddrRange,
    new_range: AddrRange,
    pages: Set<usize>,
    page: usize,
    a: int,
)
    ensures
        remap_refusal(old_range, new_range, pages) is None ==> {
            &&& old_range.start < old_range.end && new_range.start < new_range.end
            &&& old_range.start % 0x4000 == 0 && old_range.end % 0x4000 == 0
            &&& new_range.start % 0x4000 == 0 && new_range.end % 0x4000 == 0
            &&& !(old_range.start <= a < old_range.end && new_range.start <= a < new_range.end)
            &&& old_range.end - old_range.start < new_range.end - new_range.start
            &&& old_range.start <= page < old_range.end && page % 0x4000 == 0 ==> pages.contains(
                page,
            )
        },
        match remap_refusal(old_range, new_range, pages) {
            None => true,
            Some(RemapError::Unaligned) => !aligned(old_range) || !aligned(new_range),
            Some(RemapError::Overlapping) => old_range.start < new_range.end && new_range.start
                < old_range.end,
            Some(RemapError::OutOfMemory) => old_range.end - old_range.start >= new_range.end
                - new_range.start,
            Some(RemapError::AlreadyUnallocated) => exists|p: usize| #[trigger]
                pages_of(old_range).contains(p) && !pages.contains(p),
            _ => false,
        },
{
    if remap_refusal(old_range, new_range, pages) is None && old_range.start <= page
        < old_range.end && page % 0x4000 == 0 {
        assert(pages_of(old_range).contains(page));
    }
}

} // verus!
