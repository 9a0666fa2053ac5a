//! De-allocation, protection and moving of pages on macOS.

use vstd::prelude::*;

use crate::flags::MemoryRegionPermissions;
use crate::macos::allocate::prot_of;
use crate::macos::pages::{
    aligned, ascends, is_page_aligned, pages_of, permission_failure, permission_update_error,
    prot_flags, wx, PageSet, PAGE_SIZE,
};
use crate::mm::ranges::AddrRange;
use crate::page_mgmt::{DeallocationError, PermissionUpdateError};

verus! {

/// The macOS platform: the pages that the guest owns.
#[derive(Debug)]
pub struct MacosUserland {
    pub pages: PageSet,
}

impl MacosUserland {
    /// Whether pages have the expected size on the host.
    pub open spec fn fits_host(page_size: i64) -> bool {
        page_size == PAGE_SIZE
    }

    /// A platform whose guest owns nothing, on a host with pages of that size.
    /// `None` where the size is not the expected one.
    pub fn new(page_size: i64) -> (platform: Option<MacosUserland>)
        ensures
            platform is Some == MacosUserland::fits_host(page_size),
            platform matches Some(p) ==> p.pages.wf() && p.pages@ == Set::<usize>::empty(),
    {
        if page_size == PAGE_SIZE as i64 {
            Some(MacosUserland { pages: PageSet::new() })
        } else {
            None
        }
    }
}

/// What the host has to do next to de-allocate pages.
#[derive(Clone, Copy, Debug, PartialEq, Eq, Structural)]
pub enum DeallocAction {
    /// Unmap a page.
    Unmap { page: usize },
    /// The de-allocation is over, with an error or without.
    Finish(Option<DeallocationError>),
}

/// Pages being de-allocated: those that the guest owns in the range. Others in
/// the range are left alone.
#[derive(Debug)]
pub struct Deallocation {
    pub range: AddrRange,
    pub owned: Vec<usize>,
    pub done: usize,
}

impl Deallocation {
    /// What holds while the guest owns the pages: those in the range are the
    /// ones that are still to be unmapped.
    pub open spec fn wf(self, pages: Set<usize>) -> bool {
        &&& self.done <= self.owned@.len()
        &&& ascends(self.owned@)
        &&& forall|page: usize| #[trigger]
            self.owned@.skip(self.done as int).contains(page) == (pages.contains(page)
                && self.range.holds(page as int))
    }

    /// What is asked for next.
    pub open spec fn asks(self) -> DeallocAction {
        if self.done < self.owned@.len() {
            DeallocAction::Unmap { page: self.owned@[self.done as int] }
        } else {
            DeallocAction::Finish(None)
        }
    }

    fn ask(&self) -> (action: DeallocAction)
        requires
            self.done <= self.owned@.len(),
        ensures
            action == self.asks(),
    {
        if self.done < self.owned.len() {
            DeallocAction::Unmap { page: self.owned[self.done] }
        } else {
            DeallocAction::Finish(None)
        }
    }

    /// The first action of de-allocating the pages of the range.
    pub fn start(range: AddrRange, pages: &PageSet) -> (first: (Deallocation, DeallocAction))
        requires
            pages.wf(),
        ensures
            if aligned(range) {
                first.0.wf(pages@) && first.0.range == range && first.0.done == 0 && first.1
                    == first.0.asks()
            } else {
                first.1 == DeallocAction::Finish(Some(DeallocationError::Unaligned))
            },
    {
        if !is_page_aligned(&range) {
            let none = Deallocation { range, owned: Vec::new(), done: 0 };
            return (none, DeallocAction::Finish(Some(DeallocationError::Unaligned)));
        }
        let owned = pages.owned_in(range);
        assert(owned@.skip(0) =~= owned@);
        let deallocation = Deallocation { range, owned, done: 0 };
        let action = deallocation.ask();
        (deallocation, action)
    }

    /// Takes the reply of the host, whether the page was unmapped, and returns
    /// what it has to do next. A page that was unmapped is no longer the
    /// guest's.
    pub fn step(&mut self, unmapped: bool, pages: &mut PageSet) -> (action: DeallocAction)
        requires
            old(pages).wf(),
            old(self).wf(old(pages)@),
            old(self).done < old(self).owned@.len(),
        ensures
            final(pages).wf(),
            final(self).wf(final(pages)@),
            final(self).range == old(self).range,
            final(self).owned@ == old(self).owned@,
            if unmapped {
                &&& final(pages)@ == old(pages)@.remove(old(self).owned@[old(self).done as int])
                &&& final(self).done == old(self).done + 1
                &&& action == final(self).asks()
            } else {
                &&& final(pages)@ == old(pages)@
                &&& final(self).done == old(self).done
                &&& action == DeallocAction::Finish(
                    Some(DeallocationError::AlreadyUnallocated),
                )
            },
    {
        if !unmapped {
            return DeallocAction::Finish(Some(DeallocationError::AlreadyUnallocated));
        }
        let count: usize = self.owned.len();
        assert(self.done < count);
        let page: usize = self.owned[self.done];
        let ghost left = self.owned@.skip(self.done as int);
        let ghost before = pages@;
        pages.remove(page);
        self.done = self.done + 1;
        proof {
            let now = self.owned@.skip(self.done as int);
            assert(left[0] == page);
            assert forall|x: usize| #[trigger] now.contains(x) == (pages@.contains(x)
                && self.range.holds(x as int)) by {
                if now.contains(x) {
                    let k = choose|k: int| 0 <= k < now.len() && now[k] == x;
                    assert(left[k + 1] == x);
                    assert(left.contains(x));
                    assert(self.owned@[self.done - 1] < self.owned@[self.done + k]);
                }
                if pages@.contains(x) && self.range.holds(x as int) {
                    assert(before.contains(x));
                    assert(left.contains(x));
                    let k = choose|k: int| 0 <= k < left.len() && left[k] == x;
                    assert(now[k - 1] == x);
                }
            }
        }
        self.ask()
    }
}

/// De-allocation reaches only pages of the guest in the range, and all of them
/// before it ends without an error.
pub proof fn deallocation_takes_what_is_owned(
    deallocation: Deallocation,
    pages: Set<usize>,
    page: usize,
)
    requires
        deallocation.wf(pages),
    ensures
        deallocation.asks() == (DeallocAction::Unmap { page }) ==> pages.contains(page)
            && deallocation.range.holds(page as int),
        deallocation.asks() == DeallocAction::Finish(None) && pages.contains(page)
            ==> !deallocation.range.holds(page as int),
{
    let left = deallocation.owned@.skip(deallocation.done as int);
    if deallocation.asks() == (DeallocAction::Unmap { page }) {
        assert(left[0] == page);
        assert(left.contains(page));
    }
    if deallocation.asks() == DeallocAction::Finish(None) {
        assert(left.len() == 0);
        assert(!left.contains(page));
    }
}

/// What the host has to do next to change permissions.
#[derive(Clone, Copy, Debug, PartialEq, Eq, Structural)]
pub enum UpdateAction {
    Protect { start: usize, len: usize, prot: i32 },
    /// Make the processor forget the code that it knows of the range.
    Invalidate { start: usize, len: usize },
    Finish(Option<PermissionUpdateError>),
}

/// What the host answers.
#[derive(Clone, Copy, Debug, PartialEq, Eq, Structural)]
pub enum UpdateEvent {
    /// The error number, if the protection could not be changed.
    Protected(Option<i32>),
    Invalidated,
}

/// What the update is waiting for.
#[derive(Clone, Copy, Debug, PartialEq, Eq, Structural)]
pub enum UpdatePhase {
    Protect,
    Invalidate,
    Execute,
    End,
}

/// Permissions being changed. What becomes executable is first made readable,
/// so that the processor's caches can be brought up to date.
#[derive(Clone, Copy, Debug, PartialEq, Eq, Structural)]
pub struct Update {
    pub range: AddrRange,
    pub permissions: MemoryRegionPermissions,
    pub phase: UpdatePhase,
}

/// An update and the action that it asks for.
#[derive(Clone, Copy, Debug, PartialEq, Eq, Structural)]
pub struct Updating {
    pub update: Update,
    pub action: UpdateAction,
}

/// Why a change of permissions is refused before the host is asked, if it is.
pub open spec fn update_refusal(
    range: AddrRange,
    permissions: MemoryRegionPermissions,
    pages: Set<usize>,
) -> Option<PermissionUpdateError> {
    if !aligned(range) {
        Some(PermissionUpdateError::Unaligned)
    } else if permissions.write && permissions.execute {
        Some(PermissionUpdateError::PermissionDenied)
    } else if !pages_of(range).subset_of(pages) {
        Some(PermissionUpdateError::Unallocated)
    } else {
        None
    }
}

impl Update {
    pub open spec fn wf(self) -> bool {
        self.range.start <= self.range.end
    }

    /// The permissions while the caches are brought up to date.
    pub open spec fn first_permissions(self) -> MemoryRegionPermissions {
        if self.permissions.execute {
            MemoryRegionPermissions { read: true, execute: false, ..self.permissions }
        } else {
            self.permissions
        }
    }

    pub open spec fn protects(
        self,
        permissions: MemoryRegionPermissions,
        phase: UpdatePhase,
    ) -> Updating {
        Updating {
            update: Update { phase, ..self },
            action: UpdateAction::Protect {
                start: self.range.start,
                len: (self.range.end - self.range.start) as usize,
                prot: prot_of(permissions) as i32,
            },
        }
    }

    pub open spec fn finishes(self, error: Option<PermissionUpdateError>) -> Updating {
        Updating {
            update: Update { phase: UpdatePhase::End, ..self },
            action: UpdateAction::Finish(error),
        }
    }

    /// Whether the event answers what the update waits for.
    pub open spec fn accepts(self, event: UpdateEvent) -> bool {
        match self.phase {
            UpdatePhase::Protect | UpdatePhase::Execute => event is Protected,
            UpdatePhase::Invalidate => event is Invalidated,
            UpdatePhase::End => false,
        }
    }

    /// Whether the event answers what the update waits for.
    pub fn is_answered_by(&self, event: UpdateEvent) -> (answered: bool)
        ensures
            answered == self.accepts(event),
    {
        match self.phase {
            UpdatePhase::Protect | UpdatePhase::Execute => {
                matches!(event, UpdateEvent::Protected(_))
            },
            UpdatePhase::Invalidate => matches!(event, UpdateEvent::Invalidated),
            UpdatePhase::End => false,
        }
    }

    /// What follows an event that answers what the update waits for.
    pub open spec fn next(self, event: UpdateEvent) -> Updating {
        match (self.phase, event) {
            (_, UpdateEvent::Protected(Some(errno))) => self.finishes(
                Some(permission_failure(errno)),
            ),
            (UpdatePhase::Protect, _) => if self.permissions.execute {
                Updating {
                    update: Update { phase: UpdatePhase::Invalidate, ..self },
                    action: UpdateAction::Invalidate {
                        start: self.range.start,
                        len: (self.range.end - self.range.start) as usize,
                    },
                }
            } else {
                self.finishes(None)
            },
            (UpdatePhase::Invalidate, _) => self.protects(self.permissions, UpdatePhase::Execute),
            _ => self.finishes(None),
        }
    }

    fn protect(self, permissions: MemoryRegionPermissions, phase: UpdatePhase) -> (next: Updating)
        requires
            self.wf(),
        ensures
            next == self.protects(permissions, phase),
    {
        Updating {
            update: Update { phase, ..self },
            action: UpdateAction::Protect {
                start: self.range.start,
                len: self.range.end - self.range.start,
                prot: prot_flags(permissions),
            },
        }
    }

    fn finish(self, error: Option<PermissionUpdateError>) -> (next: Updating)
        ensures
            next == self.finishes(error),
    {
        Updating {
            update: Update { phase: UpdatePhase::End, ..self },
            action: UpdateAction::Finish(error),
        }
    }

    /// The first action of changing the permissions of the range.
    pub fn start(
        range: AddrRange,
        permissions: MemoryRegionPermissions,
        pages: &PageSet,
    ) -> (first: Updating)
        requires
            pages.wf(),
        ensures
            ({
                let update = Update { range, permissions, phase: UpdatePhase::Protect };
                first == match update_refusal(range, permissions, pages@) {
                    Some(error) => update.finishes(Some(error)),
                    None => update.protects(update.first_permissions(), UpdatePhase::Protect),
                }
            }),
            !(first.update.phase is End) ==> first.update.wf(),
    {
        let update = Update { range, permissions, phase: UpdatePhase::Protect };
        if !is_page_aligned(&range) {
            return update.finish(Some(PermissionUpdateError::Unaligned));
        }
        if wx(permissions) {
            return update.finish(Some(PermissionUpdateError::PermissionDenied));
        }
        if !pages.covers(range) {
            return update.finish(Some(PermissionUpdateError::Unallocated));
        }
        if permissions.execute {
            let readable = MemoryRegionPermissions { read: true, execute: false, ..permissions };
            update.protect(readable, UpdatePhase::Protect)
        } else {
            update.protect(permissions, UpdatePhase::Protect)
        }
    }

    /// Takes the reply of the host and returns what it has to do next.
    pub fn step(&mut self, event: UpdateEvent) -> (action: UpdateAction)
        requires
            old(self).wf(),
            old(self).accepts(event),
        ensures
            (Updating { update: *final(self), action }) == old(self).next(event),
            final(self).wf(),
    {
        let now = *self;
        let next = match (now.phase, event) {
            (_, UpdateEvent::Protected(Some(errno))) => now.finish(
                Some(permission_update_error(errno)),
            ),
            (UpdatePhase::Protect, _) => if now.permissions.execute {
                Updating {
                    update: Update { phase: UpdatePhase::Invalidate, ..now },
                    action: UpdateAction::Invalidate {
                        start: now.range.start,
                        len: now.range.end - now.range.start,
                    },
                }
            } else {
                now.finish(None)
            },
            (UpdatePhase::Invalidate, _) => now.protect(now.permissions, UpdatePhase::Execute),
            _ => now.finish(None),
        };
        *self = next.update;
        next.action
    }
}

/// Code becomes executable only after the processor's caches were brought up to
/// date, and is readable while that happens.
pub proof fn caches_are_cleaned_before_code_runs(update: Update)
    requires
        update.permissions.execute,
        !update.permissions.write,
    ensures
        update.first_permissions().read,
        !update.first_permissions().execute,
        update.phase is Protect ==> update.next(UpdateEvent::Protected(None)).action is Invalidate,
        update.phase is Invalidate ==> update.next(UpdateEvent::Invalidated).action == (
        UpdateAction::Protect {
            start: update.range.start,
            len: (update.range.end - update.range.start) as usize,
            prot: prot_of(update.permissions) as i32,
        }),
{
}

/// What an update has done: what the host was told to allow of a range, and
/// whether the caches have been brought up to date since.
pub struct UpdateWorld {
    pub allows: Option<(usize, usize, i32)>,
    pub cleaned: bool,
}

impl UpdateWorld {
    /// Nothing is done.
    pub open spec fn untouched() -> UpdateWorld {
        UpdateWorld { allows: None, cleaned: false }
    }

    /// The world once an action has come to something.
    pub open spec fn step(
        self,
        update: Update,
        action: UpdateAction,
        event: UpdateEvent,
    ) -> UpdateWorld {
        match (action, event) {
            (UpdateAction::Protect { start, len, prot }, UpdateEvent::Protected(None)) => {
                UpdateWorld { allows: Some((start, len, prot)), ..self }
            },
            (UpdateAction::Invalidate { start, len }, UpdateEvent::Invalidated) => UpdateWorld {
                cleaned: start == update.range.start && start + len == update.range.end,
                ..self
            },
            _ => self,
        }
    }
}

/// Whether each event answers the action before it.
pub open spec fn is_update_run(now: Updating, events: Seq<UpdateEvent>) -> bool
    decreases events.len(),
{
    events.len() == 0 || (now.update.accepts(events[0]) && is_update_run(
        now.update.next(events[0]),
        events.drop_first(),
    ))
}

/// The update, and the world, after the events.
pub open spec fn after_update(now: Updating, w: UpdateWorld, events: Seq<UpdateEvent>) -> (
    Updating,
    UpdateWorld,
)
    decreases events.len(),
{
    if events.len() == 0 {
        (now, w)
    } else {
        after_update(
            now.update.next(events[0]),
            w.step(now.update, now.action, events[0]),
            events.drop_first(),
        )
    }
}

spec fn update_inv(first: Update, now: Updating, w: UpdateWorld) -> bool {
    let u = now.update;
    let start = first.range.start;
    let len = (first.range.end - start) as usize;
    &&& u.wf()
    &&& u.range == first.range
    &&& u.permissions == first.permissions
    &&& match u.phase {
        UpdatePhase::Protect => {
            &&& now.action == (UpdateAction::Protect {
                start,
                len,
                prot: if first.permissions.execute {
                    prot_of(
                        MemoryRegionPermissions { read: true, execute: false, ..first.permissions },
                    )
                } else {
                    prot_of(first.permissions)
                } as i32,
            })
            &&& w == UpdateWorld::untouched()
        },
        UpdatePhase::Invalidate => {
            &&& now.action == (UpdateAction::Invalidate { start, len })
            &&& first.permissions.execute
            &&& w.allows == Some(
                (
                    start,
                    len,
                    prot_of(
                        MemoryRegionPermissions { read: true, execute: false, ..first.permissions },
                    ) as i32,
                ),
            )
        },
        UpdatePhase::Execute => {
            &&& now.action == (UpdateAction::Protect {
                start,
                len,
                prot: prot_of(first.permissions) as i32,
            })
            &&& w.cleaned
        },
        UpdatePhase::End => now.action matches UpdateAction::Finish(error) && (error is None ==> {
            &&& w.allows == Some((start, len, prot_of(first.permissions) as i32))
            &&& first.permissions.execute ==> w.cleaned
        }),
    }
}

proof fn update_run_keeps(first: Update, now: Updating, w: UpdateWorld, events: Seq<UpdateEvent>)
    requires
        update_inv(first, now, w),
        is_update_run(now, events),
    ensures
        ({
            let (end, world) = after_update(now, w, events);
            update_inv(first, end, world)
        }),
    decreases events.len(),
{
    if events.len() > 0 {
        update_run_keeps(
            first,
            now.update.next(events[0]),
            w.step(now.update, now.action, events[0]),
            events.drop_first(),
        );
    }
}

/// Permissions are changed for the whole range or an error is returned: a change
/// that ends well leaves the host allowing what was asked for, all of it and no
/// more, and of code only once the processor has forgotten what it knew of the
/// range. At no time before may the range be executed.
pub proof fn permissions_are_those_asked_for(update: Update, events: Seq<UpdateEvent>)
    requires
        update.wf(),
        update.phase is Protect,
        is_update_run(
            update.protects(update.first_permissions(), UpdatePhase::Protect),
            events,
        ),
    ensures
        ({
            let first = update.protects(update.first_permissions(), UpdatePhase::Protect);
            let (end, w) = after_update(first, UpdateWorld::untouched(), events);
            &&& end.action == UpdateAction::Finish(None) ==> {
                &&& w.allows matches Some((start, len, prot)) && start == update.range.start
                    && start + len == update.range.end && prot == prot_of(update.permissions)
                &&& update.permissions.execute ==> w.cleaned
            }
            &&& end.action matches UpdateAction::Protect { start, len, prot } ==> {
                &&& start == update.range.start
                &&& start + len == update.range.end
                &&& prot / 4 % 2 == 1 ==> update.permissions.execute && w.cleaned
            }
        }),
{
    let first = update.protects(update.first_permissions(), UpdatePhase::Protect);
    update_run_keeps(update, first, UpdateWorld::untouched(), events);
}

/// An error of the host ends a change of permissions, and means that it was not
/// allowed, that memory ran out, or that the platform failed.
pub proof fn update_errors_come_from_the_host(update: Update, errno: i32)
    requires
        update.phase is Protect || update.phase is Execute,
    ensures
        update.next(UpdateEvent::Protected(Some(errno))).action matches UpdateAction::Finish(
            Some(e),
        ) && match e {
            PermissionUpdateError::PermissionDenied => errno == 1 || errno == 13,
            PermissionUpdateError::OutOfMemory => errno == 12,
            PermissionUpdateError::PlatformFailure => errno != 1 && errno != 12 && errno != 13,
            _ => false,
        },
{
}

/// A change of permissions is turned down before the host is asked exactly where
/// it is not of whole pages, wants memory that is both writable and executable,
/// or reaches a page that the guest does not own.
pub proof fn only_bad_updates_are_refused(
    range: AddrRange,
    permissions: MemoryRegionPermissions,
    pages: Set<usize>,
    page: usize,
)
    ensures
        update_refusal(range, permissions, pages) is None ==> {
            &&& range.start < range.end
            &&& range.start % 0x4000 == 0 && range.end % 0x4000 == 0
            &&& !(permissions.write && permissions.execute)
            &&& range.start <= page < range.end && page % 0x4000 == 0 ==> pages.contains(page)
        },
        match update_refusal(range, permissions, pages) {
            None => true,
            Some(PermissionUpdateError::Unaligned) => !(range.start < range.end && range.start
                % 0x4000 == 0 && range.end % 0x4000 == 0),
            Some(PermissionUpdateError::PermissionDenied) => permissions.write
                && permissions.execute,
            Some(PermissionUpdateError::Unallocated) => exists|p: usize| #[trigger]
                pages_of(range).contains(p) && !pages.contains(p),
            _ => false,
        },
{
    if update_refusal(range, permissions, pages) is None && range.start <= page < range.end && page
        % 0x4000 == 0 {
        assert(pages_of(range).contains(page));
    }
}

} // verus!
