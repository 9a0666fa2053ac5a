//! What holds of every run of the patcher, whatever the host answers.

use vstd::prelude::*;

use crate::arith::{align_up_spec, ceil_to_is_least_multiple, PAGE_SIZE};
use crate::flags::{Arch, ProtFlags};
use crate::mm::elf_patch::PatchView;
use crate::mm::patch_exec::{
    Buffer, Outcome, PatchAction, PatchEvent, PatchFailure, PatchPhase, PatchRequest,
    Patcher, Patching, Placement, Rewritten,
};

verus! {

/// What a code segment holds.
pub enum Text {
    /// What it held at first.
    Original,
    /// Branches to stubs.
    Branching,
    /// Traps, but no branches to stubs.
    Trapping,
    /// A write to it failed, so that nothing is known of it.
    Torn,
}

/// What a run has done to the memory of the guest.
pub struct PatchWorld {
    /// Addresses that were mapped, and not unmapped since.
    pub live: Set<int>,
    /// Addresses that became writable, and that the patcher has asked neither
    /// to make executable nor to unmap since.
    pub writable: Set<int>,
    /// The segment in memory.
    pub code: Text,
    /// The segment in the host's buffer.
    pub buffer: Text,
    /// Whether the stubs that `buffer` leads to are in the trampoline.
    pub stubs: bool,
}

/// The addresses of a region.
pub open spec fn region(addr: usize, len: usize) -> Set<int> {
    Set::new(|a: int| addr <= a < addr + len)
}

impl PatchWorld {
    /// Nothing has been done.
    pub open spec fn untouched() -> PatchWorld {
        PatchWorld {
            live: Set::empty(),
            writable: Set::empty(),
            code: Text::Original,
            buffer: Text::Torn,
            stubs: false,
        }
    }

    /// The world once an action has been answered.
    pub open spec fn step(self, action: PatchAction, event: PatchEvent) -> PatchWorld {
        match (action, event) {
            (PatchAction::MapFresh { len, .. }, PatchEvent::Mapped(Some(at))) => PatchWorld {
                live: self.live.union(region(at, len)),
                writable: self.writable.union(region(at, len)),
                ..self
            },
            (PatchAction::Unmap { addr, len }, _) => PatchWorld {
                live: self.live.difference(region(addr, len)),
                writable: self.writable.difference(region(addr, len)),
                ..self
            },
            (PatchAction::Protect { addr, len, prot }, PatchEvent::Status(ok)) => PatchWorld {
                writable: if !prot.write {
                    self.writable.difference(region(addr, len))
                } else if ok {
                    self.writable.union(region(addr, len))
                } else {
                    self.writable
                },
                ..self
            },
            (PatchAction::ReadCode { .. }, PatchEvent::Status(true)) => PatchWorld {
                buffer: self.code,
                ..self
            },
            (PatchAction::Rewrite { .. }, PatchEvent::Rewritten(made)) => PatchWorld {
                buffer: match made {
                    Some(r) => if r.stubs > 0 {
                        Text::Branching
                    } else if r.changed {
                        Text::Trapping
                    } else {
                        self.buffer
                    },
                    None => Text::Torn,
                },
                stubs: false,
                ..self
            },
            (PatchAction::TrapAll { .. }, PatchEvent::Status(ok)) => PatchWorld {
                buffer: if ok {
                    Text::Trapping
                } else {
                    Text::Torn
                },
                ..self
            },
            (PatchAction::Write { from, .. }, PatchEvent::Status(ok)) => match from {
                Buffer::Stubs => PatchWorld { stubs: ok, ..self },
                Buffer::Code => PatchWorld {
                    code: if ok {
                        self.buffer
                    } else {
                        Text::Torn
                    },
                    ..self
                },
                Buffer::Original => PatchWorld {
                    code: if ok {
                        Text::Original
                    } else {
                        Text::Torn
                    },
                    ..self
                },
            },
            _ => self,
        }
    }
}

/// Whether an answer is one that a host can give: what it maps lies within the
/// address space, and the stubs that its rewriter makes do not come near the
/// size of it.
pub open spec fn plausible(now: Patching, event: PatchEvent) -> bool {
    match (now.action, event) {
        (PatchAction::MapFresh { len, .. }, PatchEvent::Mapped(Some(at))) => at + len
            <= usize::MAX,
        (_, PatchEvent::Rewritten(Some(r))) => now.patcher.trampoline.cursor + r.stubs + PAGE_SIZE
            <= usize::MAX,
        _ => true,
    }
}

/// Whether each event answers the action before it.
pub open spec fn is_run(now: Patching, events: Seq<PatchEvent>) -> bool
    decreases events.len(),
{
    events.len() == 0 || {
        &&& now.patcher.accepts(events[0])
        &&& plausible(now, events[0])
        &&& is_run(now.patcher.next(events[0]), events.drop_first())
    }
}

/// The patcher, and the world, after the events.
pub open spec fn after(now: Patching, world: PatchWorld, events: Seq<PatchEvent>) -> (
    Patching,
    PatchWorld,
)
    decreases events.len(),
{
    if events.len() == 0 {
        (now, world)
    } else {
        after(now.patcher.next(events[0]), world.step(now.action, events[0]), events.drop_first())
    }
}

/// The trampoline, as far as it is mapped.
spec fn trampoline_of(p: Patcher) -> Set<int> {
    if p.trampoline.mapped {
        region(p.trampoline.addr, p.trampoline.mapped_len)
    } else {
        Set::empty()
    }
}

/// The region that the pending action speaks of.
spec fn target(action: PatchAction) -> Set<int> {
    match action {
        PatchAction::Unmap { addr, len } => region(addr, len),
        _ => Set::empty(),
    }
}

/// What the patcher holds of the memory it has mapped.
spec fn held(now: Patching) -> Set<int> {
    let p = now.patcher;
    match p.phase {
        PatchPhase::ReadTrampoline
        | PatchPhase::FinalizeStaged
        | PatchPhase::WriteStaged
        | PatchPhase::ProtectStaged => region(p.trampoline.addr, p.staged_len()),
        PatchPhase::GiveUp
        | PatchPhase::DropPreferred
        | PatchPhase::DropAnywhere
        | PatchPhase::DropPage
        | PatchPhase::DropReservation => target(now.action),
        PatchPhase::WriteEntry { len } => region(p.trampoline.addr, len),
        PatchPhase::DropExpansion => trampoline_of(p).union(target(now.action)),
        PatchPhase::End(Outcome::Unusable) => Set::empty(),
        _ => trampoline_of(p),
    }
}

/// Whether the code may be writable.
spec fn code_open(p: Patcher) -> bool {
    match p.phase {
        PatchPhase::ReadCode
        | PatchPhase::Rewrite
        | PatchPhase::FinalizeStubs { .. }
        | PatchPhase::Expand { .. }
        | PatchPhase::DropExpansion
        | PatchPhase::WriteStubs { .. }
        | PatchPhase::WriteCode { .. }
        | PatchPhase::WriteTraps
        | PatchPhase::RevertCode { .. }
        | PatchPhase::CloseCode(_)
        | PatchPhase::TrapRead { .. }
        | PatchPhase::TrapRewrite { .. }
        | PatchPhase::TrapWrite { .. }
        | PatchPhase::TrapClose { .. } => true,
        _ => false,
    }
}

/// What may be writable.
spec fn open(now: Patching) -> Set<int> {
    let p = now.patcher;
    let code = if code_open(p) {
        region(p.request.addr, p.request.len)
    } else {
        Set::empty()
    };
    match p.phase {
        PatchPhase::End(_) => if p.known {
            trampoline_of(p)
        } else {
            Set::empty()
        },
        PatchPhase::TrapOpen { close }
        | PatchPhase::TrapRead { close }
        | PatchPhase::TrapRewrite { close }
        | PatchPhase::TrapWrite { close }
        | PatchPhase::TrapClose { close } => if close {
            code.union(trampoline_of(p))
        } else {
            code
        },
        _ => code.union(held(now)),
    }
}

/// What is known of the segment's text in each phase.
spec fn text_ok(p: Patcher, w: PatchWorld) -> bool {
    match p.phase {
        PatchPhase::Rewrite => w.buffer is Original && w.code is Original,
        PatchPhase::FinalizeStubs { .. }
        | PatchPhase::Expand { .. }
        | PatchPhase::WriteStubs { .. } => w.buffer is Branching && w.code is Original,
        PatchPhase::WriteCode { .. } => w.buffer is Branching && w.code is Original && w.stubs,
        PatchPhase::WriteTraps => w.buffer is Trapping && w.code is Original,
        PatchPhase::RevertCode { failure, .. } => failure is CodeWrite || failure is TrapBytesWrite,
        PatchPhase::CloseCode(o) | PatchPhase::CloseTrampoline(o) | PatchPhase::End(o) => match o {
            Outcome::Usable => is_settled(p, w),
            Outcome::Unusable => w.code is Original,
            Outcome::Fatal(f) => match f {
                PatchFailure::TrapWrite
                | PatchFailure::TrapBytesWrite
                | PatchFailure::CodeWrite => true,
                PatchFailure::TrapRestore => w.code is Trapping,
                _ => w.code is Original,
            },
        },
        PatchPhase::TrapWrite { .. } => w.buffer is Trapping && w.code is Original,
        PatchPhase::TrapClose { .. } => w.code is Trapping,
        _ => w.code is Original,
    }
}

/// Whether the text of the segment can run: it is what it was, or traps, or
/// branches to stubs that are in place.
pub open spec fn is_settled(p: Patcher, w: PatchWorld) -> bool {
    match w.code {
        Text::Original | Text::Trapping => true,
        Text::Branching => w.stubs && p.trampoline.committed && p.trampoline.cursor
            <= p.trampoline.mapped_len,
        Text::Torn => false,
    }
}

/// Whether the pending action is the one that the phase waits for.
spec fn asked(now: Patching) -> bool {
    let p = now.patcher;
    let t = p.trampoline;
    match p.phase {
        PatchPhase::CheckRange => now.action is CheckRange,
        PatchPhase::MapFixed => now.action == (PatchAction::MapFresh {
            place: Placement::Fixed(t.addr),
            len: p.staged_len(),
        }),
        PatchPhase::ReadTrampoline => now.action is ReadTrampoline,
        PatchPhase::FinalizeStaged
        | PatchPhase::FinalizeStubs { .. } => now.action is FinalizeGates,
        PatchPhase::WriteStaged
        | PatchPhase::WriteStubs { .. } => now.action matches PatchAction::Write { from, .. }
            && from is Stubs,
        PatchPhase::ProtectStaged => now.action == (PatchAction::Protect {
            addr: t.addr,
            len: p.staged_len(),
            prot: ProtFlags::rx(),
        }),
        PatchPhase::GiveUp
        | PatchPhase::DropPreferred
        | PatchPhase::DropAnywhere
        | PatchPhase::DropPage
        | PatchPhase::DropReservation
        | PatchPhase::DropExpansion => now.action is Unmap,
        PatchPhase::MapPreferred => now.action == (PatchAction::MapFresh {
            place: Placement::FixedNoReplace(t.addr),
            len: p.wanted_len(),
        }),
        PatchPhase::MapAnywhere => now.action == (PatchAction::MapFresh {
            place: Placement::Anywhere,
            len: p.wanted_len(),
        }),
        PatchPhase::MapPage => now.action == (PatchAction::MapFresh {
            place: Placement::FixedNoReplace(t.addr),
            len: PAGE_SIZE,
        }),
        PatchPhase::Expand { start, needed, .. } => now.action == (PatchAction::MapFresh {
            place: Placement::FixedNoReplace(start),
            len: (needed - t.mapped_len) as usize,
        }),
        PatchPhase::WriteEntry { .. } => now.action is WriteEntry,
        PatchPhase::OpenTrampoline => now.action == (PatchAction::Protect {
            addr: t.addr,
            len: t.mapped_len,
            prot: ProtFlags::rw(),
        }),
        PatchPhase::CloseTrampoline(_) => now.action == (PatchAction::Protect {
            addr: t.addr,
            len: t.mapped_len,
            prot: ProtFlags::rx(),
        }),
        PatchPhase::OpenCode | PatchPhase::TrapOpen { .. } => now.action == (PatchAction::Protect {
            addr: p.request.addr,
            len: p.request.len,
            prot: ProtFlags::rw(),
        }),
        PatchPhase::CloseCode(_) | PatchPhase::TrapClose { .. } => now.action == (
        PatchAction::Protect {
            addr: p.request.addr,
            len: p.request.len,
            prot: ProtFlags::rx(),
        }),
        PatchPhase::ReadCode | PatchPhase::TrapRead { .. } => now.action is ReadCode,
        PatchPhase::Rewrite => now.action is Rewrite,
        PatchPhase::TrapRewrite { .. } => now.action is TrapAll,
        PatchPhase::WriteCode { .. } | PatchPhase::WriteTraps | PatchPhase::TrapWrite { .. } => {
            now.action == (PatchAction::Write { addr: p.request.addr, from: Buffer::Code })
        },
        PatchPhase::RevertCode { .. } => now.action == (PatchAction::Write {
            addr: p.request.addr,
            from: Buffer::Original,
        }),
        PatchPhase::End(o) => now.action == PatchAction::Finish(o),
    }
}

/// What each phase says of the trampoline.
spec fn trampoline_ok(p: Patcher) -> bool {
    let t = p.trampoline;
    &&& t.mapped ==> t.addr + t.mapped_len <= usize::MAX
    &&& match p.phase {
        PatchPhase::CheckRange
        | PatchPhase::MapFixed
        | PatchPhase::ReadTrampoline
        | PatchPhase::FinalizeStaged
        | PatchPhase::WriteStaged
        | PatchPhase::ProtectStaged => !t.mapped && t.addr + p.staged_len() <= usize::MAX || (
        p.phase is CheckRange || p.phase is MapFixed) && !t.mapped,
        PatchPhase::GiveUp
        | PatchPhase::MapPreferred
        | PatchPhase::DropPreferred
        | PatchPhase::MapAnywhere
        | PatchPhase::DropAnywhere
        | PatchPhase::MapPage
        | PatchPhase::DropPage
        | PatchPhase::DropReservation => !t.mapped,
        PatchPhase::WriteEntry { len } => !t.mapped && t.addr + len <= usize::MAX,
        PatchPhase::TrapOpen { close }
        | PatchPhase::TrapRead { close }
        | PatchPhase::TrapRewrite { close }
        | PatchPhase::TrapWrite { close }
        | PatchPhase::TrapClose { close } => t.mapped == close && (close ==> !p.known),
        PatchPhase::Expand { cursor, start, needed } => t.mapped && !p.known && start == t.addr
            + t.mapped_len && needed > t.mapped_len && cursor <= needed,
        PatchPhase::WriteStubs { cursor } | PatchPhase::WriteCode { cursor } => t.mapped && !p.known
            && cursor <= t.mapped_len,
        PatchPhase::FinalizeStubs { stubs } => t.mapped && !p.known && t.cursor + stubs + PAGE_SIZE
            <= usize::MAX,
        PatchPhase::End(o) => o is Unusable ==> !t.mapped || t.invalidated,
        PatchPhase::CloseTrampoline(o) | PatchPhase::CloseCode(o) => t.mapped && !p.known
            && !(o is Unusable),
        _ => t.mapped && !p.known,
    }
}

/// What holds between any two steps.
spec fn inv(now: Patching, w: PatchWorld) -> bool {
    &&& now.patcher.wf()
    &&& asked(now)
    &&& trampoline_ok(now.patcher)
    &&& w.live.subset_of(held(now))
    &&& !ends_badly(now.patcher) ==> w.writable.subset_of(open(now))
    &&& text_ok(now.patcher, w)
}

/// Whether the run has ended where memory could not be put in order.
spec fn ends_badly(p: Patcher) -> bool {
    p.phase matches PatchPhase::End(Outcome::Fatal(_))
}

/// How far the patcher is from its end, at most.
pub open spec fn rank(phase: PatchPhase) -> nat {
    match phase {
        PatchPhase::CheckRange | PatchPhase::MapPreferred => 28,
        PatchPhase::MapFixed | PatchPhase::DropPreferred => 27,
        PatchPhase::ReadTrampoline | PatchPhase::MapAnywhere => 26,
        PatchPhase::FinalizeStaged | PatchPhase::DropAnywhere => 25,
        PatchPhase::WriteStaged | PatchPhase::MapPage => 24,
        PatchPhase::ProtectStaged | PatchPhase::DropPage => 23,
        PatchPhase::GiveUp | PatchPhase::WriteEntry { .. } => 22,
        PatchPhase::DropReservation | PatchPhase::OpenTrampoline => 21,
        PatchPhase::OpenCode => 20,
        PatchPhase::ReadCode => 19,
        PatchPhase::Rewrite => 18,
        PatchPhase::FinalizeStubs { .. } => 17,
        PatchPhase::Expand { .. } => 16,
        PatchPhase::DropExpansion => 15,
        PatchPhase::WriteStubs { .. } => 14,
        PatchPhase::WriteCode { .. } | PatchPhase::WriteTraps => 13,
        PatchPhase::RevertCode { .. } => 12,
        PatchPhase::TrapOpen { .. } => 7,
        PatchPhase::TrapRead { .. } => 6,
        PatchPhase::TrapRewrite { .. } => 5,
        PatchPhase::TrapWrite { .. } => 4,
        PatchPhase::TrapClose { .. } => 3,
        PatchPhase::CloseCode(_) => 2,
        PatchPhase::CloseTrampoline(_) => 1,
        PatchPhase::End(_) => 0,
    }
}

/// Room that was made for stubs holds them.
proof fn room_holds(cursor: usize)
    requires
        cursor + PAGE_SIZE <= usize::MAX,
    ensures
        cursor <= align_up_spec(cursor, PAGE_SIZE) < cursor + PAGE_SIZE,
{
    reveal(align_up_spec);
    ceil_to_is_least_multiple(cursor as int, PAGE_SIZE as int);
}

/// The first action keeps the invariant.
proof fn inv_first(request: PatchRequest, state: Option<PatchView>)
    requires
        request.wf(),
        state matches Some(s) ==> s.trampoline.mapped ==> s.trampoline.addr
            + s.trampoline.mapped_len <= usize::MAX,
    ensures
        inv(Patcher::first(request, state), PatchWorld::untouched()),
{
}

/// Whether a step keeps the invariant and brings the end nearer.
spec fn keeps(now: Patching, next: Patching, v: PatchWorld) -> bool {
    &&& inv(next, v)
    &&& rank(next.patcher.phase) < rank(now.patcher.phase)
    &&& next.patcher.request == now.patcher.request
    &&& next.patcher.known == now.patcher.known
}

proof fn keeps_staged(now: Patching, w: PatchWorld, ok: bool)
    requires
        inv(now, w),
        now.patcher.phase is CheckRange || now.patcher.phase is ReadTrampoline
            || now.patcher.phase is FinalizeStaged || now.patcher.phase is WriteStaged
            || now.patcher.phase is ProtectStaged || now.patcher.phase is GiveUp,
    ensures
        keeps(now, now.patcher.after_staged(ok), w.step(now.action, PatchEvent::Status(ok))),
{
    reveal(Patcher::after_staged);
}

proof fn keeps_reserved(now: Patching, w: PatchWorld, ok: bool)
    requires
        inv(now, w),
        now.patcher.phase is DropPreferred || now.patcher.phase is DropAnywhere
            || now.patcher.phase is DropPage || now.patcher.phase is WriteEntry
            || now.patcher.phase is DropReservation,
    ensures
        keeps(now, now.patcher.after_reserved(ok), w.step(now.action, PatchEvent::Status(ok))),
{
    reveal(Patcher::after_reserved);
}

proof fn keeps_opened(now: Patching, w: PatchWorld, ok: bool)
    requires
        inv(now, w),
        now.patcher.phase is OpenTrampoline || now.patcher.phase is OpenCode
            || now.patcher.phase is ReadCode,
    ensures
        keeps(now, now.patcher.after_opened(ok), w.step(now.action, PatchEvent::Status(ok))),
{
    reveal(Patcher::after_opened);
}

proof fn keeps_rewritten(now: Patching, w: PatchWorld, ok: bool)
    requires
        inv(now, w),
        now.patcher.phase is FinalizeStubs || now.patcher.phase is DropExpansion
            || now.patcher.phase is WriteStubs || now.patcher.phase is WriteCode
            || now.patcher.phase is WriteTraps || now.patcher.phase is RevertCode
            || now.patcher.phase is CloseCode || now.patcher.phase is CloseTrampoline,
    ensures
        keeps(now, now.patcher.after_rewritten(ok), w.step(now.action, PatchEvent::Status(ok))),
{
    reveal(Patcher::after_rewritten);
    match now.patcher.phase {
        PatchPhase::FinalizeStubs { stubs } => {
            room_holds((now.patcher.trampoline.cursor + stubs) as usize);
        },
        _ => {},
    }
}

proof fn keeps_trapped(now: Patching, w: PatchWorld, ok: bool)
    requires
        inv(now, w),
        now.patcher.phase is TrapOpen || now.patcher.phase is TrapRead
            || now.patcher.phase is TrapRewrite || now.patcher.phase is TrapWrite
            || now.patcher.phase is TrapClose,
    ensures
        keeps(now, now.patcher.after_trapped(ok), w.step(now.action, PatchEvent::Status(ok))),
{
    reveal(Patcher::after_trapped);
}

proof fn keeps_map(now: Patching, w: PatchWorld, at: Option<usize>)
    requires
        inv(now, w),
        now.patcher.accepts(PatchEvent::Mapped(at)),
        plausible(now, PatchEvent::Mapped(at)),
    ensures
        keeps(now, now.patcher.after_map(at), w.step(now.action, PatchEvent::Mapped(at))),
{
    reveal(Patcher::after_map);
}

proof fn keeps_rewrite(now: Patching, w: PatchWorld, made: Option<Rewritten>)
    requires
        inv(now, w),
        now.patcher.accepts(PatchEvent::Rewritten(made)),
        plausible(now, PatchEvent::Rewritten(made)),
    ensures
        keeps(
            now,
            now.patcher.after_rewrite(made),
            w.step(now.action, PatchEvent::Rewritten(made)),
        ),
{
    reveal(Patcher::after_rewrite);
    match made {
        Some(r) => {
            room_holds((now.patcher.trampoline.cursor + r.stubs) as usize);
        },
        None => {},
    }
}

/// Every answer keeps the invariant and brings the end nearer.
proof fn inv_next(now: Patching, w: PatchWorld, event: PatchEvent)
    requires
        inv(now, w),
        now.patcher.accepts(event),
        plausible(now, event),
    ensures
        keeps(now, now.patcher.next(event), w.step(now.action, event)),
{
    match event {
        PatchEvent::Mapped(at) => keeps_map(now, w, at),
        PatchEvent::Rewritten(made) => keeps_rewrite(now, w, made),
        PatchEvent::Status(ok) => match now.patcher.phase {
            PatchPhase::CheckRange
            | PatchPhase::ReadTrampoline
            | PatchPhase::FinalizeStaged
            | PatchPhase::WriteStaged
            | PatchPhase::ProtectStaged
            | PatchPhase::GiveUp => keeps_staged(now, w, ok),
            PatchPhase::DropPreferred
            | PatchPhase::DropAnywhere
            | PatchPhase::DropPage
            | PatchPhase::WriteEntry { .. }
            | PatchPhase::DropReservation => keeps_reserved(now, w, ok),
            PatchPhase::OpenTrampoline | PatchPhase::OpenCode | PatchPhase::ReadCode => {
                keeps_opened(now, w, ok)
            },
            PatchPhase::TrapOpen { .. }
            | PatchPhase::TrapRead { .. }
            | PatchPhase::TrapRewrite { .. }
            | PatchPhase::TrapWrite { .. }
            | PatchPhase::TrapClose { .. } => keeps_trapped(now, w, ok),
            _ => keeps_rewritten(now, w, ok),
        },
    }
}

/// The invariant holds after any run, which is no longer than the rank of its
/// start.
proof fn run_keeps(now: Patching, w: PatchWorld, events: Seq<PatchEvent>)
    requires
        inv(now, w),
        is_run(now, events),
    ensures
        inv(after(now, w, events).0, after(now, w, events).1),
        events.len() + rank(after(now, w, events).0.patcher.phase) <= rank(now.patcher.phase),
        after(now, w, events).0.patcher.known == now.patcher.known,
    decreases events.len(),
{
    if events.len() > 0 {
        inv_next(now, w, events[0]);
        run_keeps(
            now.patcher.next(events[0]),
            w.step(now.action, events[0]),
            events.drop_first(),
        );
    }
}

/// Whether the trampoline of the state lies within the address space.
pub open spec fn sound(state: Option<PatchView>) -> bool {
    state matches Some(s) ==> s.trampoline.mapped ==> s.trampoline.addr
        + s.trampoline.mapped_len <= usize::MAX
}

/// The patcher and the world after a run from the start.
pub open spec fn outcome_of(
    request: PatchRequest,
    state: Option<PatchView>,
    events: Seq<PatchEvent>,
) -> (Patching, PatchWorld) {
    after(Patcher::first(request, state), PatchWorld::untouched(), events)
}

/// Patching ends: however the host answers, it asks for no more than
/// twenty-eight actions before the one that ends it.
pub proof fn patching_ends(
    request: PatchRequest,
    state: Option<PatchView>,
    events: Seq<PatchEvent>,
)
    requires
        request.wf(),
        sound(state),
        is_run(Patcher::first(request, state), events),
    ensures
        events.len() <= 28,
        events.len() == 28 ==> outcome_of(request, state, events).0.action is Finish,
{
    inv_first(request, state);
    run_keeps(Patcher::first(request, state), PatchWorld::untouched(), events);
}

/// No memory stays both writable and reachable: where patching ends without a
/// failure, everything that it made writable has been made executable again or
/// unmapped. Only where the segment had been patched before, and its
/// trampoline had to be mapped anew, is that trampoline left writable.
pub proof fn patching_leaves_nothing_writable(
    request: PatchRequest,
    state: Option<PatchView>,
    events: Seq<PatchEvent>,
)
    requires
        request.wf(),
        sound(state),
        is_run(Patcher::first(request, state), events),
    ensures
        ({
            let (end, world) = outcome_of(request, state, events);
            end.action matches PatchAction::Finish(o) && !(o is Fatal) ==> {
                &&& !end.patcher.known ==> world.writable =~= Set::empty()
                &&& end.patcher.known ==> world.writable.subset_of(
                    region(end.patcher.trampoline.addr, end.patcher.trampoline.mapped_len),
                )
            }
        }),
{
    inv_first(request, state);
    run_keeps(Patcher::first(request, state), PatchWorld::untouched(), events);
}

/// Patching leaks no memory: where the mapping is refused, all that was mapped
/// for the trampoline has been unmapped; otherwise what is left lies within the
/// trampoline that the file's state speaks of.
pub proof fn patching_leaks_nothing(
    request: PatchRequest,
    state: Option<PatchView>,
    events: Seq<PatchEvent>,
)
    requires
        request.wf(),
        sound(state),
        is_run(Patcher::first(request, state), events),
    ensures
        ({
            let (end, world) = outcome_of(request, state, events);
            let t = end.patcher.trampoline;
            end.action matches PatchAction::Finish(o) ==> {
                &&& o is Unusable ==> world.live =~= Set::empty()
                &&& !t.mapped ==> world.live =~= Set::empty()
                &&& world.live.subset_of(region(t.addr, t.mapped_len))
            }
        }),
{
    inv_first(request, state);
    run_keeps(Patcher::first(request, state), PatchWorld::untouched(), events);
}

/// Code never leads nowhere: where patching ends with a usable segment, the
/// segment holds what it held, or traps, or branches to stubs that were written
/// to the trampoline before it and lie within what is mapped of it. Where the
/// mapping is refused, the segment is untouched.
pub proof fn usable_code_is_settled(
    request: PatchRequest,
    state: Option<PatchView>,
    events: Seq<PatchEvent>,
)
    requires
        request.wf(),
        sound(state),
        is_run(Patcher::first(request, state), events),
    ensures
        ({
            let (end, world) = outcome_of(request, state, events);
            &&& end.action == PatchAction::Finish(Outcome::Usable) ==> is_settled(
                end.patcher,
                world,
            )
            &&& end.action == PatchAction::Finish(Outcome::Unusable) ==> world.code is Original
        }),
{
    inv_first(request, state);
    run_keeps(Patcher::first(request, state), PatchWorld::untouched(), events);
}

/// The stubs are in the trampoline whenever the patcher asks for branching code
/// to be written.
pub proof fn stubs_precede_code(
    request: PatchRequest,
    state: Option<PatchView>,
    events: Seq<PatchEvent>,
)
    requires
        request.wf(),
        sound(state),
        is_run(Patcher::first(request, state), events),
    ensures
        ({
            let (end, world) = outcome_of(request, state, events);
            end.action matches PatchAction::Write { from, .. } && from is Code && (
            world.buffer is Branching) ==> world.stubs
        }),
{
    inv_first(request, state);
    run_keeps(Patcher::first(request, state), PatchWorld::untouched(), events);
}

/// Code that was patched is not patched twice: with its trampoline in place,
/// a segment that counts as patched needs no action at all.
pub proof fn patched_code_is_left_alone(request: PatchRequest, state: PatchView)
    requires
        state.patched_ranges.contains((request.addr, request.len)),
        state.trampoline.mapped,
        !(request.arch == Arch::Aarch64 && state.trampoline.invalidated),
    ensures
        Patcher::first(request, Some(state)).action == PatchAction::Finish(Outcome::Usable),
        Patcher::first(request, Some(state)).patcher.leaves(state) =~= state,
{
}

/// A file whose code is not patched is none of the patcher's business.
pub proof fn unknown_file_is_usable(request: PatchRequest)
    ensures
        Patcher::first(request, None).action == PatchAction::Finish(Outcome::Usable),
{
}

/// A reservation is sought at the preferred place, then anywhere, then once
/// more at the preferred place for a single page; where all fail, each syscall
/// is replaced with a trap instead.
pub proof fn reservation_is_sought_in_order(request: PatchRequest, state: PatchView)
    requires
        request.wf(),
        !state.trampoline.mapped,
        !state.trampoline.pre_patched,
        !(request.arch == Arch::Aarch64 && state.trampoline.invalidated),
    ensures
        ({
            let t = state.trampoline;
            let failed = PatchEvent::Mapped(None);
            let first = Patcher::first(request, Some(state));
            let wanted = first.patcher.wanted_len();
            let second = first.patcher.next(failed);
            let third = second.patcher.next(failed);
            let trap = PatchAction::Protect {
                addr: request.addr,
                len: request.len,
                prot: ProtFlags::rw(),
            };
            &&& first.action == (PatchAction::MapFresh {
                place: Placement::FixedNoReplace(t.addr),
                len: wanted,
            })
            &&& second.action == (PatchAction::MapFresh {
                place: Placement::Anywhere,
                len: wanted,
            })
            &&& wanted > PAGE_SIZE ==> third.action == (PatchAction::MapFresh {
                place: Placement::FixedNoReplace(t.addr),
                len: PAGE_SIZE,
            }) && third.patcher.next(failed).action == trap
            &&& wanted <= PAGE_SIZE ==> third.action == trap
        }),
{
    reveal(Patcher::after_map);
}

} // verus!
