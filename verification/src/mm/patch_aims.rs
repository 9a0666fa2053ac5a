//! What patching a segment is for: no syscall of a usable segment gets past the
//! library.

use vstd::prelude::*;

use crate::arith::{align_up_spec, ceil_to_is_least_multiple, wrap_add, PAGE_SIZE};
use crate::flags::{Arch, ProtFlags};
use crate::mm::elf_patch::{PatchView, Trampoline};
use crate::mm::patch_exec::{
    Buffer, Outcome, PatchAction, PatchEvent, PatchPhase, PatchRequest, Patcher, Patching,
    Placement, Rewritten,
};
use crate::mm::patch_laws::is_run;
use crate::mm::range_set::mapping_end;

verus! {

/// What was made of the code of a segment.
pub enum Treatment {
    /// Nothing that is known.
    Untreated,
    /// It was read whole, as it is in memory.
    Read,
    /// The rewriter went through it: what it made, where the code expects the
    /// stubs, and where it expects the entry point.
    Rewritten { made: Rewritten, stubs_vaddr: u64, entry_vaddr: u64 },
    /// Each syscall was replaced with a trap.
    Trapped,
}

/// What a run has done for a segment.
pub struct PatchLog {
    /// What was made of the code in the host's buffer, and in memory.
    pub buffer: Treatment,
    pub memory: Treatment,
    /// What the host's buffer for stubs was read from, if it was a file: the
    /// descriptor, the place, the length, and the entry point that was put in.
    pub staged: Option<(i32, u64, usize, Option<usize>)>,
    /// Whether the gates in that buffer find the thread pointer.
    pub finalized: bool,
    /// Where that buffer was written to.
    pub put: Option<usize>,
    /// The last word that was written for an entry point, and where.
    pub entry: Option<(usize, usize)>,
    /// The last range that a trampoline may replace.
    pub checked: Option<(usize, usize)>,
    /// The last range that became executable.
    pub sealed: Option<(usize, usize)>,
    /// Whether something that was asked for was not done.
    pub failed: bool,
}

impl PatchLog {
    /// Nothing has been done.
    pub open spec fn blank() -> PatchLog {
        PatchLog {
            buffer: Treatment::Untreated,
            memory: Treatment::Untreated,
            staged: None,
            finalized: false,
            put: None,
            entry: None,
            checked: None,
            sealed: None,
            failed: false,
        }
    }

    /// What has been done once an action has been answered.
    pub open spec fn step(
        self,
        request: PatchRequest,
        action: PatchAction,
        event: PatchEvent,
    ) -> PatchLog {
        let log = PatchLog {
            failed: self.failed || event == PatchEvent::Status(false) || event
                == PatchEvent::Mapped(None) || event == PatchEvent::Rewritten(None),
            ..self
        };
        match (action, event) {
            (PatchAction::ReadCode { addr, len }, PatchEvent::Status(true)) => PatchLog {
                buffer: if addr == request.addr && len == request.len {
                    Treatment::Read
                } else {
                    Treatment::Untreated
                },
                ..log
            },
            (
                PatchAction::Rewrite { code_vaddr, stubs_vaddr, entry_vaddr, .. },
                PatchEvent::Rewritten(Some(made)),
            ) => {
                let treated = if log.buffer is Read && code_vaddr == request.addr {
                    Treatment::Rewritten { made, stubs_vaddr, entry_vaddr }
                } else {
                    Treatment::Untreated
                };
                PatchLog {
                    buffer: treated,
                    memory: if made.stubs == 0 && !made.changed {
                        treated
                    } else {
                        log.memory
                    },
                    staged: None,
                    finalized: false,
                    put: None,
                    ..log
                }
            },
            (PatchAction::Rewrite { .. }, _) => PatchLog { buffer: Treatment::Untreated, ..log },
            (PatchAction::TrapAll { code_vaddr, .. }, PatchEvent::Status(true)) => PatchLog {
                buffer: if log.buffer is Read && code_vaddr == request.addr {
                    Treatment::Trapped
                } else {
                    Treatment::Untreated
                },
                ..log
            },
            (PatchAction::Write { addr, from: Buffer::Code }, PatchEvent::Status(ok)) => PatchLog {
                memory: if ok && addr == request.addr {
                    log.buffer
                } else {
                    Treatment::Untreated
                },
                ..log
            },
            (PatchAction::Write { from: Buffer::Original, .. }, _) => PatchLog {
                memory: Treatment::Untreated,
                ..log
            },
            (PatchAction::Write { addr, from: Buffer::Stubs }, PatchEvent::Status(true)) => {
                PatchLog { put: Some(addr), ..log }
            },
            (PatchAction::FinalizeGates, PatchEvent::Status(true)) => PatchLog {
                finalized: true,
                ..log
            },
            (
                PatchAction::ReadTrampoline { fd, offset, len, entry },
                PatchEvent::Status(true),
            ) => PatchLog {
                staged: Some((fd, offset, len, entry)),
                finalized: false,
                put: None,
                ..log
            },
            (PatchAction::WriteEntry { addr, value }, PatchEvent::Status(true)) => PatchLog {
                entry: Some((addr, value)),
                ..log
            },
            (PatchAction::CheckRange { start, len }, PatchEvent::Status(true)) => PatchLog {
                checked: Some((start, len)),
                ..log
            },
            (PatchAction::Protect { addr, len, prot }, PatchEvent::Status(true)) => PatchLog {
                sealed: if prot.execute && prot.read && !prot.write {
                    Some((addr, len))
                } else {
                    None
                },
                ..log
            },
            _ => log,
        }
    }
}

/// The patcher after these answers, and what was done.
pub open spec fn logged(
    request: PatchRequest,
    now: Patching,
    log: PatchLog,
    events: Seq<PatchEvent>,
) -> (Patching, PatchLog)
    decreases events.len(),
{
    if events.len() == 0 {
        (now, log)
    } else {
        logged(
            request,
            now.patcher.next(events[0]),
            log.step(request, now.action, events[0]),
            events.drop_first(),
        )
    }
}

/// The patcher after these answers, and what was done for the segment.
pub open spec fn done_for(request: PatchRequest, state: PatchView, events: Seq<PatchEvent>) -> (
    Patching,
    PatchLog,
) {
    logged(request, Patcher::first(request, Some(state)), PatchLog::blank(), events)
}

/// Whether no syscall of the segment gets past the library: the rewriter went
/// through the whole segment, and what it made of it is in memory, with the
/// stubs in the place where the code expects them; or each syscall is a trap.
pub open spec fn is_tamed(request: PatchRequest, log: PatchLog) -> bool {
    match log.memory {
        Treatment::Rewritten { made, stubs_vaddr, .. } => made.stubs > 0 ==> {
            &&& log.put matches Some(at) && at == stubs_vaddr
            &&& log.staged is None
            &&& request.arch == Arch::Aarch64 ==> log.finalized
        },
        Treatment::Trapped => true,
        _ => false,
    }
}

/// What patching never changes of a trampoline.
spec fn keeps_facts(a: Trampoline, b: Trampoline) -> bool {
    &&& a.pre_patched == b.pre_patched
    &&& a.file_offset == b.file_offset
    &&& a.file_size == b.file_size
    &&& a.load_span == b.load_span
    &&& a.invalidated == b.invalidated
    &&& a.scanned == b.scanned
    &&& a.capacity == b.capacity
    &&& a.mapped ==> b.mapped && a.addr == b.addr && a.mapped_len <= b.mapped_len
    &&& a.committed ==> b.committed
}

/// Whether the trampoline was there before, or was put in reach with its entry
/// point.
spec fn is_placed(state: PatchView, p: Patcher, log: PatchLog) -> bool {
    &&& p.trampoline.mapped
    &&& state.trampoline.mapped || {
        &&& p.request.reaches(p.trampoline.addr)
        &&& p.request.limits.entry_point_bytes != 0 ==> log.entry == Some(
            (p.trampoline.addr, p.request.entry),
        )
    }
}

/// Where a segment's stubs begin, as far as they are known not to lie on others.
spec fn lowest(state: PatchView, p: Patcher) -> int {
    if state.trampoline.mapped {
        state.trampoline.cursor as int
    } else {
        p.request.limits.entry_point_bytes as int
    }
}

/// Where the code expects the entry point to be found.
spec fn entry_place(p: Patcher) -> u64 {
    if p.request.limits.entry_point_bytes != 0 {
        p.trampoline.addr as u64
    } else {
        p.request.entry as u64
    }
}

spec fn is_rewritten(p: Patcher, seen: Treatment, stubs: usize, at: usize) -> bool {
    seen matches Treatment::Rewritten { made, stubs_vaddr, entry_vaddr } && made.stubs == stubs
        && stubs_vaddr == at && entry_vaddr == entry_place(p)
}

/// Whether the segment is done with, so that only protection is left.
spec fn is_over(state: PatchView, p: Patcher, log: PatchLog) -> bool {
    ||| {
        &&& p.noted
        &&& is_placed(state, p, log)
        &&& is_tamed(p.request, log)
        &&& match log.memory {
            Treatment::Rewritten { made, stubs_vaddr, entry_vaddr } => {
                &&& made.stubs > 0 ==> {
                    &&& p.trampoline.committed
                    &&& p.trampoline.cursor >= made.stubs
                    &&& stubs_vaddr == wrap_add(
                        p.trampoline.addr,
                        (p.trampoline.cursor - made.stubs) as usize,
                    )
                    &&& state_allows(state, p) ==> p.trampoline.cursor - made.stubs >= lowest(
                        state,
                        p,
                    )
                }
                &&& made.stubs == 0 ==> p.trampoline.committed == state.trampoline.committed
                &&& entry_vaddr == entry_place(p)
            },
            _ => p.trampoline.committed == state.trampoline.committed,
        }
    }
    ||| {
        &&& !p.noted
        &&& !p.trampoline.mapped
        &&& log.memory is Trapped
        &&& p.trampoline.committed == state.trampoline.committed
    }
}

/// Whether no cursor of the trampoline wraps when it is aligned.
spec fn state_allows(state: PatchView, p: Patcher) -> bool {
    lowest(state, p) + p.request.limits.cursor_align <= usize::MAX
}

spec fn is_sought(state: PatchView, p: Patcher, log: PatchLog) -> bool {
    &&& !p.trampoline.mapped
    &&& !p.noted
    &&& !(log.memory is Rewritten)
    &&& p.trampoline.committed == state.trampoline.committed
}

spec fn is_worked_on(state: PatchView, p: Patcher, log: PatchLog) -> bool {
    &&& p.noted
    &&& !p.known
    &&& is_placed(state, p, log)
    &&& p.trampoline.committed == state.trampoline.committed
}

spec fn is_aligned(state: PatchView, p: Patcher) -> bool {
    state_allows(state, p) ==> p.trampoline.cursor >= lowest(state, p)
}

spec fn is_staging(state: PatchView, p: Patcher, log: PatchLog) -> bool {
    &&& p.trampoline == state.trampoline
    &&& !p.trampoline.mapped
    &&& p.trampoline.file_size > 0
    &&& !p.noted
    &&& log.memory is Untreated
}

spec fn is_staged(p: Patcher, log: PatchLog) -> bool {
    &&& log.staged == Some(
        (
            p.request.fd,
            p.trampoline.file_offset,
            p.trampoline.file_size,
            if p.trampoline.file_size >= 8 {
                Some(p.request.entry)
            } else {
                None
            },
        ),
    )
    &&& p.request.arch == Arch::Aarch64 ==> log.checked == Some(
        (p.trampoline.addr, align_up_spec(p.trampoline.file_size, PAGE_SIZE)),
    )
}

spec fn aim_staged(state: PatchView, now: Patching, log: PatchLog) -> bool {
    let p = now.patcher;
    let t = p.trampoline;
    let len = align_up_spec(t.file_size, PAGE_SIZE);
    match p.phase {
        PatchPhase::CheckRange => {
            &&& is_staging(state, p, log)
            &&& now.action == (PatchAction::CheckRange { start: t.addr, len })
        },
        PatchPhase::MapFixed => {
            &&& is_staging(state, p, log)
            &&& now.action == (PatchAction::MapFresh { place: Placement::Fixed(t.addr), len })
            &&& p.request.arch == Arch::Aarch64 ==> log.checked == Some((t.addr, len))
        },
        PatchPhase::ReadTrampoline => {
            &&& is_staging(state, p, log)
            &&& p.request.arch == Arch::Aarch64 ==> log.checked == Some((t.addr, len))
            &&& now.action == (PatchAction::ReadTrampoline {
                fd: p.request.fd,
                offset: t.file_offset,
                len: t.file_size,
                entry: if t.file_size >= 8 {
                    Some(p.request.entry)
                } else {
                    None
                },
            })
        },
        PatchPhase::FinalizeStaged => {
            &&& is_staging(state, p, log)
            &&& is_staged(p, log)
            &&& now.action == PatchAction::FinalizeGates
        },
        PatchPhase::WriteStaged => {
            &&& is_staging(state, p, log)
            &&& is_staged(p, log)
            &&& p.request.arch == Arch::Aarch64 ==> log.finalized
            &&& now.action == (PatchAction::Write { addr: t.addr, from: Buffer::Stubs })
        },
        PatchPhase::ProtectStaged => {
            &&& is_staging(state, p, log)
            &&& is_staged(p, log)
            &&& p.request.arch == Arch::Aarch64 ==> log.finalized
            &&& log.put == Some(t.addr)
            &&& now.action == (PatchAction::Protect { addr: t.addr, len, prot: ProtFlags::rx() })
        },
        PatchPhase::GiveUp => is_staging(state, p, log) && now.action is Unmap,
        PatchPhase::End(Outcome::Usable) => {
            &&& now.action == PatchAction::Finish(Outcome::Usable)
            &&& !p.noted
            &&& log.memory is Untreated
            &&& state.trampoline.mapped || state.trampoline.file_size == 0 ==> t
                == state.trampoline
            &&& !state.trampoline.mapped && state.trampoline.file_size != 0 ==> {
                &&& is_staged(p, log)
                &&& p.request.arch == Arch::Aarch64 ==> log.finalized
                &&& log.put == Some(t.addr)
                &&& log.sealed == Some((t.addr, len))
                &&& t == Trampoline { mapped: true, mapped_len: len, ..state.trampoline }
            }
        },
        PatchPhase::End(Outcome::Unusable) => {
            &&& now.action == PatchAction::Finish(Outcome::Unusable)
            &&& t == state.trampoline
            &&& !p.noted
            &&& log.memory is Untreated
        },
        _ => false,
    }
}

spec fn aim_patched(state: PatchView, now: Patching, log: PatchLog) -> bool {
    let p = now.patcher;
    let t = p.trampoline;
    let at = wrap_add(t.addr, t.cursor);
    match p.phase {
        PatchPhase::MapPreferred
        | PatchPhase::DropPreferred
        | PatchPhase::MapAnywhere
        | PatchPhase::DropAnywhere
        | PatchPhase::MapPage
        | PatchPhase::DropPage => {
            &&& is_sought(state, p, log)
            &&& t == state.trampoline
            &&& now.action is Unmap || (now.action is MapFresh && !(now.action->place is Fixed))
            &&& log.memory is Untreated
        },
        PatchPhase::DropReservation => is_sought(state, p, log) && now.action is Unmap
            && log.memory is Untreated,
        PatchPhase::WriteEntry { len } => {
            &&& is_sought(state, p, log)
            &&& log.memory is Untreated
            &&& p.request.reaches(t.addr)
            &&& p.request.limits.entry_point_bytes != 0
            &&& now.action == (PatchAction::WriteEntry { addr: t.addr, value: p.request.entry })
        },
        PatchPhase::OpenTrampoline | PatchPhase::OpenCode => {
            &&& is_worked_on(state, p, log)
            &&& now.action is Protect
            &&& log.memory is Untreated
            &&& t.cursor == lowest(state, p)
        },
        PatchPhase::ReadCode => {
            &&& is_worked_on(state, p, log)
            &&& now.action == (PatchAction::ReadCode { addr: p.request.addr, len: p.request.len })
            &&& log.memory is Untreated
            &&& t.cursor == lowest(state, p)
        },
        PatchPhase::Rewrite => {
            &&& is_worked_on(state, p, log)
            &&& is_aligned(state, p)
            &&& log.memory is Untreated
            &&& log.buffer is Read
            &&& now.action matches PatchAction::Rewrite {
                code_vaddr,
                stubs_vaddr,
                entry_vaddr,
                ..
            } && code_vaddr == p.request.addr && stubs_vaddr == at && entry_vaddr
                == entry_place(p)
        },
        PatchPhase::FinalizeStubs { stubs } => {
            &&& is_worked_on(state, p, log)
            &&& is_aligned(state, p)
            &&& log.memory is Untreated
            &&& stubs > 0
            &&& log.staged is None
            &&& is_rewritten(p, log.buffer, stubs, at)
            &&& now.action == PatchAction::FinalizeGates
        },
        PatchPhase::Expand { cursor, start, needed } => {
            &&& is_worked_on(state, p, log)
            &&& is_aligned(state, p)
            &&& log.memory is Untreated
            &&& cursor > t.cursor
            &&& log.staged is None
            &&& is_rewritten(p, log.buffer, (cursor - t.cursor) as usize, at)
            &&& p.request.arch == Arch::Aarch64 ==> log.finalized
            &&& needed > t.mapped_len
            &&& now.action is MapFresh && now.action->place == Placement::FixedNoReplace(start)
        },
        PatchPhase::DropExpansion => {
            &&& is_worked_on(state, p, log)
            &&& now.action is Unmap
        },
        PatchPhase::WriteStubs { cursor } => {
            &&& is_worked_on(state, p, log)
            &&& is_aligned(state, p)
            &&& log.memory is Untreated
            &&& cursor > t.cursor
            &&& log.staged is None
            &&& is_rewritten(p, log.buffer, (cursor - t.cursor) as usize, at)
            &&& p.request.arch == Arch::Aarch64 ==> log.finalized
            &&& now.action == (PatchAction::Write { addr: at, from: Buffer::Stubs })
        },
        PatchPhase::WriteCode { cursor } => {
            &&& is_worked_on(state, p, log)
            &&& is_aligned(state, p)
            &&& cursor > t.cursor
            &&& log.staged is None
            &&& is_rewritten(p, log.buffer, (cursor - t.cursor) as usize, at)
            &&& p.request.arch == Arch::Aarch64 ==> log.finalized
            &&& log.put == Some(at)
            &&& now.action == (PatchAction::Write { addr: p.request.addr, from: Buffer::Code })
        },
        PatchPhase::WriteTraps => {
            &&& is_worked_on(state, p, log)
            &&& is_rewritten(p, log.buffer, 0, at)
            &&& now.action == (PatchAction::Write { addr: p.request.addr, from: Buffer::Code })
        },
        PatchPhase::RevertCode { .. } => {
            &&& now.action == (PatchAction::Write { addr: p.request.addr, from: Buffer::Original })
            &&& log.failed
        },
        PatchPhase::TrapOpen { close } => {
            &&& !close
            &&& is_sought(state, p, log)
            &&& now.action is Protect
        },
        PatchPhase::TrapRead { close } => {
            &&& close ==> is_worked_on(state, p, log)
            &&& !close ==> is_sought(state, p, log)
            &&& now.action == (PatchAction::ReadCode { addr: p.request.addr, len: p.request.len })
        },
        PatchPhase::TrapRewrite { close } => {
            &&& close ==> is_worked_on(state, p, log)
            &&& !close ==> is_sought(state, p, log)
            &&& log.buffer is Read
            &&& now.action matches PatchAction::TrapAll { code_vaddr, .. } && code_vaddr
                == p.request.addr
        },
        PatchPhase::TrapWrite { close } => {
            &&& close ==> is_worked_on(state, p, log)
            &&& !close ==> is_sought(state, p, log)
            &&& log.buffer is Trapped
            &&& now.action == (PatchAction::Write { addr: p.request.addr, from: Buffer::Code })
        },
        PatchPhase::TrapClose { close } => {
            &&& close ==> is_worked_on(state, p, log)
            &&& !close ==> is_sought(state, p, log)
            &&& log.memory is Trapped
            &&& now.action == (PatchAction::Protect {
                addr: p.request.addr,
                len: p.request.len,
                prot: ProtFlags::rx(),
            })
        },
        PatchPhase::CloseCode(o) => {
            &&& now.action == (PatchAction::Protect {
                addr: p.request.addr,
                len: p.request.len,
                prot: ProtFlags::rx(),
            })
            &&& o is Usable ==> is_over(state, p, log) && p.noted
            &&& o is Fatal ==> log.failed
            &&& !(o is Unusable)
        },
        PatchPhase::CloseTrampoline(o) => {
            &&& now.action == (PatchAction::Protect {
                addr: t.addr,
                len: t.mapped_len,
                prot: ProtFlags::rx(),
            })
            &&& o is Usable ==> is_over(state, p, log) && p.noted
            &&& o is Fatal ==> log.failed
            &&& !(o is Unusable)
        },
        PatchPhase::End(o) => {
            &&& now.action == PatchAction::Finish(o)
            &&& o is Usable ==> is_over(state, p, log) || {
                &&& p.known
                &&& !p.noted
                &&& log.memory is Untreated
                &&& is_placed(state, p, log)
                &&& t.committed == state.trampoline.committed
            }
            &&& o is Fatal ==> log.failed
            &&& !(o is Unusable)
        },
        _ => false,
    }
}

spec fn aim(request: PatchRequest, state: PatchView, now: Patching, log: PatchLog) -> bool {
    &&& request.wf()
    &&& now.patcher.request == request
    &&& now.patcher.known == state.patched_ranges.contains((request.addr, request.len))
    &&& now.patcher.noted ==> !now.patcher.known
    &&& keeps_facts(state.trampoline, now.patcher.trampoline)
    &&& if state.trampoline.pre_patched {
        aim_staged(state, now, log)
    } else {
        aim_patched(state, now, log)
    }
}

proof fn aligned_cursor(cursor: usize, align: usize)
    requires
        crate::arith::is_pow2(align as int),
        cursor + align <= usize::MAX,
    ensures
        align_up_spec(cursor, align) >= cursor,
{
    reveal(align_up_spec);
    crate::arith::pow2_is_positive(align as int);
    ceil_to_is_least_multiple(cursor as int, align as int);
}

proof fn aim_first(request: PatchRequest, state: PatchView)
    requires
        request.wf(),
        !(request.arch == Arch::Aarch64 && state.trampoline.invalidated),
    ensures
        aim(request, state, Patcher::first(request, Some(state)), PatchLog::blank()),
{
}

proof fn aim_staged_next(
    request: PatchRequest,
    state: PatchView,
    now: Patching,
    log: PatchLog,
    event: PatchEvent,
)
    requires
        aim(request, state, now, log),
        state.trampoline.pre_patched,
        now.patcher.accepts(event),
    ensures
        aim(request, state, now.patcher.next(event), log.step(request, now.action, event)),
{
    reveal(Patcher::after_staged);
    reveal(Patcher::after_map);
}

proof fn aim_mapped_next(
    request: PatchRequest,
    state: PatchView,
    now: Patching,
    log: PatchLog,
    event: PatchEvent,
)
    requires
        aim(request, state, now, log),
        !state.trampoline.pre_patched,
        now.patcher.accepts(event),
        event is Mapped,
    ensures
        aim(request, state, now.patcher.next(event), log.step(request, now.action, event)),
{
    reveal(Patcher::after_map);
}

proof fn aim_rewrite_next(
    request: PatchRequest,
    state: PatchView,
    now: Patching,
    log: PatchLog,
    event: PatchEvent,
)
    requires
        aim(request, state, now, log),
        !state.trampoline.pre_patched,
        now.patcher.accepts(event),
        event is Rewritten,
    ensures
        aim(request, state, now.patcher.next(event), log.step(request, now.action, event)),
{
    reveal(Patcher::after_rewrite);
}

spec fn is_reserving(phase: PatchPhase) -> bool {
    match phase {
        PatchPhase::DropPreferred
        | PatchPhase::DropAnywhere
        | PatchPhase::DropPage
        | PatchPhase::WriteEntry { .. }
        | PatchPhase::DropReservation => true,
        _ => false,
    }
}

spec fn is_opening(phase: PatchPhase) -> bool {
    match phase {
        PatchPhase::OpenTrampoline | PatchPhase::OpenCode | PatchPhase::ReadCode => true,
        _ => false,
    }
}

spec fn is_trapping(phase: PatchPhase) -> bool {
    match phase {
        PatchPhase::TrapOpen { .. }
        | PatchPhase::TrapRead { .. }
        | PatchPhase::TrapRewrite { .. }
        | PatchPhase::TrapWrite { .. }
        | PatchPhase::TrapClose { .. } => true,
        _ => false,
    }
}

proof fn aim_reserved_next(
    request: PatchRequest,
    state: PatchView,
    now: Patching,
    log: PatchLog,
    ok: bool,
)
    requires
        aim(request, state, now, log),
        !state.trampoline.pre_patched,
        now.patcher.accepts(PatchEvent::Status(ok)),
        is_reserving(now.patcher.phase),
    ensures
        aim(
            request,
            state,
            now.patcher.next(PatchEvent::Status(ok)),
            log.step(request, now.action, PatchEvent::Status(ok)),
        ),
{
    reveal(Patcher::after_reserved);
}

proof fn aim_opened_next(
    request: PatchRequest,
    state: PatchView,
    now: Patching,
    log: PatchLog,
    ok: bool,
)
    requires
        aim(request, state, now, log),
        !state.trampoline.pre_patched,
        now.patcher.accepts(PatchEvent::Status(ok)),
        is_opening(now.patcher.phase),
    ensures
        aim(
            request,
            state,
            now.patcher.next(PatchEvent::Status(ok)),
            log.step(request, now.action, PatchEvent::Status(ok)),
        ),
{
    let p = now.patcher;
    reveal(Patcher::after_opened);
    if state_allows(state, p) && p.phase is ReadCode {
        aligned_cursor(p.trampoline.cursor, request.limits.cursor_align);
    }
}

proof fn aim_trapped_next(
    request: PatchRequest,
    state: PatchView,
    now: Patching,
    log: PatchLog,
    ok: bool,
)
    requires
        aim(request, state, now, log),
        !state.trampoline.pre_patched,
        now.patcher.accepts(PatchEvent::Status(ok)),
        is_trapping(now.patcher.phase),
    ensures
        aim(
            request,
            state,
            now.patcher.next(PatchEvent::Status(ok)),
            log.step(request, now.action, PatchEvent::Status(ok)),
        ),
{
    reveal(Patcher::after_trapped);
}

proof fn aim_rewritten_next(
    request: PatchRequest,
    state: PatchView,
    now: Patching,
    log: PatchLog,
    ok: bool,
)
    requires
        aim(request, state, now, log),
        !state.trampoline.pre_patched,
        now.patcher.accepts(PatchEvent::Status(ok)),
        !is_reserving(now.patcher.phase),
        !is_opening(now.patcher.phase),
        !is_trapping(now.patcher.phase),
    ensures
        aim(
            request,
            state,
            now.patcher.next(PatchEvent::Status(ok)),
            log.step(request, now.action, PatchEvent::Status(ok)),
        ),
{
    reveal(Patcher::after_rewritten);
}

proof fn aim_status_next(
    request: PatchRequest,
    state: PatchView,
    now: Patching,
    log: PatchLog,
    ok: bool,
)
    requires
        aim(request, state, now, log),
        !state.trampoline.pre_patched,
        now.patcher.accepts(PatchEvent::Status(ok)),
    ensures
        aim(
            request,
            state,
            now.patcher.next(PatchEvent::Status(ok)),
            log.step(request, now.action, PatchEvent::Status(ok)),
        ),
{
    match now.patcher.phase {
        PatchPhase::DropPreferred
        | PatchPhase::DropAnywhere
        | PatchPhase::DropPage
        | PatchPhase::WriteEntry { .. }
        | PatchPhase::DropReservation => aim_reserved_next(request, state, now, log, ok),
        PatchPhase::OpenTrampoline | PatchPhase::OpenCode | PatchPhase::ReadCode => {
            aim_opened_next(request, state, now, log, ok)
        },
        PatchPhase::TrapOpen { .. }
        | PatchPhase::TrapRead { .. }
        | PatchPhase::TrapRewrite { .. }
        | PatchPhase::TrapWrite { .. }
        | PatchPhase::TrapClose { .. } => aim_trapped_next(request, state, now, log, ok),
        _ => aim_rewritten_next(request, state, now, log, ok),
    }
}

proof fn aim_is_kept(
    request: PatchRequest,
    state: PatchView,
    now: Patching,
    log: PatchLog,
    events: Seq<PatchEvent>,
)
    requires
        aim(request, state, now, log),
        is_run(now, events),
    ensures
        ({
            let (end, done) = logged(request, now, log, events);
            aim(request, state, end, done)
        }),
    decreases events.len(),
{
    if events.len() > 0 {
        let event = events[0];
        if state.trampoline.pre_patched {
            aim_staged_next(request, state, now, log, event);
        } else {
            match event {
                PatchEvent::Mapped(_) => aim_mapped_next(request, state, now, log, event),
                PatchEvent::Rewritten(_) => aim_rewrite_next(request, state, now, log, event),
                PatchEvent::Status(ok) => aim_status_next(request, state, now, log, ok),
            }
        }
        aim_is_kept(
            request,
            state,
            now.patcher.next(event),
            log.step(request, now.action, event),
            events.drop_first(),
        );
    }
}

/// No code runs unpatched: a segment of a known file that has not been patched
/// ends up usable only once the rewriter went through all of it, or each of its
/// syscalls was replaced with a trap, and what came of that is in memory. It
/// counts as patched from then on, but where there is no trampoline and it was
/// given traps for want of one.
pub proof fn usable_code_is_tamed(
    request: PatchRequest,
    state: PatchView,
    events: Seq<PatchEvent>,
)
    requires
        request.wf(),
        !state.trampoline.pre_patched,
        !(request.arch == Arch::Aarch64 && state.trampoline.invalidated),
        !state.patched_ranges.contains((request.addr, request.len)),
        is_run(Patcher::first(request, Some(state)), events),
    ensures
        ({
            let (end, log) = done_for(request, state, events);
            end.action == PatchAction::Finish(Outcome::Usable) ==> {
                &&& is_tamed(request, log)
                &&& end.patcher.leaves(state).patched_ranges.contains((request.addr, request.len))
                    || (log.memory is Trapped && !end.patcher.trampoline.mapped)
            }
        }),
{
    aim_first(request, state);
    aim_is_kept(request, state, Patcher::first(request, Some(state)), PatchLog::blank(), events);
}

/// A segment counts as patched only by being patched, and none that did is
/// forgotten.
pub proof fn only_patched_code_counts_as_patched(
    request: PatchRequest,
    state: PatchView,
    events: Seq<PatchEvent>,
    segment: (usize, usize),
)
    requires
        request.wf(),
        !(request.arch == Arch::Aarch64 && state.trampoline.invalidated),
        is_run(Patcher::first(request, Some(state)), events),
    ensures
        ({
            let (end, log) = done_for(request, state, events);
            let left = end.patcher.leaves(state);
            &&& state.patched_ranges.contains(segment) ==> left.patched_ranges.contains(segment)
            &&& left.patched_ranges.contains(segment) && !state.patched_ranges.contains(segment)
                ==> {
                &&& segment == (request.addr, request.len)
                &&& !state.trampoline.pre_patched
                &&& end.action == PatchAction::Finish(Outcome::Usable) ==> is_tamed(request, log)
            }
            &&& left.file_mappings == state.file_mappings
        }),
{
    aim_first(request, state);
    aim_is_kept(request, state, Patcher::first(request, Some(state)), PatchLog::blank(), events);
}

/// A trampoline that patching put in place can be reached from every address of
/// the segment, and holds the entry point where the code looks for it. One that
/// was there stays where it is and does not shrink.
pub proof fn trampolines_are_in_reach(
    request: PatchRequest,
    state: PatchView,
    events: Seq<PatchEvent>,
    a: int,
)
    requires
        request.wf(),
        !state.trampoline.pre_patched,
        !(request.arch == Arch::Aarch64 && state.trampoline.invalidated),
        is_run(Patcher::first(request, Some(state)), events),
        request.addr <= a <= mapping_end((request.addr, request.len)),
    ensures
        ({
            let (end, log) = done_for(request, state, events);
            let t = end.patcher.trampoline;
            end.action == PatchAction::Finish(Outcome::Usable) && t.mapped ==> {
                &&& state.trampoline.mapped ==> t.addr == state.trampoline.addr && t.mapped_len
                    >= state.trampoline.mapped_len
                &&& !state.trampoline.mapped ==> {
                    &&& -request.limits.max_displacement <= t.addr - a
                        <= request.limits.max_displacement
                    &&& request.limits.entry_point_bytes != 0 ==> log.entry == Some(
                        (t.addr, request.entry),
                    )
                }
                &&& log.memory matches Treatment::Rewritten { entry_vaddr, .. } ==> entry_vaddr
                    == if request.limits.entry_point_bytes != 0 {
                    t.addr
                } else {
                    request.entry
                }
            }
        }),
{
    aim_first(request, state);
    aim_is_kept(request, state, Patcher::first(request, Some(state)), PatchLog::blank(), events);
}

/// The stubs of a segment go behind those of the segments patched before it, and
/// behind the entry point, and the next ones will go behind them: a trampoline
/// is only ever added to.
pub proof fn stubs_are_added_behind_others(
    request: PatchRequest,
    state: PatchView,
    events: Seq<PatchEvent>,
)
    requires
        request.wf(),
        !state.trampoline.pre_patched,
        !(request.arch == Arch::Aarch64 && state.trampoline.invalidated),
        is_run(Patcher::first(request, Some(state)), events),
        state.trampoline.cursor + request.limits.cursor_align <= usize::MAX,
        request.limits.entry_point_bytes + request.limits.cursor_align <= usize::MAX,
    ensures
        ({
            let (end, log) = done_for(request, state, events);
            let t = end.patcher.trampoline;
            end.action == PatchAction::Finish(Outcome::Usable) ==> (
            log.memory matches Treatment::Rewritten { made, stubs_vaddr, .. } ==> (made.stubs > 0
                ==> exists|from: usize| #[trigger]
                wrap_add(t.addr, from) == stubs_vaddr && from + made.stubs <= t.cursor && (
                if state.trampoline.mapped {
                    state.trampoline.cursor <= from
                } else {
                    request.limits.entry_point_bytes <= from
                }) && t.committed))
        }),
{
    aim_first(request, state);
    aim_is_kept(request, state, Patcher::first(request, Some(state)), PatchLog::blank(), events);
    let (end, log) = done_for(request, state, events);
    let t = end.patcher.trampoline;
    if end.action == PatchAction::Finish(Outcome::Usable) {
        if let Treatment::Rewritten { made, stubs_vaddr, .. } = log.memory {
            if made.stubs > 0 {
                let from = (t.cursor - made.stubs) as usize;
                assert(wrap_add(t.addr, from) == stubs_vaddr);
            }
        }
    }
}

/// A file that was patched before it was mapped ends up usable only with its
/// trampoline in place: read from the place in the file where it is, given the
/// entry point, and made executable where the code expects it. Only a file with
/// no trampoline at all needs none. Its code is left as it is.
pub proof fn patched_files_get_their_trampoline(
    request: PatchRequest,
    state: PatchView,
    events: Seq<PatchEvent>,
)
    requires
        request.wf(),
        state.trampoline.pre_patched,
        !(request.arch == Arch::Aarch64 && state.trampoline.invalidated),
        is_run(Patcher::first(request, Some(state)), events),
    ensures
        ({
            let (end, log) = done_for(request, state, events);
            let t = end.patcher.trampoline;
            let len = align_up_spec(t.file_size, PAGE_SIZE);
            &&& log.memory is Untreated
            &&& end.patcher.leaves(state).patched_ranges == state.patched_ranges
            &&& t.addr == state.trampoline.addr
            &&& end.action == PatchAction::Finish(Outcome::Usable) && state.trampoline.file_size
                != 0 ==> {
                &&& t.mapped
                &&& !state.trampoline.mapped ==> {
                    &&& log.staged matches Some((fd, offset, size, entry)) && fd == request.fd
                        && offset == state.trampoline.file_offset && size
                        == state.trampoline.file_size && (size >= 8 ==> entry == Some(
                        request.entry,
                    ))
                    &&& request.arch == Arch::Aarch64 ==> log.finalized
                    &&& log.put == Some(t.addr)
                    &&& log.sealed == Some((t.addr, len))
                    &&& t.mapped_len == len
                }
            }
            &&& end.action == PatchAction::Finish(Outcome::Unusable) ==> t == state.trampoline
        }),
{
    aim_first(request, state);
    aim_is_kept(request, state, Patcher::first(request, Some(state)), PatchLog::blank(), events);
}

/// Only the trampoline of a file that was patched before may replace what is
/// mapped, at the address that the file's code leads to. On AArch64 the host has
/// said before that it may.
pub proof fn little_is_replaced(request: PatchRequest, state: PatchView, events: Seq<PatchEvent>)
    requires
        request.wf(),
        !(request.arch == Arch::Aarch64 && state.trampoline.invalidated),
        is_run(Patcher::first(request, Some(state)), events),
    ensures
        ({
            let (end, log) = done_for(request, state, events);
            end.action matches PatchAction::MapFresh { place: Placement::Fixed(at), len } ==> {
                &&& state.trampoline.pre_patched
                &&& at == state.trampoline.addr
                &&& len == align_up_spec(state.trampoline.file_size, PAGE_SIZE)
                &&& request.arch == Arch::Aarch64 ==> log.checked == Some((at, len))
            }
        }),
{
    aim_first(request, state);
    aim_is_kept(request, state, Patcher::first(request, Some(state)), PatchLog::blank(), events);
}

/// A mapping is refused only for a file that was patched before, and the process
/// stops only where something that was asked for was not done.
pub proof fn patching_fails_for_a_reason(
    request: PatchRequest,
    state: PatchView,
    events: Seq<PatchEvent>,
)
    requires
        request.wf(),
        !(request.arch == Arch::Aarch64 && state.trampoline.invalidated),
        is_run(Patcher::first(request, Some(state)), events),
    ensures
        ({
            let (end, log) = done_for(request, state, events);
            &&& end.action == PatchAction::Finish(Outcome::Unusable)
                ==> state.trampoline.pre_patched
            &&& end.action matches PatchAction::Finish(Outcome::Fatal(_)) ==> log.failed
                && !state.trampoline.pre_patched
        }),
{
    aim_first(request, state);
    aim_is_kept(request, state, Patcher::first(request, Some(state)), PatchLog::blank(), events);
}

/// Code is read, rewritten and written where the segment is, and nowhere else.
pub proof fn code_is_written_where_it_was_read(
    request: PatchRequest,
    state: PatchView,
    events: Seq<PatchEvent>,
)
    requires
        request.wf(),
        !(request.arch == Arch::Aarch64 && state.trampoline.invalidated),
        is_run(Patcher::first(request, Some(state)), events),
    ensures
        match done_for(request, state, events).0.action {
            PatchAction::ReadCode { addr, len } => addr == request.addr && len == request.len,
            PatchAction::Write { addr, from: Buffer::Code } => addr == request.addr,
            PatchAction::Write { addr, from: Buffer::Original } => addr == request.addr,
            PatchAction::Rewrite { code_vaddr, .. } => code_vaddr == request.addr,
            PatchAction::TrapAll { code_vaddr, .. } => code_vaddr == request.addr,
            PatchAction::WriteEntry { value, .. } => value == request.entry,
            _ => true,
        },
{
    aim_first(request, state);
    aim_is_kept(request, state, Patcher::first(request, Some(state)), PatchLog::blank(), events);
}

/// On AArch64, code of a file whose trampoline was spoilt is never handed out.
pub proof fn spoilt_files_are_refused(request: PatchRequest, state: PatchView)
    requires
        request.arch == Arch::Aarch64,
        state.trampoline.invalidated,
    ensures
        Patcher::first(request, Some(state)).action == PatchAction::Finish(Outcome::Unusable),
        Patcher::first(request, Some(state)).patcher.leaves(state) =~= state,
{
}

/// What the rewriter made is used: code that needs no stubs is written at once,
/// and stubs for which the trampoline has room are written to it, on X86-64
/// right away. Traps are for code that the rewriter gave up on.
pub proof fn rewritten_code_is_used(p: Patcher, made: Rewritten)
    requires
        p.phase is Rewrite,
        align_up_spec((p.trampoline.cursor + made.stubs) as usize, PAGE_SIZE)
            <= p.trampoline.mapped_len,
        p.trampoline.cursor + made.stubs <= usize::MAX,
    ensures
        ({
            let next = p.next(PatchEvent::Rewritten(Some(made)));
            &&& made.stubs == 0 && made.changed ==> next.action == (PatchAction::Write {
                addr: p.request.addr,
                from: Buffer::Code,
            })
            &&& made.stubs > 0 && p.request.arch != Arch::Aarch64 ==> next.action == (
            PatchAction::Write {
                addr: wrap_add(p.trampoline.addr, p.trampoline.cursor),
                from: Buffer::Stubs,
            })
            &&& made.stubs > 0 && p.request.arch == Arch::Aarch64 ==> next.action
                == PatchAction::FinalizeGates && next.patcher.next(PatchEvent::Status(true)).action
                == (PatchAction::Write {
                addr: wrap_add(p.trampoline.addr, p.trampoline.cursor),
                from: Buffer::Stubs,
            })
        }),
{
    reveal(Patcher::after_rewrite);
    reveal(Patcher::after_rewritten);
}

/// Memory for a fresh trampoline is sought first for all that the file's code was
/// found to need, on AArch64, and never for less than a page.
pub proof fn reservations_suffice(request: PatchRequest, state: PatchView)
    requires
        !state.trampoline.mapped,
        !state.trampoline.pre_patched,
        !(request.arch == Arch::Aarch64 && state.trampoline.invalidated),
    ensures
        Patcher::first(request, Some(state)).action matches PatchAction::MapFresh { place, len } && {
            &&& place == Placement::FixedNoReplace(state.trampoline.addr)
            &&& len >= PAGE_SIZE
            &&& request.arch == Arch::Aarch64 ==> len >= state.trampoline.capacity
            &&& len == PAGE_SIZE || (request.arch == Arch::Aarch64 && len
                == state.trampoline.capacity)
        },
{
}

/// Where the code of a file was scanned, only what the scan found to be code is
/// rewritten, counted from where in the file the segment starts.
pub proof fn scans_guide_the_rewriter(p: Patcher, event: PatchEvent)
    requires
        p.accepts(event),
        p.phase is ReadCode || p.phase is TrapRead,
    ensures
        ({
            let wanted = if p.request.arch == Arch::Aarch64 && p.trampoline.scanned {
                p.request.file_offset
            } else {
                None
            };
            &&& p.next(event).action matches PatchAction::Rewrite { scan_from, .. } ==> scan_from
                == wanted
            &&& p.next(event).action matches PatchAction::TrapAll { scan_from, .. } ==> scan_from
                == wanted
        }),
{
    reveal(Patcher::after_opened);
    reveal(Patcher::after_trapped);
}

} // verus!
