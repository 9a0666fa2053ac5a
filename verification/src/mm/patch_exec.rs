//! Patching of a code segment while it becomes executable.
//!
//! The patcher decides, the host acts: each action is carried out by the host,
//! whose reply leads to the next action, until one of them is `Done` or
//! `Fatal`. The host keeps three buffers: `Code` and `Original` hold the
//! segment, as read and as rewritten; `Stubs` holds what goes to the
//! trampoline.

use vstd::prelude::*;

use crate::arith::{align_up, align_up_spec, is_pow2, page_size_is_pow2, wrap_add, PAGE_SIZE};
use crate::flags::{Arch, ProtFlags};
use crate::mm::elf_patch::{ElfPatchState, PatchView, Trampoline};
use crate::mm::patch_cache::ElfPatchCache;
use crate::mm::range_set::mapping_end;

verus! {

/// What the instruction rewriter asks of a trampoline.
#[derive(Clone, Copy, Debug, PartialEq, Eq, Structural)]
pub struct RewriterLimits {
    /// How far a trampoline may be from the code that branches to it.
    pub max_displacement: usize,
    /// How many bytes at the start of a trampoline hold the address of the
    /// syscall entry point.
    pub entry_point_bytes: usize,
    /// Alignment of what is added to a trampoline.
    pub cursor_align: usize,
}

/// A code segment to patch.
#[derive(Clone, Copy, Debug, PartialEq, Eq, Structural)]
pub struct PatchRequest {
    pub arch: Arch,
    pub limits: RewriterLimits,
    /// File that backs the segment.
    pub fd: i32,
    /// Where the segment is mapped, and how long it is.
    pub addr: usize,
    pub len: usize,
    /// The syscall entry point of the platform.
    pub entry: usize,
    /// Where in the file the segment starts, if that is known.
    pub file_offset: Option<usize>,
}

/// How the address of a mapping is to be taken.
#[derive(Clone, Copy, Debug, PartialEq, Eq, Structural)]
pub enum Placement {
    /// Anywhere.
    Anywhere,
    /// At the address, replacing what is there.
    Fixed(usize),
    /// At the address, unless something is there.
    FixedNoReplace(usize),
}

/// A buffer of the host.
#[derive(Clone, Copy, Debug, PartialEq, Eq, Structural)]
pub enum Buffer {
    /// The segment, rewritten.
    Code,
    /// The segment, as it was read.
    Original,
    /// What goes to the trampoline.
    Stubs,
}

/// Why patching cannot go on and the process has to stop.
#[derive(Clone, Copy, Debug, PartialEq, Eq, Structural)]
pub enum PatchFailure {
    TrapProtect,
    TrapRead,
    TrapDisassemble,
    TrapWrite,
    TrapRestore,
    TrampolineProtect,
    CodeProtect,
    CodeRead,
    StubWrite,
    CodeWrite,
    TrapBytesWrite,
}

impl PatchFailure {
    /// The failure in words.
    pub open spec fn text(self) -> Seq<char> {
        match self {
            PatchFailure::TrapProtect =>
                "fatal: failed to mprotect code segment RW for trap fallback"@,
            PatchFailure::TrapRead => "fatal: failed to read code segment for trap fallback"@,
            PatchFailure::TrapDisassemble =>
                "fatal: failed to disassemble code segment for trap fallback"@,
            PatchFailure::TrapWrite => "fatal: failed to write trap bytes back to code segment"@,
            PatchFailure::TrapRestore =>
                "fatal: failed to restore code segment to RX after trap fallback"@,
            PatchFailure::TrampolineProtect => "fatal: failed to mprotect trampoline to RW"@,
            PatchFailure::CodeProtect =>
                "fatal: failed to mprotect code segment to RW for patching"@,
            PatchFailure::CodeRead => "fatal: failed to read code segment for patching"@,
            PatchFailure::StubWrite => "fatal: failed to write trampoline stubs"@,
            PatchFailure::CodeWrite =>
                "fatal: failed to write patched code back to code segment"@,
            PatchFailure::TrapBytesWrite =>
                "fatal: failed to write trap bytes back to code segment"@,
        }
    }

    /// The failure in words.
    pub fn message(self) -> (message: &'static str)
        ensures
            message@ == self.text(),
    {
        match self {
            PatchFailure::TrapProtect =>
                "fatal: failed to mprotect code segment RW for trap fallback",
            PatchFailure::TrapRead => "fatal: failed to read code segment for trap fallback",
            PatchFailure::TrapDisassemble =>
                "fatal: failed to disassemble code segment for trap fallback",
            PatchFailure::TrapWrite => "fatal: failed to write trap bytes back to code segment",
            PatchFailure::TrapRestore =>
                "fatal: failed to restore code segment to RX after trap fallback",
            PatchFailure::TrampolineProtect => "fatal: failed to mprotect trampoline to RW",
            PatchFailure::CodeProtect =>
                "fatal: failed to mprotect code segment to RW for patching",
            PatchFailure::CodeRead => "fatal: failed to read code segment for patching",
            PatchFailure::StubWrite => "fatal: failed to write trampoline stubs",
            PatchFailure::CodeWrite => "fatal: failed to write patched code back to code segment",
            PatchFailure::TrapBytesWrite =>
                "fatal: failed to write trap bytes back to code segment",
        }
    }
}

/// How patching ends.
#[derive(Clone, Copy, Debug, PartialEq, Eq, Structural)]
pub enum Outcome {
    /// The segment can run.
    Usable,
    /// The code leads to a trampoline that could not be set up: the mapping
    /// has to fail.
    Unusable,
    /// The process has to stop.
    Fatal(PatchFailure),
}

/// What the host has to do next.
#[derive(Clone, Copy, Debug, PartialEq, Eq, Structural)]
pub enum PatchAction {
    /// Tell whether a trampoline may replace what is mapped in the range.
    CheckRange { start: usize, len: usize },
    /// Map fresh private memory, to be read and written.
    MapFresh { place: Placement, len: usize },
    Unmap { addr: usize, len: usize },
    Protect { addr: usize, len: usize, prot: ProtFlags },
    /// Read the trampoline from the file to `Stubs`, and put the address of
    /// the entry point in its first eight bytes where one is given.
    ReadTrampoline { fd: i32, offset: u64, len: usize, entry: Option<usize> },
    /// Read the segment to `Code` and `Original`.
    ReadCode { addr: usize, len: usize },
    /// Write the address of the entry point.
    WriteEntry { addr: usize, value: usize },
    /// Write a buffer to memory.
    Write { addr: usize, from: Buffer },
    /// Let the gates in `Stubs` find the thread pointer of the guest.
    FinalizeGates,
    /// Rewrite `Code` to branch to stubs, and put these in `Stubs`. With
    /// `scan_from`, only where the scan of the file found code.
    Rewrite { code_vaddr: u64, stubs_vaddr: u64, entry_vaddr: u64, scan_from: Option<usize> },
    /// Replace each syscall in `Code` with a trap.
    TrapAll { code_vaddr: u64, scan_from: Option<usize> },
    /// Patching is over.
    Finish(Outcome),
}

/// What the rewriter made of a segment.
#[derive(Clone, Copy, Debug, PartialEq, Eq, Structural)]
pub struct Rewritten {
    /// How many bytes of stubs the code branches to.
    pub stubs: usize,
    /// Whether the code was changed.
    pub changed: bool,
}

/// What the host answers.
#[derive(Clone, Copy, Debug, PartialEq, Eq, Structural)]
pub enum PatchEvent {
    /// Where memory was mapped, if it was.
    Mapped(Option<usize>),
    /// Whether the action succeeded.
    Status(bool),
    /// What the rewriter made, unless it failed.
    Rewritten(Option<Rewritten>),
}

/// What the patcher is waiting for.
#[derive(Clone, Copy, Debug, PartialEq, Eq, Structural)]
pub enum PatchPhase {
    CheckRange,
    MapFixed,
    ReadTrampoline,
    FinalizeStaged,
    WriteStaged,
    ProtectStaged,
    /// The trampoline of a patched file is given up.
    GiveUp,
    MapPreferred,
    DropPreferred,
    MapAnywhere,
    DropAnywhere,
    MapPage,
    DropPage,
    DropReservation,
    WriteEntry { len: usize },
    OpenTrampoline,
    OpenCode,
    ReadCode,
    Rewrite,
    FinalizeStubs { stubs: usize },
    Expand { cursor: usize, start: usize, needed: usize },
    DropExpansion,
    WriteStubs { cursor: usize },
    WriteCode { cursor: usize },
    WriteTraps,
    /// The code is written back as it was, before the process stops.
    RevertCode { close: bool, failure: PatchFailure },
    CloseCode(Outcome),
    CloseTrampoline(Outcome),
    TrapOpen { close: bool },
    TrapRead { close: bool },
    TrapRewrite { close: bool },
    TrapWrite { close: bool },
    TrapClose { close: bool },
    End(Outcome),
}

/// The distance of two addresses.
pub open spec fn distance(a: int, b: int) -> int {
    if a <= b {
        b - a
    } else {
        a - b
    }
}

impl PatchRequest {
    /// Whether the rewriter's alignment is a power of two.
    pub open spec fn wf(self) -> bool {
        is_pow2(self.limits.cursor_align as int)
    }

    /// Whether a trampoline at `at` can be reached from the whole segment.
    pub open spec fn reaches(self, at: usize) -> bool {
        &&& distance(at as int, self.addr as int) <= self.limits.max_displacement
        &&& distance(at as int, mapping_end((self.addr, self.len)))
            <= self.limits.max_displacement
    }

    /// Whether a trampoline at `at` can be reached from the whole segment.
    pub fn in_reach(&self, at: usize) -> (reached: bool)
        ensures
            reached == self.reaches(at),
    {
        let far_end: usize = self.addr.saturating_add(self.len);
        let near: usize = if at <= self.addr {
            self.addr - at
        } else {
            at - self.addr
        };
        let far: usize = if at <= far_end {
            far_end - at
        } else {
            at - far_end
        };
        near <= self.limits.max_displacement && far <= self.limits.max_displacement
    }
}

/// A segment being patched.
#[derive(Clone, Copy, Debug, PartialEq, Eq, Structural)]
pub struct Patcher {
    pub request: PatchRequest,
    /// The trampoline of the file, as far as it has come.
    pub trampoline: Trampoline,
    /// Whether this very segment had been patched before.
    pub known: bool,
    /// Whether the segment counts as patched from now on.
    pub noted: bool,
    pub phase: PatchPhase,
}

/// A patcher and the action that it asks for.
#[derive(Clone, Copy, Debug, PartialEq, Eq, Structural)]
pub struct Patching {
    pub patcher: Patcher,
    pub action: PatchAction,
}

impl Patcher {
    /// Whether the event answers what the patcher waits for.
    pub open spec fn accepts(self, event: PatchEvent) -> bool {
        match self.phase {
            PatchPhase::MapFixed
            | PatchPhase::MapPreferred
            | PatchPhase::MapAnywhere
            | PatchPhase::MapPage
            | PatchPhase::Expand { .. } => event is Mapped,
            PatchPhase::Rewrite => event is Rewritten,
            PatchPhase::End(_) => false,
            _ => event is Status,
        }
    }

    /// Whether the event answers what the patcher waits for.
    pub fn is_answered_by(&self, event: PatchEvent) -> (answered: bool)
        ensures
            answered == self.accepts(event),
    {
        match self.phase {
            PatchPhase::MapFixed
            | PatchPhase::MapPreferred
            | PatchPhase::MapAnywhere
            | PatchPhase::MapPage
            | PatchPhase::Expand { .. } => matches!(event, PatchEvent::Mapped(_)),
            PatchPhase::Rewrite => matches!(event, PatchEvent::Rewritten(_)),
            PatchPhase::End(_) => false,
            _ => matches!(event, PatchEvent::Status(_)),
        }
    }

    /// Where the scan of the file's code starts, if the file was scanned.
    pub open spec fn scan_from(self) -> Option<usize> {
        if self.request.arch == Arch::Aarch64 && self.trampoline.scanned {
            self.request.file_offset
        } else {
            None
        }
    }

    /// How much memory the trampoline of a file patched before needs.
    pub open spec fn staged_len(self) -> usize {
        align_up_spec(self.trampoline.file_size, PAGE_SIZE)
    }

    /// How much memory a fresh trampoline asks for first.
    pub open spec fn wanted_len(self) -> usize {
        if self.request.arch == Arch::Aarch64 && self.trampoline.capacity > PAGE_SIZE {
            self.trampoline.capacity
        } else {
            PAGE_SIZE
        }
    }

    // What follows, by name: the patcher in its next phase, with the action.

    pub open spec fn goes(self, phase: PatchPhase, action: PatchAction) -> Patching {
        Patching { patcher: Patcher { phase, ..self }, action }
    }

    pub open spec fn finishes(self, outcome: Outcome) -> Patching {
        self.goes(PatchPhase::End(outcome), PatchAction::Finish(outcome))
    }

    pub open spec fn protects(self, prot: ProtFlags, phase: PatchPhase) -> Patching {
        let action = PatchAction::Protect {
            addr: self.request.addr,
            len: self.request.len,
            prot,
        };
        self.goes(phase, action)
    }

    pub open spec fn unmaps(self, addr: usize, len: usize, phase: PatchPhase) -> Patching {
        self.goes(phase, PatchAction::Unmap { addr, len })
    }

    pub open spec fn maps(self, place: Placement, len: usize, phase: PatchPhase) -> Patching {
        self.goes(phase, PatchAction::MapFresh { place, len })
    }

    pub open spec fn writes(self, from: Buffer, phase: PatchPhase) -> Patching {
        self.goes(phase, PatchAction::Write { addr: self.request.addr, from })
    }

    /// Makes the trampoline executable again, if there is any, and ends.
    pub open spec fn closes_trampoline(self, outcome: Outcome) -> Patching {
        if self.trampoline.mapped_len > 0 {
            let action = PatchAction::Protect {
                addr: self.trampoline.addr,
                len: self.trampoline.mapped_len,
                prot: ProtFlags::rx(),
            };
            self.goes(PatchPhase::CloseTrampoline(outcome), action)
        } else {
            self.finishes(outcome)
        }
    }

    /// Makes the code executable again, then the trampoline, and ends.
    pub open spec fn closes_code(self, outcome: Outcome) -> Patching {
        self.protects(ProtFlags::rx(), PatchPhase::CloseCode(outcome))
    }

    /// Turns to traps for all syscalls of the segment, which is writable
    /// already, with the trampoline to be closed after.
    pub open spec fn traps_open(self) -> Patching {
        self.goes(
            PatchPhase::TrapRead { close: true },
            PatchAction::ReadCode { addr: self.request.addr, len: self.request.len },
        )
    }

    /// Turns to traps for all syscalls of the segment, without a trampoline.
    pub open spec fn traps_closed(self) -> Patching {
        self.protects(ProtFlags::rw(), PatchPhase::TrapOpen { close: false })
    }

    /// Asks for memory for the trampoline of a file patched before.
    pub open spec fn stages(self) -> Patching {
        self.maps(
            Placement::Fixed(self.trampoline.addr),
            self.staged_len(),
            PatchPhase::MapFixed,
        )
    }

    pub open spec fn gives_up(self, addr: usize) -> Patching {
        self.unmaps(addr, self.staged_len(), PatchPhase::GiveUp)
    }

    pub open spec fn writes_staged(self) -> Patching {
        self.goes(
            PatchPhase::WriteStaged,
            PatchAction::Write { addr: self.trampoline.addr, from: Buffer::Stubs },
        )
    }

    pub open spec fn tries_anywhere(self) -> Patching {
        self.maps(Placement::Anywhere, self.wanted_len(), PatchPhase::MapAnywhere)
    }

    pub open spec fn tries_page(self) -> Patching {
        if self.wanted_len() > PAGE_SIZE {
            self.maps(
                Placement::FixedNoReplace(self.trampoline.addr),
                PAGE_SIZE,
                PatchPhase::MapPage,
            )
        } else {
            self.traps_closed()
        }
    }

    /// Takes the reservation of `len` bytes at `addr`, if it is in reach.
    pub open spec fn takes(self, addr: usize, len: usize) -> Patching {
        if !self.request.reaches(addr) {
            self.unmaps(addr, len, PatchPhase::DropReservation)
        } else {
            let placed = Patcher {
                trampoline: Trampoline { addr, ..self.trampoline },
                ..self
            };
            if self.request.limits.entry_point_bytes != 0 {
                placed.goes(
                    PatchPhase::WriteEntry { len },
                    PatchAction::WriteEntry { addr, value: self.request.entry },
                )
            } else {
                placed.settles(0, len)
            }
        }
    }

    /// The trampoline is mapped.
    pub open spec fn settles(self, cursor: usize, len: usize) -> Patching {
        Patcher {
            trampoline: Trampoline {
                cursor,
                mapped: true,
                mapped_len: len,
                ..self.trampoline
            },
            ..self
        }.starts_patching()
    }

    /// Patches the segment unless it has been patched.
    pub open spec fn starts_patching(self) -> Patching {
        if self.known {
            self.finishes(Outcome::Usable)
        } else {
            let noted = Patcher { noted: true, ..self };
            if self.trampoline.mapped_len > 0 {
                noted.goes(
                    PatchPhase::OpenTrampoline,
                    PatchAction::Protect {
                        addr: self.trampoline.addr,
                        len: self.trampoline.mapped_len,
                        prot: ProtFlags::rw(),
                    },
                )
            } else {
                noted.protects(ProtFlags::rw(), PatchPhase::OpenCode)
            }
        }
    }

    /// Hands the code that was read to the rewriter.
    pub open spec fn rewrites(self) -> Patching {
        let cursor = align_up_spec(self.trampoline.cursor, self.request.limits.cursor_align);
        let aligned = Patcher {
            trampoline: Trampoline { cursor, ..self.trampoline },
            ..self
        };
        aligned.goes(
            PatchPhase::Rewrite,
            PatchAction::Rewrite {
                code_vaddr: self.request.addr as u64,
                stubs_vaddr: wrap_add(self.trampoline.addr, cursor) as u64,
                entry_vaddr: if self.request.limits.entry_point_bytes != 0 {
                    self.trampoline.addr as u64
                } else {
                    self.request.entry as u64
                },
                scan_from: self.scan_from(),
            },
        )
    }

    /// Makes room for the stubs in the trampoline.
    pub open spec fn makes_room(self, stubs: usize) -> Patching {
        if self.trampoline.cursor + stubs > usize::MAX {
            self.traps_open()
        } else {
            let cursor = (self.trampoline.cursor + stubs) as usize;
            let needed = align_up_spec(cursor, PAGE_SIZE);
            if needed > self.trampoline.mapped_len {
                let start = wrap_add(self.trampoline.addr, self.trampoline.mapped_len);
                self.maps(
                    Placement::FixedNoReplace(start),
                    (needed - self.trampoline.mapped_len) as usize,
                    PatchPhase::Expand { cursor, start, needed },
                )
            } else {
                self.writes_stubs(cursor)
            }
        }
    }

    /// The stubs go to the trampoline before the code that leads to them.
    pub open spec fn writes_stubs(self, cursor: usize) -> Patching {
        self.goes(
            PatchPhase::WriteStubs { cursor },
            PatchAction::Write {
                addr: wrap_add(self.trampoline.addr, self.trampoline.cursor),
                from: Buffer::Stubs,
            },
        )
    }

    /// The first action for a segment of a file with the given state.
    pub open spec fn first(request: PatchRequest, state: Option<PatchView>) -> Patching {
        match state {
            None => Patcher {
                request,
                trampoline: Patcher::blank(),
                known: false,
                noted: false,
                phase: PatchPhase::End(Outcome::Usable),
            }.finishes(Outcome::Usable),
            Some(view) => {
                let t = view.trampoline;
                let p = Patcher {
                    request,
                    trampoline: t,
                    known: view.patched_ranges.contains((request.addr, request.len)),
                    noted: false,
                    phase: PatchPhase::End(Outcome::Usable),
                };
                if request.arch == Arch::Aarch64 && t.invalidated {
                    p.finishes(Outcome::Unusable)
                } else if t.pre_patched {
                    if t.mapped || t.file_size == 0 {
                        p.finishes(Outcome::Usable)
                    } else if request.arch == Arch::Aarch64 {
                        p.goes(
                            PatchPhase::CheckRange,
                            PatchAction::CheckRange { start: t.addr, len: p.staged_len() },
                        )
                    } else {
                        p.stages()
                    }
                } else if !t.mapped {
                    p.maps(
                        Placement::FixedNoReplace(t.addr),
                        p.wanted_len(),
                        PatchPhase::MapPreferred,
                    )
                } else {
                    p.starts_patching()
                }
            },
        }
    }

    /// A trampoline of which nothing is known.
    pub open spec fn blank() -> Trampoline {
        Trampoline {
            pre_patched: false,
            file_offset: 0,
            file_size: 0,
            addr: 0,
            load_span: None,
            cursor: 0,
            mapped: false,
            mapped_len: 0,
            committed: false,
            invalidated: false,
            scanned: false,
            capacity: 0,
        }
    }

    /// What follows while the trampoline of a file patched before is set up.
    #[verifier::opaque]
    pub open spec fn after_staged(self, ok: bool) -> Patching {
        let t = self.trampoline;
        match self.phase {
            PatchPhase::CheckRange => if ok {
                self.stages()
            } else {
                self.finishes(Outcome::Unusable)
            },
            PatchPhase::ReadTrampoline => if !ok {
                self.gives_up(t.addr)
            } else if self.request.arch == Arch::Aarch64 {
                self.goes(PatchPhase::FinalizeStaged, PatchAction::FinalizeGates)
            } else {
                self.writes_staged()
            },
            PatchPhase::FinalizeStaged => if ok {
                self.writes_staged()
            } else {
                self.gives_up(t.addr)
            },
            PatchPhase::WriteStaged => if ok {
                self.goes(
                    PatchPhase::ProtectStaged,
                    PatchAction::Protect {
                        addr: t.addr,
                        len: self.staged_len(),
                        prot: ProtFlags::rx(),
                    },
                )
            } else {
                self.gives_up(t.addr)
            },
            PatchPhase::ProtectStaged => if ok {
                Patcher {
                    trampoline: Trampoline { mapped: true, mapped_len: self.staged_len(), ..t },
                    ..self
                }.finishes(Outcome::Usable)
            } else {
                self.gives_up(t.addr)
            },
            PatchPhase::GiveUp => self.finishes(Outcome::Unusable),
            _ => arbitrary(),
        }
    }

    /// What follows while memory for a trampoline is sought.
    #[verifier::opaque]
    pub open spec fn after_reserved(self, ok: bool) -> Patching {
        let t = self.trampoline;
        match self.phase {
            PatchPhase::DropPreferred => self.tries_anywhere(),
            PatchPhase::DropAnywhere => self.tries_page(),
            PatchPhase::DropPage | PatchPhase::DropReservation => self.traps_closed(),
            PatchPhase::WriteEntry { len } => if ok {
                self.settles(self.request.limits.entry_point_bytes, len)
            } else {
                self.unmaps(t.addr, len, PatchPhase::DropReservation)
            },
            _ => arbitrary(),
        }
    }

    /// What follows while the code is made ready to be rewritten.
    #[verifier::opaque]
    pub open spec fn after_opened(self, ok: bool) -> Patching {
        match self.phase {
            PatchPhase::OpenTrampoline => if ok {
                self.protects(ProtFlags::rw(), PatchPhase::OpenCode)
            } else {
                self.finishes(Outcome::Fatal(PatchFailure::TrampolineProtect))
            },
            PatchPhase::OpenCode => if ok {
                self.goes(
                    PatchPhase::ReadCode,
                    PatchAction::ReadCode { addr: self.request.addr, len: self.request.len },
                )
            } else {
                self.closes_trampoline(Outcome::Fatal(PatchFailure::CodeProtect))
            },
            PatchPhase::ReadCode => if ok {
                self.rewrites()
            } else {
                self.closes_code(Outcome::Fatal(PatchFailure::CodeRead))
            },
            _ => arbitrary(),
        }
    }

    /// What follows once the code has been rewritten.
    #[verifier::opaque]
    pub open spec fn after_rewritten(self, ok: bool) -> Patching {
        let t = self.trampoline;
        match self.phase {
            PatchPhase::FinalizeStubs { stubs } => if ok {
                self.makes_room(stubs)
            } else {
                self.traps_open()
            },
            PatchPhase::DropExpansion => self.traps_open(),
            PatchPhase::WriteStubs { cursor } => if ok {
                self.writes(Buffer::Code, PatchPhase::WriteCode { cursor })
            } else {
                self.closes_code(Outcome::Fatal(PatchFailure::StubWrite))
            },
            PatchPhase::WriteCode { cursor } => if ok {
                Patcher {
                    trampoline: Trampoline { cursor, committed: true, ..t },
                    ..self
                }.closes_code(Outcome::Usable)
            } else {
                self.writes(
                    Buffer::Original,
                    PatchPhase::RevertCode { close: true, failure: PatchFailure::CodeWrite },
                )
            },
            PatchPhase::WriteTraps => if ok {
                self.closes_code(Outcome::Usable)
            } else {
                self.writes(
                    Buffer::Original,
                    PatchPhase::RevertCode { close: false, failure: PatchFailure::TrapBytesWrite },
                )
            },
            PatchPhase::RevertCode { close, failure } => if close {
                self.closes_code(Outcome::Fatal(failure))
            } else {
                self.finishes(Outcome::Fatal(failure))
            },
            PatchPhase::CloseCode(outcome) => self.closes_trampoline(outcome),
            PatchPhase::CloseTrampoline(outcome) => self.finishes(outcome),
            _ => arbitrary(),
        }
    }

    /// What follows while each syscall is replaced with a trap.
    #[verifier::opaque]
    pub open spec fn after_trapped(self, ok: bool) -> Patching {
        match self.phase {
            PatchPhase::TrapOpen { close } => if ok {
                self.goes(
                    PatchPhase::TrapRead { close },
                    PatchAction::ReadCode { addr: self.request.addr, len: self.request.len },
                )
            } else {
                self.finishes(Outcome::Fatal(PatchFailure::TrapProtect))
            },
            PatchPhase::TrapRead { close } => if ok {
                self.goes(
                    PatchPhase::TrapRewrite { close },
                    PatchAction::TrapAll {
                        code_vaddr: self.request.addr as u64,
                        scan_from: self.scan_from(),
                    },
                )
            } else {
                self.finishes(Outcome::Fatal(PatchFailure::TrapRead))
            },
            PatchPhase::TrapRewrite { close } => if ok {
                self.writes(Buffer::Code, PatchPhase::TrapWrite { close })
            } else {
                self.finishes(Outcome::Fatal(PatchFailure::TrapDisassemble))
            },
            PatchPhase::TrapWrite { close } => if ok {
                self.protects(ProtFlags::rx(), PatchPhase::TrapClose { close })
            } else {
                self.finishes(Outcome::Fatal(PatchFailure::TrapWrite))
            },
            PatchPhase::TrapClose { close } => if !ok {
                self.finishes(Outcome::Fatal(PatchFailure::TrapRestore))
            } else if close {
                self.closes_trampoline(Outcome::Usable)
            } else {
                self.finishes(Outcome::Usable)
            },
            _ => arbitrary(),
        }
    }

    /// What follows a reply that says whether the action succeeded.
    pub open spec fn after_status(self, ok: bool) -> Patching {
        match self.phase {
            PatchPhase::CheckRange
            | PatchPhase::ReadTrampoline
            | PatchPhase::FinalizeStaged
            | PatchPhase::WriteStaged
            | PatchPhase::ProtectStaged
            | PatchPhase::GiveUp => self.after_staged(ok),
            PatchPhase::DropPreferred
            | PatchPhase::DropAnywhere
            | PatchPhase::DropPage
            | PatchPhase::WriteEntry { .. }
            | PatchPhase::DropReservation => self.after_reserved(ok),
            PatchPhase::OpenTrampoline
            | PatchPhase::OpenCode
            | PatchPhase::ReadCode => self.after_opened(ok),
            PatchPhase::TrapOpen { .. }
            | PatchPhase::TrapRead { .. }
            | PatchPhase::TrapRewrite { .. }
            | PatchPhase::TrapWrite { .. }
            | PatchPhase::TrapClose { .. } => self.after_trapped(ok),
            _ => self.after_rewritten(ok),
        }
    }

    /// What follows a reply that says where memory was mapped.
    #[verifier::opaque]
    pub open spec fn after_map(self, at: Option<usize>) -> Patching {
        let t = self.trampoline;
        match self.phase {
            PatchPhase::MapFixed => match at {
                None => self.finishes(Outcome::Unusable),
                Some(p) => if p != t.addr {
                    self.gives_up(p)
                } else {
                    self.goes(
                        PatchPhase::ReadTrampoline,
                        PatchAction::ReadTrampoline {
                            fd: self.request.fd,
                            offset: t.file_offset,
                            len: t.file_size,
                            entry: if t.file_size >= 8 {
                                Some(self.request.entry)
                            } else {
                                None
                            },
                        },
                    )
                },
            },
            PatchPhase::MapPreferred => match at {
                None => self.tries_anywhere(),
                Some(p) => if p == t.addr {
                    self.takes(p, self.wanted_len())
                } else {
                    self.unmaps(p, self.wanted_len(), PatchPhase::DropPreferred)
                },
            },
            PatchPhase::MapAnywhere => match at {
                None => self.tries_page(),
                Some(p) => if self.request.reaches(p) {
                    self.takes(p, self.wanted_len())
                } else {
                    self.unmaps(p, self.wanted_len(), PatchPhase::DropAnywhere)
                },
            },
            PatchPhase::MapPage => match at {
                None => self.traps_closed(),
                Some(p) => if p == t.addr {
                    self.takes(p, PAGE_SIZE)
                } else {
                    self.unmaps(p, PAGE_SIZE, PatchPhase::DropPage)
                },
            },
            PatchPhase::Expand { cursor, start, needed } => match at {
                None => self.traps_open(),
                Some(p) => if p == start {
                    Patcher {
                        trampoline: Trampoline { mapped_len: needed, ..t },
                        ..self
                    }.writes_stubs(cursor)
                } else {
                    self.unmaps(
                        p,
                        (needed - t.mapped_len) as usize,
                        PatchPhase::DropExpansion,
                    )
                },
            },
            _ => arbitrary(),
        }
    }

    /// What follows the reply of the rewriter.
    #[verifier::opaque]
    pub open spec fn after_rewrite(self, made: Option<Rewritten>) -> Patching {
        match made {
            None => self.traps_open(),
            Some(Rewritten { stubs, changed }) => if stubs > 0 {
                if self.request.arch == Arch::Aarch64 {
                    self.goes(PatchPhase::FinalizeStubs { stubs }, PatchAction::FinalizeGates)
                } else {
                    self.makes_room(stubs)
                }
            } else if changed {
                self.writes(Buffer::Code, PatchPhase::WriteTraps)
            } else {
                self.closes_code(Outcome::Usable)
            },
        }
    }

    /// What follows an event that answers what the patcher waits for.
    pub open spec fn next(self, event: PatchEvent) -> Patching {
        match event {
            PatchEvent::Status(ok) => self.after_status(ok),
            PatchEvent::Mapped(at) => self.after_map(at),
            PatchEvent::Rewritten(made) => self.after_rewrite(made),
        }
    }

    pub open spec fn wf(self) -> bool {
        &&& self.request.wf()
        &&& self.phase matches PatchPhase::Expand { cursor, start, needed } ==> needed
            > self.trampoline.mapped_len
    }

    fn go(self, phase: PatchPhase, action: PatchAction) -> (next: Patching)
        ensures
            next == self.goes(phase, action),
    {
        Patching { patcher: Patcher { phase, ..self }, action }
    }

    fn finish(self, outcome: Outcome) -> (next: Patching)
        ensures
            next == self.finishes(outcome),
    {
        self.go(PatchPhase::End(outcome), PatchAction::Finish(outcome))
    }

    fn protect(self, prot: ProtFlags, phase: PatchPhase) -> (next: Patching)
        ensures
            next == self.protects(prot, phase),
    {
        let action = PatchAction::Protect {
            addr: self.request.addr,
            len: self.request.len,
            prot,
        };
        self.go(phase, action)
    }

    fn unmap(self, addr: usize, len: usize, phase: PatchPhase) -> (next: Patching)
        ensures
            next == self.unmaps(addr, len, phase),
    {
        self.go(phase, PatchAction::Unmap { addr, len })
    }

    fn map_fresh(self, place: Placement, len: usize, phase: PatchPhase) -> (next: Patching)
        ensures
            next == self.maps(place, len, phase),
    {
        self.go(phase, PatchAction::MapFresh { place, len })
    }

    fn write(self, from: Buffer, phase: PatchPhase) -> (next: Patching)
        ensures
            next == self.writes(from, phase),
    {
        self.go(phase, PatchAction::Write { addr: self.request.addr, from })
    }

    fn close_trampoline(self, outcome: Outcome) -> (next: Patching)
        ensures
            next == self.closes_trampoline(outcome),
    {
        if self.trampoline.mapped_len > 0 {
            let action = PatchAction::Protect {
                addr: self.trampoline.addr,
                len: self.trampoline.mapped_len,
                prot: ProtFlags::read_exec(),
            };
            self.go(PatchPhase::CloseTrampoline(outcome), action)
        } else {
            self.finish(outcome)
        }
    }

    fn close_code(self, outcome: Outcome) -> (next: Patching)
        ensures
            next == self.closes_code(outcome),
    {
        self.protect(ProtFlags::read_exec(), PatchPhase::CloseCode(outcome))
    }

    fn trap_open(self) -> (next: Patching)
        ensures
            next == self.traps_open(),
    {
        self.go(
            PatchPhase::TrapRead { close: true },
            PatchAction::ReadCode { addr: self.request.addr, len: self.request.len },
        )
    }

    fn trap_closed(self) -> (next: Patching)
        ensures
            next == self.traps_closed(),
    {
        self.protect(ProtFlags::read_write(), PatchPhase::TrapOpen { close: false })
    }

    fn stage(self) -> (next: Patching)
        ensures
            next == self.stages(),
    {
        self.map_fresh(
            Placement::Fixed(self.trampoline.addr),
            self.staged_size(),
            PatchPhase::MapFixed,
        )
    }

    fn give_up(self, addr: usize) -> (next: Patching)
        ensures
            next == self.gives_up(addr),
    {
        self.unmap(addr, self.staged_size(), PatchPhase::GiveUp)
    }

    fn write_staged(self) -> (next: Patching)
        ensures
            next == self.writes_staged(),
    {
        self.go(
            PatchPhase::WriteStaged,
            PatchAction::Write { addr: self.trampoline.addr, from: Buffer::Stubs },
        )
    }

    fn try_anywhere(self) -> (next: Patching)
        ensures
            next == self.tries_anywhere(),
    {
        self.map_fresh(Placement::Anywhere, self.wanted_size(), PatchPhase::MapAnywhere)
    }

    fn try_page(self) -> (next: Patching)
        ensures
            next == self.tries_page(),
    {
        if self.wanted_size() > PAGE_SIZE {
            self.map_fresh(
                Placement::FixedNoReplace(self.trampoline.addr),
                PAGE_SIZE,
                PatchPhase::MapPage,
            )
        } else {
            self.trap_closed()
        }
    }

    fn take(self, addr: usize, len: usize) -> (next: Patching)
        ensures
            next == self.takes(addr, len),
    {
        if !self.request.in_reach(addr) {
            self.unmap(addr, len, PatchPhase::DropReservation)
        } else {
            let placed = Patcher {
                trampoline: Trampoline { addr, ..self.trampoline },
                ..self
            };
            if self.request.limits.entry_point_bytes != 0 {
                placed.go(
                    PatchPhase::WriteEntry { len },
                    PatchAction::WriteEntry { addr, value: self.request.entry },
                )
            } else {
                placed.settle(0, len)
            }
        }
    }

    fn settle(self, cursor: usize, len: usize) -> (next: Patching)
        ensures
            next == self.settles(cursor, len),
    {
        Patcher {
            trampoline: Trampoline {
                cursor,
                mapped: true,
                mapped_len: len,
                ..self.trampoline
            },
            ..self
        }.start_patching()
    }

    fn start_patching(self) -> (next: Patching)
        ensures
            next == self.starts_patching(),
    {
        if self.known {
            self.finish(Outcome::Usable)
        } else {
            let noted = Patcher { noted: true, ..self };
            if self.trampoline.mapped_len > 0 {
                noted.go(
                    PatchPhase::OpenTrampoline,
                    PatchAction::Protect {
                        addr: self.trampoline.addr,
                        len: self.trampoline.mapped_len,
                        prot: ProtFlags::read_write(),
                    },
                )
            } else {
                noted.protect(ProtFlags::read_write(), PatchPhase::OpenCode)
            }
        }
    }

    fn rewrite(self) -> (next: Patching)
        requires
            self.request.wf(),
        ensures
            next == self.rewrites(),
    {
        let cursor: usize = align_up(self.trampoline.cursor, self.request.limits.cursor_align);
        let aligned = Patcher {
            trampoline: Trampoline { cursor, ..self.trampoline },
            ..self
        };
        aligned.go(
            PatchPhase::Rewrite,
            PatchAction::Rewrite {
                code_vaddr: self.request.addr as u64,
                stubs_vaddr: self.trampoline.addr.wrapping_add(cursor) as u64,
                entry_vaddr: if self.request.limits.entry_point_bytes != 0 {
                    self.trampoline.addr as u64
                } else {
                    self.request.entry as u64
                },
                scan_from: self.scan_start(),
            },
        )
    }

    fn make_room(self, stubs: usize) -> (next: Patching)
        ensures
            next == self.makes_room(stubs),
    {
        let Some(cursor) = self.trampoline.cursor.checked_add(stubs) else {
            return self.trap_open();
        };
        proof {
            page_size_is_pow2();
        }
        let needed: usize = align_up(cursor, PAGE_SIZE);
            if needed > self.trampoline.mapped_len {
                let start: usize = self.trampoline.addr.wrapping_add(self.trampoline.mapped_len);
                self.map_fresh(
                    Placement::FixedNoReplace(start),
                    needed - self.trampoline.mapped_len,
                    PatchPhase::Expand { cursor, start, needed },
                )
            } else {
                self.write_stubs(cursor)
            }
    }

    fn write_stubs(self, cursor: usize) -> (next: Patching)
        ensures
            next == self.writes_stubs(cursor),
    {
        self.go(
            PatchPhase::WriteStubs { cursor },
            PatchAction::Write {
                addr: self.trampoline.addr.wrapping_add(self.trampoline.cursor),
                from: Buffer::Stubs,
            },
        )
    }

    fn on_staged(self, ok: bool) -> (next: Patching)
        requires
            self.wf(),
            self.phase is CheckRange || self.phase is ReadTrampoline
                || self.phase is FinalizeStaged || self.phase is WriteStaged
                || self.phase is ProtectStaged || self.phase is GiveUp,
        ensures
            next == self.after_staged(ok),
            next.patcher.wf(),
    {
        proof {
            reveal(Patcher::after_staged);
        }
        let t = self.trampoline;
        match self.phase {
            PatchPhase::CheckRange => if ok {
                self.stage()
            } else {
                self.finish(Outcome::Unusable)
            },
            PatchPhase::ReadTrampoline => if !ok {
                self.give_up(t.addr)
            } else if self.request.arch == Arch::Aarch64 {
                self.go(PatchPhase::FinalizeStaged, PatchAction::FinalizeGates)
            } else {
                self.write_staged()
            },
            PatchPhase::FinalizeStaged => if ok {
                self.write_staged()
            } else {
                self.give_up(t.addr)
            },
            PatchPhase::WriteStaged => if ok {
                self.go(
                    PatchPhase::ProtectStaged,
                    PatchAction::Protect {
                        addr: t.addr,
                        len: self.staged_size(),
                        prot: ProtFlags::read_exec(),
                    },
                )
            } else {
                self.give_up(t.addr)
            },
            PatchPhase::ProtectStaged => if ok {
                Patcher {
                    trampoline: Trampoline { mapped: true, mapped_len: self.staged_size(), ..t },
                    ..self
                }.finish(Outcome::Usable)
            } else {
                self.give_up(t.addr)
            },
            PatchPhase::GiveUp => self.finish(Outcome::Unusable),
            _ => self.finish(Outcome::Usable),
        }
    }

    fn on_reserved(self, ok: bool) -> (next: Patching)
        requires
            self.wf(),
            self.phase is DropPreferred || self.phase is DropAnywhere || self.phase is DropPage
                || self.phase is WriteEntry || self.phase is DropReservation,
        ensures
            next == self.after_reserved(ok),
            next.patcher.wf(),
    {
        proof {
            reveal(Patcher::after_reserved);
        }
        let t = self.trampoline;
        match self.phase {
            PatchPhase::DropPreferred => self.try_anywhere(),
            PatchPhase::DropAnywhere => self.try_page(),
            PatchPhase::DropPage | PatchPhase::DropReservation => self.trap_closed(),
            PatchPhase::WriteEntry { len } => if ok {
                self.settle(self.request.limits.entry_point_bytes, len)
            } else {
                self.unmap(t.addr, len, PatchPhase::DropReservation)
            },
            _ => self.finish(Outcome::Usable),
        }
    }

    fn on_opened(self, ok: bool) -> (next: Patching)
        requires
            self.wf(),
            self.phase is OpenTrampoline || self.phase is OpenCode || self.phase is ReadCode,
        ensures
            next == self.after_opened(ok),
            next.patcher.wf(),
    {
        proof {
            reveal(Patcher::after_opened);
        }
        match self.phase {
            PatchPhase::OpenTrampoline => if ok {
                self.protect(ProtFlags::read_write(), PatchPhase::OpenCode)
            } else {
                self.finish(Outcome::Fatal(PatchFailure::TrampolineProtect))
            },
            PatchPhase::OpenCode => if ok {
                self.go(
                    PatchPhase::ReadCode,
                    PatchAction::ReadCode { addr: self.request.addr, len: self.request.len },
                )
            } else {
                self.close_trampoline(Outcome::Fatal(PatchFailure::CodeProtect))
            },
            PatchPhase::ReadCode => if ok {
                self.rewrite()
            } else {
                self.close_code(Outcome::Fatal(PatchFailure::CodeRead))
            },
            _ => self.finish(Outcome::Usable),
        }
    }

    fn on_rewritten(self, ok: bool) -> (next: Patching)
        requires
            self.wf(),
            self.phase is FinalizeStubs || self.phase is DropExpansion || self.phase is WriteStubs
                || self.phase is WriteCode || self.phase is WriteTraps || self.phase is RevertCode
                || self.phase is CloseCode || self.phase is CloseTrampoline,
        ensures
            next == self.after_rewritten(ok),
            next.patcher.wf(),
    {
        proof {
            reveal(Patcher::after_rewritten);
        }
        let t = self.trampoline;
        match self.phase {
            PatchPhase::FinalizeStubs { stubs } => if ok {
                self.make_room(stubs)
            } else {
                self.trap_open()
            },
            PatchPhase::DropExpansion => self.trap_open(),
            PatchPhase::WriteStubs { cursor } => if ok {
                self.write(Buffer::Code, PatchPhase::WriteCode { cursor })
            } else {
                self.close_code(Outcome::Fatal(PatchFailure::StubWrite))
            },
            PatchPhase::WriteCode { cursor } => if ok {
                Patcher {
                    trampoline: Trampoline { cursor, committed: true, ..t },
                    ..self
                }.close_code(Outcome::Usable)
            } else {
                self.write(
                    Buffer::Original,
                    PatchPhase::RevertCode { close: true, failure: PatchFailure::CodeWrite },
                )
            },
            PatchPhase::WriteTraps => if ok {
                self.close_code(Outcome::Usable)
            } else {
                self.write(
                    Buffer::Original,
                    PatchPhase::RevertCode { close: false, failure: PatchFailure::TrapBytesWrite },
                )
            },
            PatchPhase::RevertCode { close, failure } => if close {
                self.close_code(Outcome::Fatal(failure))
            } else {
                self.finish(Outcome::Fatal(failure))
            },
            PatchPhase::CloseCode(outcome) => self.close_trampoline(outcome),
            PatchPhase::CloseTrampoline(outcome) => self.finish(outcome),
            _ => self.finish(Outcome::Usable),
        }
    }

    fn on_trapped(self, ok: bool) -> (next: Patching)
        requires
            self.wf(),
            self.phase is TrapOpen || self.phase is TrapRead || self.phase is TrapRewrite
                || self.phase is TrapWrite || self.phase is TrapClose,
        ensures
            next == self.after_trapped(ok),
            next.patcher.wf(),
    {
        proof {
            reveal(Patcher::after_trapped);
        }
        match self.phase {
            PatchPhase::TrapOpen { close } => if ok {
                self.go(
                    PatchPhase::TrapRead { close },
                    PatchAction::ReadCode { addr: self.request.addr, len: self.request.len },
                )
            } else {
                self.finish(Outcome::Fatal(PatchFailure::TrapProtect))
            },
            PatchPhase::TrapRead { close } => if ok {
                self.go(
                    PatchPhase::TrapRewrite { close },
                    PatchAction::TrapAll {
                        code_vaddr: self.request.addr as u64,
                        scan_from: self.scan_start(),
                    },
                )
            } else {
                self.finish(Outcome::Fatal(PatchFailure::TrapRead))
            },
            PatchPhase::TrapRewrite { close } => if ok {
                self.write(Buffer::Code, PatchPhase::TrapWrite { close })
            } else {
                self.finish(Outcome::Fatal(PatchFailure::TrapDisassemble))
            },
            PatchPhase::TrapWrite { close } => if ok {
                self.protect(ProtFlags::read_exec(), PatchPhase::TrapClose { close })
            } else {
                self.finish(Outcome::Fatal(PatchFailure::TrapWrite))
            },
            PatchPhase::TrapClose { close } => if !ok {
                self.finish(Outcome::Fatal(PatchFailure::TrapRestore))
            } else if close {
                self.close_trampoline(Outcome::Usable)
            } else {
                self.finish(Outcome::Usable)
            },
            _ => self.finish(Outcome::Usable),
        }
    }

    fn on_status(self, ok: bool) -> (next: Patching)
        requires
            self.wf(),
            self.accepts(PatchEvent::Status(ok)),
        ensures
            next == self.after_status(ok),
            next.patcher.wf(),
    {
        match self.phase {
            PatchPhase::CheckRange
            | PatchPhase::ReadTrampoline
            | PatchPhase::FinalizeStaged
            | PatchPhase::WriteStaged
            | PatchPhase::ProtectStaged
            | PatchPhase::GiveUp => self.on_staged(ok),
            PatchPhase::DropPreferred
            | PatchPhase::DropAnywhere
            | PatchPhase::DropPage
            | PatchPhase::WriteEntry { .. }
            | PatchPhase::DropReservation => self.on_reserved(ok),
            PatchPhase::OpenTrampoline
            | PatchPhase::OpenCode
            | PatchPhase::ReadCode => self.on_opened(ok),
            PatchPhase::TrapOpen { .. }
            | PatchPhase::TrapRead { .. }
            | PatchPhase::TrapRewrite { .. }
            | PatchPhase::TrapWrite { .. }
            | PatchPhase::TrapClose { .. } => self.on_trapped(ok),
            _ => self.on_rewritten(ok),
        }
    }

    fn on_map(self, at: Option<usize>) -> (next: Patching)
        requires
            self.wf(),
            self.accepts(PatchEvent::Mapped(at)),
        ensures
            next == self.after_map(at),
            next.patcher.wf(),
    {
        proof {
            reveal(Patcher::after_map);
        }
        let t = self.trampoline;
        match self.phase {
            PatchPhase::MapFixed => match at {
                None => self.finish(Outcome::Unusable),
                Some(p) => if p != t.addr {
                    self.give_up(p)
                } else {
                    self.go(
                        PatchPhase::ReadTrampoline,
                        PatchAction::ReadTrampoline {
                            fd: self.request.fd,
                            offset: t.file_offset,
                            len: t.file_size,
                            entry: if t.file_size >= 8 {
                                Some(self.request.entry)
                            } else {
                                None
                            },
                        },
                    )
                },
            },
            PatchPhase::MapPreferred => match at {
                None => self.try_anywhere(),
                Some(p) => if p == t.addr {
                    self.take(p, self.wanted_size())
                } else {
                    self.unmap(p, self.wanted_size(), PatchPhase::DropPreferred)
                },
            },
            PatchPhase::MapAnywhere => match at {
                None => self.try_page(),
                Some(p) => if self.request.in_reach(p) {
                    self.take(p, self.wanted_size())
                } else {
                    self.unmap(p, self.wanted_size(), PatchPhase::DropAnywhere)
                },
            },
            PatchPhase::MapPage => match at {
                None => self.trap_closed(),
                Some(p) => if p == t.addr {
                    self.take(p, PAGE_SIZE)
                } else {
                    self.unmap(p, PAGE_SIZE, PatchPhase::DropPage)
                },
            },
            PatchPhase::Expand { cursor, start, needed } => match at {
                None => self.trap_open(),
                Some(p) => if p == start {
                    Patcher {
                        trampoline: Trampoline { mapped_len: needed, ..t },
                        ..self
                    }.write_stubs(cursor)
                } else {
                    self.unmap(
                        p,
                        needed - t.mapped_len,
                        PatchPhase::DropExpansion,
                    )
                },
            },
            _ => self.finish(Outcome::Usable),
        }
    }

    fn on_rewrite(self, made: Option<Rewritten>) -> (next: Patching)
        requires
            self.wf(),
            self.accepts(PatchEvent::Rewritten(made)),
        ensures
            next == self.after_rewrite(made),
            next.patcher.wf(),
    {
        proof {
            reveal(Patcher::after_rewrite);
        }
        match made {
            None => self.trap_open(),
            Some(Rewritten { stubs, changed }) => if stubs > 0 {
                if self.request.arch == Arch::Aarch64 {
                    self.go(PatchPhase::FinalizeStubs { stubs }, PatchAction::FinalizeGates)
                } else {
                    self.make_room(stubs)
                }
            } else if changed {
                self.write(Buffer::Code, PatchPhase::WriteTraps)
            } else {
                self.close_code(Outcome::Usable)
            },
        }
    }

    fn scan_start(self) -> (r: Option<usize>)
        ensures
            r == self.scan_from(),
    {
        if self.request.arch == Arch::Aarch64 && self.trampoline.scanned {
            self.request.file_offset
        } else {
            None
        }
    }

    fn staged_size(self) -> (r: usize)
        ensures
            r == self.staged_len(),
    {
        proof {
            page_size_is_pow2();
        }
        align_up(self.trampoline.file_size, PAGE_SIZE)
    }

    fn wanted_size(self) -> (r: usize)
        ensures
            r == self.wanted_len(),
    {
        if self.request.arch == Arch::Aarch64 && self.trampoline.capacity > PAGE_SIZE {
            self.trampoline.capacity
        } else {
            PAGE_SIZE
        }
    }

    /// The first action for a segment of a file with the given state; `None`
    /// where the file is not one whose code is patched.
    pub fn start(request: PatchRequest, state: Option<&ElfPatchState>) -> (first: Patching)
        requires
            request.wf(),
            state matches Some(s) ==> s.wf(),
        ensures
            first == Patcher::first(
                request,
                match state {
                    Some(s) => Some(s@),
                    None => None,
                },
            ),
            first.patcher.wf(),
    {
        let Some(s) = state else {
            let p = Patcher {
                request,
                trampoline: Trampoline {
                    pre_patched: false,
                    file_offset: 0,
                    file_size: 0,
                    addr: 0,
                    load_span: None,
                    cursor: 0,
                    mapped: false,
                    mapped_len: 0,
                    committed: false,
                    invalidated: false,
                    scanned: false,
                    capacity: 0,
                },
                known: false,
                noted: false,
                phase: PatchPhase::End(Outcome::Usable),
            };
            return p.finish(Outcome::Usable);
        };
        let t = s.trampoline;
        let p = Patcher {
            request,
            trampoline: t,
            known: s.patched_ranges.contains((request.addr, request.len)),
            noted: false,
            phase: PatchPhase::End(Outcome::Usable),
        };
        if request.arch == Arch::Aarch64 && t.invalidated {
            p.finish(Outcome::Unusable)
        } else if t.pre_patched {
            if t.mapped || t.file_size == 0 {
                p.finish(Outcome::Usable)
            } else if request.arch == Arch::Aarch64 {
                p.go(
                    PatchPhase::CheckRange,
                    PatchAction::CheckRange { start: t.addr, len: p.staged_size() },
                )
            } else {
                p.stage()
            }
        } else if !t.mapped {
            p.map_fresh(
                Placement::FixedNoReplace(t.addr),
                p.wanted_size(),
                PatchPhase::MapPreferred,
            )
        } else {
            p.start_patching()
        }
    }

    /// Takes the reply of the host and returns what it has to do next.
    pub fn step(&mut self, event: PatchEvent) -> (action: PatchAction)
        requires
            old(self).wf(),
            old(self).accepts(event),
        ensures
            (Patching { patcher: *final(self), action }) == old(self).next(event),
            final(self).wf(),
    {
        let next = match event {
            PatchEvent::Status(ok) => self.on_status(ok),
            PatchEvent::Mapped(at) => self.on_map(at),
            PatchEvent::Rewritten(made) => self.on_rewrite(made),
        };
        *self = next.patcher;
        next.action
    }

    /// What the file's state is once patching has come this far.
    pub open spec fn leaves(self, before: PatchView) -> PatchView {
        PatchView {
            trampoline: self.trampoline,
            file_mappings: before.file_mappings,
            patched_ranges: if self.noted {
                before.patched_ranges.insert((self.request.addr, self.request.len))
            } else {
                before.patched_ranges
            },
        }
    }

    /// Sets down in the cache how far patching has come.
    pub fn record(&self, cache: &mut ElfPatchCache)
        requires
            old(cache).wf(),
        ensures
            final(cache).wf(),
            final(cache)@ == if old(cache)@.dom().contains(self.request.fd) {
                old(cache)@.insert(
                    self.request.fd,
                    self.leaves(old(cache)@[self.request.fd]),
                )
            } else {
                old(cache)@
            },
    {
        if cache.contains_key(self.request.fd) {
            cache.set_trampoline(self.request.fd, self.trampoline);
            if self.noted {
                cache.note_patched(self.request.fd, (self.request.addr, self.request.len));
            }
            assert(cache@ =~= old(cache)@.insert(
                self.request.fd,
                self.leaves(old(cache)@[self.request.fd]),
            ));
        }
    }
}

} // verus!
