//! What is learnt of a file when it is mapped for the first time.
//!
//! As in patching, the host acts and the initializer decides.

use vstd::prelude::*;

use crate::arith::{
    align_up, align_up_spec, ceil_to, ceil_to_is_least_multiple, floor_to_is_greatest_multiple,
    is_pow2, page_size_is_pow2, wrap_add, PAGE_SIZE,
};
use crate::flags::Arch;
use crate::mm::elf_headers::{
    check_trampoline_magic, scan_load_segments, scan_of, summarize, summary_of,
    trampoline_header_of, ElfSummary, LoadScan, TrampolineHeader, ET_DYN, FILE_HEADER_SIZE,
    PROGRAM_HEADER_SIZE, TRAMPOLINE_HEADER_SIZE,
};
use crate::mm::elf_patch::{ElfPatchState, PatchView, Trampoline};
use crate::mm::patch_cache::ElfPatchCache;
use crate::mm::patch_exec::RewriterLimits;
use crate::mm::ranges::AddrRange;

verus! {

/// A file that is mapped for the first time.
#[derive(Clone, Copy, Debug)]
pub struct InitRequest {
    pub arch: Arch,
    pub limits: RewriterLimits,
    /// What the header of a trampoline starts with.
    pub magic: [u8; 8],
    pub fd: i32,
    /// Where it is mapped, and from where in the file.
    pub mapped_addr: usize,
    pub file_offset: usize,
}

/// What the host has to do next.
#[derive(Clone, Copy, Debug, PartialEq, Eq, Structural)]
pub enum InitAction {
    /// Read `len` bytes of the file.
    Read { offset: usize, len: usize },
    /// Tell the size of the file.
    Stat,
    /// Scan the code of the file for the size of the trampoline it needs.
    Scan,
    /// Tell where a trampoline for the machine goes, counted from the load
    /// base.
    Place { max_load_end: u64, max_load_align: u64, machine: u16 },
    /// Nothing is left to do: the state of the file, or none if its code is
    /// not patched.
    Finish(Option<Trampoline>),
    /// The process has to stop: the trampoline of a file that can be loaded
    /// anywhere cannot be found without the load base.
    Fatal,
}

/// What the host answers.
pub enum InitEvent {
    /// What was read, unless reading failed.
    Bytes(Option<Vec<u8>>),
    /// The size of the file, unless it could not be told.
    Size(Option<usize>),
    /// What the scan found, unless it failed.
    Scanned(Option<CodeScan>),
    /// Where the trampoline goes, unless the machine is not supported.
    Placed(Option<u64>),
}

/// What a scan of a file's code found.
#[derive(Clone, Copy, Debug, PartialEq, Eq, Structural)]
pub struct CodeScan {
    /// A size that suffices for the file's stubs, if there is one.
    pub upper_bound: Option<usize>,
}

/// What is known of the file.
#[derive(Clone, Copy, Debug, PartialEq, Eq, Structural)]
pub struct ElfFacts {
    pub summary: ElfSummary,
    pub loads: LoadScan,
}

/// What the initializer is waiting for.
#[derive(Clone, Copy, Debug, PartialEq, Eq, Structural)]
pub enum InitPhase {
    Header,
    Segments(ElfSummary),
    Stat(ElfFacts),
    Tail(ElfFacts),
    Scan(ElfFacts),
    Place { facts: ElfFacts, scanned: bool, capacity: usize },
    End,
}

/// A file of which is being learnt.
#[derive(Clone, Copy, Debug)]
pub struct Initializer {
    pub request: InitRequest,
    pub phase: InitPhase,
}

/// An initializer and the action that it asks for.
pub struct Initializing {
    pub initializer: Initializer,
    pub action: InitAction,
}

/// The size of the trampoline that a scan asks for: room for the entry point
/// and the stubs, in whole pages; one page where that is not known or does not
/// fit.
pub open spec fn capacity_of(limits: RewriterLimits, upper_bound: Option<usize>) -> usize {
    match upper_bound {
        Some(bound) => {
            let total = ceil_to(
                ceil_to(limits.entry_point_bytes as int, limits.cursor_align as int) + bound,
                PAGE_SIZE as int,
            );
            if total <= usize::MAX {
                total as usize
            } else {
                PAGE_SIZE
            }
        },
        None => PAGE_SIZE,
    }
}

/// Rounds up to a multiple, if that fits.
fn checked_ceil(x: usize, align: usize) -> (rounded: Option<usize>)
    requires
        align > 0,
    ensures
        rounded is Some == (ceil_to(x as int, align as int) <= usize::MAX),
        rounded matches Some(r) ==> r == ceil_to(x as int, align as int),
{
    proof {
        ceil_to_is_least_multiple(x as int, align as int);
        floor_to_is_greatest_multiple(x as int, align as int);
    }
    let rest: usize = x % align;
    if rest == 0 {
        assert(ceil_to(x as int, align as int) <= x);
        Some(x)
    } else {
        proof {
            let f = crate::arith::floor_to(x as int, align as int);
            let c = ceil_to(x as int, align as int);
            assert(f + align == c) by {
                assert((f + align) % (align as int) == 0) by {
                    vstd::arithmetic::div_mod::lemma_mod_add_multiples_vanish(f, align as int);
                }
                assert(c <= f + align);
                if c < f + align {
                    assert(c > f);
                    assert(c - align < f);
                    floor_to_is_greatest_multiple(f + align - 1, align as int);
                    assert(c % (align as int) == 0 && c <= f + align - 1);
                    vstd::arithmetic::div_mod::lemma_fundamental_div_mod(c, align as int);
                    vstd::arithmetic::div_mod::lemma_fundamental_div_mod(f, align as int);
                    let p = c / (align as int);
                    let q = f / (align as int);
                    assert(c == align * p && f == align * q);
                    assert(q < p && p < q + 1) by (nonlinear_arith)
                        requires
                            align > 0,
                            align * q < align * p,
                            align * p < align * q + align,
                    ;
                }
            }
        }
        x.checked_add(align - rest)
    }
}

/// The size of the trampoline that a scan asks for.
pub fn trampoline_capacity(limits: RewriterLimits, upper_bound: Option<usize>) -> (capacity: usize)
    requires
        is_pow2(limits.cursor_align as int),
    ensures
        capacity == capacity_of(limits, upper_bound),
{
    proof {
        crate::arith::pow2_is_positive(limits.cursor_align as int);
    }
    let Some(bound) = upper_bound else {
        return PAGE_SIZE;
    };
    proof {
        let inner = ceil_to(limits.entry_point_bytes as int, limits.cursor_align as int);
        ceil_to_is_least_multiple(limits.entry_point_bytes as int, limits.cursor_align as int);
        ceil_to_is_least_multiple(inner + bound, PAGE_SIZE as int);
    }
    let Some(cursor) = checked_ceil(limits.entry_point_bytes, limits.cursor_align) else {
        return PAGE_SIZE;
    };
    let Some(total) = cursor.checked_add(bound) else {
        return PAGE_SIZE;
    };
    match checked_ceil(total, PAGE_SIZE) {
        Some(capacity) => capacity,
        None => PAGE_SIZE,
    }
}

/// The addresses that the file's segments span, if they are known: of a file
/// that can be loaded anywhere only with its load base. The span serves on
/// AArch64 only.
pub open spec fn span_of(arch: Arch, facts: ElfFacts) -> Option<AddrRange> {
    let start = facts.loads.min_start as usize;
    let end = align_up_spec(facts.loads.max_end as usize, PAGE_SIZE);
    if arch != Arch::Aarch64 {
        None
    } else if facts.summary.file_type != ET_DYN {
        Some(AddrRange { start, end })
    } else {
        match facts.loads.base {
            Some(base) => Some(
                AddrRange { start: wrap_add(base, start), end: wrap_add(base, end) },
            ),
            None => None,
        }
    }
}

/// The addresses that the file's segments span, if they are known.
fn load_span(arch: Arch, facts: ElfFacts) -> (span: Option<AddrRange>)
    ensures
        span == span_of(arch, facts),
{
    proof {
        page_size_is_pow2();
    }
    let start: usize = facts.loads.min_start as usize;
    let end: usize = align_up(facts.loads.max_end as usize, PAGE_SIZE);
    if arch != Arch::Aarch64 {
        return None;
    }
    if facts.summary.file_type != ET_DYN {
        return Some(AddrRange { start, end });
    }
    match facts.loads.base {
        Some(base) => Some(
            AddrRange { start: base.wrapping_add(start), end: base.wrapping_add(end) },
        ),
        None => None,
    }
}

/// The address of the trampoline of a file patched before; `None` where the
/// load base it is counted from is not known.
pub open spec fn patched_addr(facts: ElfFacts, header: TrampolineHeader) -> Option<usize> {
    if facts.summary.file_type == ET_DYN {
        match facts.loads.base {
            Some(base) => Some(wrap_add(base, header.vaddr as usize)),
            None => None,
        }
    } else {
        Some(header.vaddr as usize)
    }
}

/// The address at which a fresh trampoline is wanted.
pub open spec fn fresh_addr(facts: ElfFacts, mapped_addr: usize, offset: u64) -> usize {
    let base = if facts.summary.file_type == ET_DYN {
        match facts.loads.base {
            Some(base) => base,
            None => mapped_addr,
        }
    } else {
        0
    };
    wrap_add(base, align_up_spec(offset as usize, PAGE_SIZE))
}

impl Initializer {
    pub open spec fn wf(self) -> bool {
        &&& is_pow2(self.request.limits.cursor_align as int)
        &&& self.phase matches InitPhase::Segments(s) ==> s.phentsize >= PROGRAM_HEADER_SIZE && 0
            < s.phentsize * s.phnum <= 0x1_0000
    }

    /// Whether the event answers what the initializer waits for.
    pub open spec fn accepts(self, event: InitEvent) -> bool {
        match self.phase {
            InitPhase::Header | InitPhase::Segments(_) | InitPhase::Tail(_) => event is Bytes,
            InitPhase::Stat(_) => event is Size,
            InitPhase::Scan(_) => event is Scanned,
            InitPhase::Place { .. } => event is Placed,
            InitPhase::End => false,
        }
    }

    /// Whether the event answers what the initializer waits for.
    pub fn is_answered_by(&self, event: &InitEvent) -> (answered: bool)
        ensures
            answered == self.accepts(*event),
    {
        match self.phase {
            InitPhase::Header | InitPhase::Segments(_) | InitPhase::Tail(_) => {
                matches!(event, InitEvent::Bytes(_))
            },
            InitPhase::Stat(_) => matches!(event, InitEvent::Size(_)),
            InitPhase::Scan(_) => matches!(event, InitEvent::Scanned(_)),
            InitPhase::Place { .. } => matches!(event, InitEvent::Placed(_)),
            InitPhase::End => false,
        }
    }

    pub open spec fn goes(self, phase: InitPhase, action: InitAction) -> Initializing {
        Initializing { initializer: Initializer { phase, ..self }, action }
    }

    pub open spec fn finishes(self, trampoline: Option<Trampoline>) -> Initializing {
        self.goes(InitPhase::End, InitAction::Finish(trampoline))
    }

    /// The first action for a file that may be known already.
    pub open spec fn first(request: InitRequest, known: bool) -> Initializing {
        let fresh = Initializer { request, phase: InitPhase::Header };
        if known {
            fresh.finishes(None)
        } else {
            fresh.goes(
                InitPhase::Header,
                InitAction::Read { offset: 0, len: FILE_HEADER_SIZE },
            )
        }
    }

    /// What follows the header of the file.
    pub open spec fn after_header(self, bytes: Option<Seq<u8>>) -> Initializing {
        match bytes {
            Some(b) if b.len() == FILE_HEADER_SIZE => match summary_of(b) {
                Some(s) => self.goes(
                    InitPhase::Segments(s),
                    InitAction::Read { offset: s.phoff, len: (s.phentsize * s.phnum) as usize },
                ),
                None => self.finishes(None),
            },
            _ => self.finishes(None),
        }
    }

    /// What follows the program headers: the size of the file is asked for if
    /// any segment is loaded.
    pub open spec fn after_segments(self, s: ElfSummary, bytes: Option<Seq<u8>>) -> Initializing {
        match bytes {
            Some(b) if b.len() == s.phentsize * s.phnum => match scan_of(
                b,
                s.phentsize as int,
                s.phnum as int,
                self.request.arch,
                self.request.mapped_addr,
                self.request.file_offset,
            ) {
                Some(loads) if loads.max_end != 0 => self.goes(
                    InitPhase::Stat(ElfFacts { summary: s, loads }),
                    InitAction::Stat,
                ),
                _ => self.finishes(None),
            },
            _ => self.finishes(None),
        }
    }

    /// What follows once the file is known not to have been patched before.
    pub open spec fn after_no_magic(self, facts: ElfFacts) -> Initializing {
        if self.request.arch == Arch::Aarch64 {
            self.goes(InitPhase::Scan(facts), InitAction::Scan)
        } else {
            self.places(facts, false, 0)
        }
    }

    pub open spec fn places(self, facts: ElfFacts, scanned: bool, capacity: usize) -> Initializing {
        self.goes(
            InitPhase::Place { facts, scanned, capacity },
            InitAction::Place {
                max_load_end: facts.loads.max_end,
                max_load_align: facts.loads.max_align,
                machine: facts.summary.machine,
            },
        )
    }

    /// What follows the size of the file: its last bytes are read.
    pub open spec fn after_size(self, facts: ElfFacts, size: Option<usize>) -> Initializing {
        match size {
            Some(n) if n >= TRAMPOLINE_HEADER_SIZE => self.goes(
                InitPhase::Tail(facts),
                InitAction::Read {
                    offset: (n - TRAMPOLINE_HEADER_SIZE) as usize,
                    len: TRAMPOLINE_HEADER_SIZE,
                },
            ),
            _ => self.after_no_magic(facts),
        }
    }

    /// What follows the last bytes of the file.
    pub open spec fn after_tail(self, facts: ElfFacts, bytes: Option<Seq<u8>>) -> Initializing {
        let header = match bytes {
            Some(b) => trampoline_header_of(b, self.request.magic@),
            None => None,
        };
        match header {
            Some(h) => match patched_addr(facts, h) {
                Some(addr) => self.finishes(
                    Some(
                        Trampoline {
                            pre_patched: true,
                            file_offset: h.file_offset,
                            file_size: h.size as usize,
                            ..self.fresh(facts, addr, false, 0)
                        },
                    ),
                ),
                None => self.goes(InitPhase::End, InitAction::Fatal),
            },
            None => self.after_no_magic(facts),
        }
    }

    /// What follows the scan of the code.
    pub open spec fn after_scan(self, facts: ElfFacts, scan: Option<CodeScan>) -> Initializing {
        match scan {
            Some(s) => self.places(
                facts,
                true,
                capacity_of(self.request.limits, s.upper_bound),
            ),
            None => self.places(facts, false, PAGE_SIZE),
        }
    }

    /// The trampoline of a file that was not patched before.
    pub open spec fn fresh(
        self,
        facts: ElfFacts,
        addr: usize,
        scanned: bool,
        capacity: usize,
    ) -> Trampoline {
        Trampoline {
            pre_patched: false,
            file_offset: 0,
            file_size: 0,
            addr,
            load_span: span_of(self.request.arch, facts),
            cursor: 0,
            mapped: false,
            mapped_len: 0,
            committed: false,
            invalidated: false,
            scanned,
            capacity,
        }
    }

    /// What follows an event that answers what the initializer waits for.
    pub open spec fn next(self, event: InitEvent) -> Initializing {
        let bytes: Option<Seq<u8>> = match event {
            InitEvent::Bytes(Some(b)) => Some(b@),
            _ => None,
        };
        match (self.phase, event) {
            (InitPhase::Header, InitEvent::Bytes(_)) => self.after_header(bytes),
            (InitPhase::Segments(s), InitEvent::Bytes(_)) => self.after_segments(s, bytes),
            (InitPhase::Stat(facts), InitEvent::Size(size)) => self.after_size(facts, size),
            (InitPhase::Tail(facts), InitEvent::Bytes(_)) => self.after_tail(facts, bytes),
            (InitPhase::Scan(facts), InitEvent::Scanned(scan)) => self.after_scan(facts, scan),
            (InitPhase::Place { facts, scanned, capacity }, InitEvent::Placed(at)) => match at {
                Some(offset) => self.finishes(
                    Some(
                        self.fresh(
                            facts,
                            fresh_addr(facts, self.request.mapped_addr, offset),
                            scanned,
                            capacity,
                        ),
                    ),
                ),
                None => self.finishes(None),
            },
            _ => arbitrary(),
        }
    }

    fn go(self, phase: InitPhase, action: InitAction) -> (next: Initializing)
        ensures
            next == self.goes(phase, action),
    {
        Initializing { initializer: Initializer { phase, ..self }, action }
    }

    fn finish(self, trampoline: Option<Trampoline>) -> (next: Initializing)
        ensures
            next == self.finishes(trampoline),
    {
        self.go(InitPhase::End, InitAction::Finish(trampoline))
    }

    fn fresh_trampoline(
        &self,
        facts: ElfFacts,
        addr: usize,
        scanned: bool,
        capacity: usize,
    ) -> (t: Trampoline)
        ensures
            t == self.fresh(facts, addr, scanned, capacity),
    {
        Trampoline {
            pre_patched: false,
            file_offset: 0,
            file_size: 0,
            addr,
            load_span: load_span(self.request.arch, facts),
            cursor: 0,
            mapped: false,
            mapped_len: 0,
            committed: false,
            invalidated: false,
            scanned,
            capacity,
        }
    }

    fn place(self, facts: ElfFacts, scanned: bool, capacity: usize) -> (next: Initializing)
        ensures
            next == self.places(facts, scanned, capacity),
    {
        self.go(
            InitPhase::Place { facts, scanned, capacity },
            InitAction::Place {
                max_load_end: facts.loads.max_end,
                max_load_align: facts.loads.max_align,
                machine: facts.summary.machine,
            },
        )
    }

    fn on_no_magic(self, facts: ElfFacts) -> (next: Initializing)
        ensures
            next == self.after_no_magic(facts),
    {
        if self.request.arch == Arch::Aarch64 {
            self.go(InitPhase::Scan(facts), InitAction::Scan)
        } else {
            self.place(facts, false, 0)
        }
    }

    fn on_header(self, bytes: Option<Vec<u8>>) -> (next: Initializing)
        requires
            self.wf(),
        ensures
            next == self.after_header(
                match bytes {
                    Some(b) => Some(b@),
                    None => None,
                },
            ),
            next.initializer.wf(),
    {
        let Some(b) = bytes else {
            return self.finish(None);
        };
        if b.len() != FILE_HEADER_SIZE {
            return self.finish(None);
        }
        let Some(s) = summarize(b.as_slice()) else {
            return self.finish(None);
        };
        self.go(
            InitPhase::Segments(s),
            InitAction::Read { offset: s.phoff, len: s.phentsize * s.phnum },
        )
    }

    fn on_segments(self, s: ElfSummary, bytes: Option<Vec<u8>>) -> (next: Initializing)
        requires
            self.wf(),
            self.phase == InitPhase::Segments(s),
        ensures
            next == self.after_segments(
                s,
                match bytes {
                    Some(b) => Some(b@),
                    None => None,
                },
            ),
            next.initializer.wf(),
    {
        let Some(b) = bytes else {
            return self.finish(None);
        };
        if b.len() != s.phentsize * s.phnum {
            return self.finish(None);
        }
        match scan_load_segments(
            b.as_slice(),
            s.phentsize,
            s.phnum,
            self.request.arch,
            self.request.mapped_addr,
            self.request.file_offset,
        ) {
            Some(loads) => if loads.max_end != 0 {
                self.go(InitPhase::Stat(ElfFacts { summary: s, loads }), InitAction::Stat)
            } else {
                self.finish(None)
            },
            None => self.finish(None),
        }
    }

    fn on_tail(self, facts: ElfFacts, bytes: Option<Vec<u8>>) -> (next: Initializing)
        requires
            self.wf(),
        ensures
            next == self.after_tail(
                facts,
                match bytes {
                    Some(b) => Some(b@),
                    None => None,
                },
            ),
            next.initializer.wf(),
    {
        let Some(b) = bytes else {
            return self.on_no_magic(facts);
        };
        let Some(h) = check_trampoline_magic(b.as_slice(), &self.request.magic) else {
            return self.on_no_magic(facts);
        };
        let addr: usize = if facts.summary.file_type == ET_DYN {
            match facts.loads.base {
                Some(base) => base.wrapping_add(h.vaddr as usize),
                None => {
                    return self.go(InitPhase::End, InitAction::Fatal);
                },
            }
        } else {
            h.vaddr as usize
        };
        self.finish(
            Some(
                Trampoline {
                    pre_patched: true,
                    file_offset: h.file_offset,
                    file_size: h.size as usize,
                    ..self.fresh_trampoline(facts, addr, false, 0)
                },
            ),
        )
    }

    /// The first action for a file that may be known already.
    pub fn start(request: InitRequest, cache: &ElfPatchCache) -> (first: Initializing)
        requires
            is_pow2(request.limits.cursor_align as int),
            cache.wf(),
        ensures
            first == Initializer::first(request, cache@.dom().contains(request.fd)),
            first.initializer.wf(),
    {
        let fresh = Initializer { request, phase: InitPhase::Header };
        if cache.contains_key(request.fd) {
            fresh.finish(None)
        } else {
            fresh.go(InitPhase::Header, InitAction::Read { offset: 0, len: FILE_HEADER_SIZE })
        }
    }

    /// Takes the reply of the host and returns what it has to do next.
    pub fn step(&mut self, event: InitEvent) -> (action: InitAction)
        requires
            old(self).wf(),
            old(self).accepts(event),
        ensures
            (Initializing { initializer: *final(self), action }) == old(self).next(event),
            final(self).wf(),
    {
        let now = *self;
        let next = match (now.phase, event) {
            (InitPhase::Header, InitEvent::Bytes(b)) => now.on_header(b),
            (InitPhase::Segments(s), InitEvent::Bytes(b)) => now.on_segments(s, b),
            (InitPhase::Stat(facts), InitEvent::Size(size)) => match size {
                Some(n) => if n >= TRAMPOLINE_HEADER_SIZE {
                    now.go(
                        InitPhase::Tail(facts),
                        InitAction::Read {
                            offset: n - TRAMPOLINE_HEADER_SIZE,
                            len: TRAMPOLINE_HEADER_SIZE,
                        },
                    )
                } else {
                    now.on_no_magic(facts)
                },
                None => now.on_no_magic(facts),
            },
            (InitPhase::Tail(facts), InitEvent::Bytes(b)) => now.on_tail(facts, b),
            (InitPhase::Scan(facts), InitEvent::Scanned(scan)) => match scan {
                Some(s) => {
                    let capacity: usize = trampoline_capacity(now.request.limits, s.upper_bound);
                    now.place(facts, true, capacity)
                },
                None => now.place(facts, false, PAGE_SIZE),
            },
            (InitPhase::Place { facts, scanned, capacity }, InitEvent::Placed(at)) => match at {
                Some(offset) => {
                    proof {
                        page_size_is_pow2();
                    }
                    let base: usize = if facts.summary.file_type == ET_DYN {
                        match facts.loads.base {
                            Some(base) => base,
                            None => now.request.mapped_addr,
                        }
                    } else {
                        0
                    };
                    let addr: usize = base.wrapping_add(align_up(offset as usize, PAGE_SIZE));
                    now.finish(Some(now.fresh_trampoline(facts, addr, scanned, capacity)))
                },
                None => now.finish(None),
            },
            _ => now.finish(None),
        };
        *self = next.initializer;
        next.action
    }
}

/// Enters the state of a file once its initialization has come to an end,
/// unless another entered it meanwhile.
pub fn record_initialized(cache: &mut ElfPatchCache, fd: i32, trampoline: Option<Trampoline>)
    requires
        old(cache).wf(),
    ensures
        final(cache).wf(),
        final(cache)@ == match trampoline {
            Some(t) if !old(cache)@.dom().contains(fd) => old(cache)@.insert(
                fd,
                (PatchView {
                    trampoline: t,
                    file_mappings: Set::empty(),
                    patched_ranges: Set::empty(),
                }),
            ),
            _ => old(cache)@,
        },
        forall|known: i32| #[trigger]
            old(cache)@.dom().contains(known) ==> final(cache)@.dom().contains(known)
                && final(cache)@[known] == old(cache)@[known],
        trampoline matches Some(t) ==> {
            &&& final(cache)@.dom().contains(fd)
            &&& !old(cache)@.dom().contains(fd) ==> final(cache)@[fd].trampoline == t
        },
{
    if let Some(t) = trampoline {
        cache.insert_if_absent(fd, ElfPatchState::new(t));
    }
}

/// How far the initializer is from its end, at most.
pub open spec fn init_rank(phase: InitPhase) -> nat {
    match phase {
        InitPhase::Header => 6,
        InitPhase::Segments(_) => 5,
        InitPhase::Stat(_) => 4,
        InitPhase::Tail(_) => 3,
        InitPhase::Scan(_) => 2,
        InitPhase::Place { .. } => 1,
        InitPhase::End => 0,
    }
}

/// Every answer brings the end nearer, and a file of which all is learnt
/// starts with nothing mapped and nothing written to its trampoline.
pub proof fn learning_ends_with_a_blank_trampoline(initializer: Initializer, event: InitEvent)
    requires
        initializer.wf(),
        initializer.accepts(event),
    ensures
        init_rank(initializer.next(event).initializer.phase) < init_rank(initializer.phase),
        initializer.next(event).action matches InitAction::Finish(Some(t)) ==> !t.mapped
            && t.mapped_len == 0 && t.cursor == 0 && !t.committed && !t.invalidated,
{
}

/// The span of a file that can be loaded anywhere is never made up: without
/// the load base there is none, so that no other mapping can lie within it.
pub proof fn unknown_base_gives_no_span(arch: Arch, facts: ElfFacts)
    requires
        facts.summary.file_type == ET_DYN,
        facts.loads.base is None,
    ensures
        span_of(arch, facts) is None,
{
}

/// A trampoline of a file that was patched before goes exactly where the
/// file's code branches to, and only a file that can be loaded anywhere and
/// whose base is not known stops the process.
pub proof fn patched_file_keeps_its_address(
    initializer: Initializer,
    facts: ElfFacts,
    tail: Seq<u8>,
    header: TrampolineHeader,
)
    requires
        trampoline_header_of(tail, initializer.request.magic@) == Some(header),
    ensures
        ({
            let next = initializer.after_tail(facts, Some(tail));
            &&& next.action == InitAction::Fatal <==> (facts.summary.file_type == ET_DYN
                && facts.loads.base is None)
            &&& facts.summary.file_type != ET_DYN ==> (next.action matches InitAction::Finish(
                Some(t),
            ) && t.pre_patched && t.addr == header.vaddr as usize)
            &&& facts.summary.file_type == ET_DYN ==> (facts.loads.base matches Some(base) ==> (
            next.action matches InitAction::Finish(Some(t)) && t.pre_patched && t.addr == wrap_add(
                base,
                header.vaddr as usize,
            )))
        }),
{
}

/// A trampoline of the size that a scan asks for has room for the entry point
/// and all the stubs, in whole pages, and for less than a page and one alignment
/// more. Where no address space is large enough, or no size is known, one page
/// has to do.
pub proof fn capacity_suffices(limits: RewriterLimits, upper_bound: Option<usize>)
    requires
        is_pow2(limits.cursor_align as int),
    ensures
        ({
            let capacity = capacity_of(limits, upper_bound);
            &&& capacity % PAGE_SIZE == 0
            &&& upper_bound is None ==> capacity == PAGE_SIZE
            &&& upper_bound matches Some(bound) ==> {
                let needed = limits.entry_point_bytes + bound;
                &&& needed + limits.cursor_align + PAGE_SIZE <= usize::MAX ==> needed <= capacity
                    < needed + limits.cursor_align + PAGE_SIZE
                &&& needed > usize::MAX ==> capacity == PAGE_SIZE
            }
        }),
{
    crate::arith::pow2_is_positive(limits.cursor_align as int);
    let inner = ceil_to(limits.entry_point_bytes as int, limits.cursor_align as int);
    ceil_to_is_least_multiple(limits.entry_point_bytes as int, limits.cursor_align as int);
    if let Some(bound) = upper_bound {
        ceil_to_is_least_multiple(inner + bound, PAGE_SIZE as int);
    }
}

/// The span of a file holds all that its segments load, from the first byte on,
/// and ends with the page of the last one. It is known on AArch64 wherever the
/// file's place is.
pub proof fn span_covers_the_segments(arch: Arch, facts: ElfFacts, base: usize)
    requires
        facts.summary.file_type == ET_DYN ==> facts.loads.base == Some(base),
        facts.summary.file_type != ET_DYN ==> base == 0,
        facts.loads.min_start <= facts.loads.max_end,
        base + facts.loads.max_end + PAGE_SIZE <= usize::MAX,
    ensures
        span_of(arch, facts) is Some == (arch == Arch::Aarch64),
        span_of(arch, facts) matches Some(span) ==> {
            &&& span.start == base + facts.loads.min_start
            &&& base + facts.loads.max_end <= span.end < base + facts.loads.max_end + PAGE_SIZE
            &&& (span.end - base) % PAGE_SIZE as int == 0
        },
{
    reveal(align_up_spec);
    ceil_to_is_least_multiple(facts.loads.max_end as int, PAGE_SIZE as int);
}

/// A fresh trampoline is wanted at the first page behind the place that the host
/// names, counted from where the file is loaded: from its base, or from where it
/// is mapped where the base is not known; from zero if the file cannot be moved.
pub proof fn fresh_trampolines_follow_the_file(facts: ElfFacts, mapped_addr: usize, offset: u64)
    requires
        offset + PAGE_SIZE <= usize::MAX,
    ensures
        ({
            let base = if facts.summary.file_type != ET_DYN {
                0usize
            } else if facts.loads.base is Some {
                facts.loads.base->0
            } else {
                mapped_addr
            };
            let addr = fresh_addr(facts, mapped_addr, offset);
            base + offset + PAGE_SIZE <= usize::MAX ==> {
                &&& base + offset <= addr < base + offset + PAGE_SIZE
                &&& (addr - base) % PAGE_SIZE as int == 0
            }
        }),
{
    reveal(align_up_spec);
    ceil_to_is_least_multiple(offset as int, PAGE_SIZE as int);
}

/// The header of a trampoline is looked for at the very end of the file, and a
/// file that is shorter has none.
pub proof fn headers_are_sought_at_the_end(initializer: Initializer, size: usize)
    requires
        initializer.phase is Stat,
    ensures
        ({
            let next = initializer.next(InitEvent::Size(Some(size)));
            &&& next.action matches InitAction::Read { offset, len } ==> {
                &&& offset + len == size
                &&& len == TRAMPOLINE_HEADER_SIZE
                &&& next.initializer.phase == InitPhase::Tail(initializer.phase->Stat_0)
            }
            &&& next.action is Read <==> size >= TRAMPOLINE_HEADER_SIZE
        }),
{
}

/// A file that ends with the header of a trampoline was patched before. Its
/// trampoline is where the header says, in the file and in memory, and as large;
/// any other file is not taken for patched.
pub proof fn only_headers_tell_patched_files(initializer: Initializer, event: InitEvent)
    requires
        initializer.accepts(event),
    ensures
        initializer.next(event).action matches InitAction::Finish(Some(t)) ==> {
            &&& t.pre_patched ==> initializer.phase is Tail && (event matches InitEvent::Bytes(
                Some(tail),
            ) && (trampoline_header_of(tail@, initializer.request.magic@) matches Some(h)
                && t.file_offset == h.file_offset && t.file_size == h.size as usize))
            &&& !t.pre_patched ==> initializer.phase is Place && t.file_size == 0
                && t.file_offset == 0
        },
        initializer.phase matches InitPhase::Tail(facts) ==> (event matches InitEvent::Bytes(
            Some(tail),
        ) ==> (trampoline_header_of(tail@, initializer.request.magic@) is Some
            <==> initializer.next(event).action is Finish || initializer.next(event).action
            is Fatal)),
{
}

/// On AArch64 the code of a file that was not patched before is scanned. What
/// the scan asks for is what the trampoline is made for, and a file whose scan
/// failed does not count as scanned.
pub proof fn scans_are_heeded(initializer: Initializer, event: InitEvent)
    requires
        initializer.accepts(event),
    ensures
        ({
            let next = initializer.next(event);
            &&& next.action is Scan ==> initializer.request.arch == Arch::Aarch64
            &&& next.action is Place && initializer.request.arch == Arch::Aarch64
                ==> initializer.phase is Scan
            &&& next.initializer.phase matches InitPhase::Place { facts, scanned, capacity } ==> {
                &&& scanned <==> (event matches InitEvent::Scanned(Some(_)))
                &&& event matches InitEvent::Scanned(Some(scan)) ==> capacity == capacity_of(
                    initializer.request.limits,
                    scan.upper_bound,
                )
                &&& event matches InitEvent::Scanned(None) ==> capacity == PAGE_SIZE
                &&& next.action == (InitAction::Place {
                    max_load_end: facts.loads.max_end,
                    max_load_align: facts.loads.max_align,
                    machine: facts.summary.machine,
                })
            }
            &&& next.action matches InitAction::Finish(Some(t)) ==> (
            initializer.phase matches InitPhase::Place { scanned, capacity, .. } ==> t.scanned
                == scanned && t.capacity == capacity)
        }),
{
}

/// A file is left unpatched only where it cannot be read as a program that loads
/// something, where its machine is not supported, or where it is known already.
pub proof fn programs_are_learnt(initializer: Initializer, event: InitEvent)
    requires
        initializer.accepts(event),
        initializer.next(event).action == InitAction::Finish(None),
    ensures
        initializer.phase is Header || initializer.phase is Segments || event
            == InitEvent::Placed(None),
        initializer.phase is Header ==> (event matches InitEvent::Bytes(Some(b)) ==> b@.len()
            != FILE_HEADER_SIZE || summary_of(b@) is None),
{
}

/// The program headers are read whole from where the file's header says they are,
/// and only files that load something are learnt of.
pub proof fn program_headers_are_read_whole(initializer: Initializer, event: InitEvent)
    requires
        initializer.accepts(event),
    ensures
        ({
            let next = initializer.next(event);
            &&& next.initializer.phase matches InitPhase::Segments(s) ==> {
                &&& initializer.phase is Header
                &&& event matches InitEvent::Bytes(Some(b)) && summary_of(b@) == Some(s)
                &&& next.action matches InitAction::Read { offset, len } && offset == s.phoff && len
                    == (s.phentsize * s.phnum) as usize
            }
            &&& next.action is Stat ==> {
                &&& initializer.phase is Segments
                &&& next.initializer.phase matches InitPhase::Stat(facts) && facts.summary
                    == initializer.phase->Segments_0 && facts.loads.max_end != 0
            }
            &&& initializer.phase is Segments ==> next.action is Stat || next.action
                == InitAction::Finish(None)
        }),
{
}

/// A file of which is known already is not learnt of again; any other is looked at
/// from its first byte on.
pub proof fn files_are_learnt_once(request: InitRequest, known: bool)
    ensures
        known ==> Initializer::first(request, known).action == InitAction::Finish(None),
        !known ==> Initializer::first(request, known).action == (InitAction::Read {
            offset: 0,
            len: FILE_HEADER_SIZE,
        }),
{
}

/// Calls `zerocopy::FromZeros::new_vec_zeroed` for `u64`. Claims that a vector
/// that it returns holds `len` zeros, that it returns one where none are asked
/// for, as nothing is allocated then, and none where the words would take more
/// than `isize::MAX` bytes. Whether there is memory for other lengths is not
/// said, as it differs from one call to the next.
#[verifier::external_body]
fn zeroed_words(len: usize) -> (words: Option<Vec<u64>>)
    ensures
        words matches Some(w) ==> w@ == Seq::new(len as nat, |i: int| 0u64),
        len == 0 ==> words is Some,
        len * 8 > isize::MAX ==> words is None,
{
    <u64 as zerocopy::FromZeros>::new_vec_zeroed(len).ok()
}

/// A buffer of words for a file of so many bytes, all zero, so that the file
/// can be scanned in place with its parts aligned. `None` where there is no
/// memory for it: never for an empty file, always for one that fills more than
/// `isize::MAX` bytes.
pub fn scan_buffer(file_size: usize) -> (words: Option<Vec<u64>>)
    ensures
        words matches Some(w) ==> {
            &&& w@.len() == ceil_to(file_size as int, 8) / 8
            &&& file_size <= w@.len() * 8 < file_size + 8
            &&& forall|i: int| 0 <= i < w@.len() ==> w@[i] == 0
        },
        file_size == 0 ==> words is Some,
        ceil_to(file_size as int, 8) > isize::MAX ==> words is None,
{
    let words: usize = if file_size % 8 == 0 {
        file_size / 8
    } else {
        file_size / 8 + 1
    };
    zeroed_words(words)
}

} // verus!
