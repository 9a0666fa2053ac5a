//! Decisions of `mprotect` and `munmap`, and the end of a file's patching.

use vstd::prelude::*;

use crate::arith::{ceil_to, ceil_to_is_least_multiple, PAGE_SIZE};
use crate::errno::Errno;
use crate::flags::{Arch, ProtFlags};
use crate::mm::elf_patch::{PatchView, Trampoline};
use crate::mm::patch_cache::{is_guarded, to_patch, ElfPatchCache, FileMapping};
use crate::mm::range_set::{mapping_end, meets, Mapping};
use crate::mm::ranges::{
    any_holds, ascending, cuts, subtract_ranges, touches, AddrRange,
};

verus! {

/// A mapping of the guest, and whether it can be read, written or executed.
#[derive(Clone, Copy, Debug, PartialEq, Eq, Structural)]
pub struct GuestMapping {
    pub range: AddrRange,
    pub accessible: bool,
}

/// Whether a trampoline of `len` bytes may be mapped at `start` in place of
/// what is there: inside the span of its own file always, elsewhere only where
/// no accessible mapping is overlapped.
pub fn trampoline_range_is_safe_to_map(
    trampoline: &Trampoline,
    start: usize,
    len: usize,
    mappings: &[GuestMapping],
) -> (safe: bool)
    ensures
        safe == ((trampoline.load_span matches Some(span) && (AddrRange {
            start,
            end: mapping_end((start, len)) as usize,
        }).within(span)) || forall|i: int|
            0 <= i < mappings.len() ==> !(#[trigger] mappings[i].accessible
                && mappings[i].range.start < mapping_end((start, len)) && mappings[i].range.end
                > start)),
{
    let end: usize = start.saturating_add(len);
    let range = AddrRange { start, end };
    if let Some(span) = trampoline.load_span {
        if range.is_within(&span) {
            return true;
        }
    }
    let mut i: usize = 0;
    while i < mappings.len()
        invariant
            i <= mappings.len(),
            end == mapping_end((start, len)),
            !(trampoline.load_span matches Some(span) && (AddrRange { start, end }).within(span)),
            forall|k: int|
                0 <= k < i ==> !(#[trigger] mappings[k].accessible && mappings[k].range.start < end
                    && mappings[k].range.end > start),
        decreases mappings.len() - i,
    {
        let m = mappings[i];
        if !(m.range.end <= start || m.range.start >= end) && m.accessible {
            assert(mappings[i as int].accessible);
            return false;
        }
        i += 1;
    }
    true
}

/// Whether the address belongs to a trampoline that is left alone.
pub open spec fn guards(cache: Map<i32, PatchView>, a: int) -> bool {
    exists|r: AddrRange| #[trigger] is_guarded(cache, r) && r.holds(a)
}

/// Whether a trampoline that is left alone starts and ends at `x`.
pub open spec fn guard_cuts(cache: Map<i32, PatchView>, x: int) -> bool {
    exists|r: AddrRange| #[trigger] is_guarded(cache, r) && r.start == x && r.end == x
}

/// Whether the pieces are what is left of the range without the trampolines
/// that are left alone.
pub open spec fn is_unguarded(
    cache: Map<i32, PatchView>,
    range: AddrRange,
    pieces: Seq<AddrRange>,
) -> bool {
    &&& ascending(pieces)
    &&& forall|a: int|
        #![trigger any_holds(pieces, a)]
        any_holds(pieces, a) == (range.holds(a) && !guards(cache, a))
    &&& forall|x: int|
        #![trigger touches(pieces, x)]
        touches(pieces, x) == (guard_cuts(cache, x) && any_holds(pieces, x) && any_holds(
            pieces,
            x - 1,
        ))
}

/// What is left of the range without the trampolines that are left alone.
fn unguarded_pieces(cache: &ElfPatchCache, range: AddrRange) -> (pieces: Vec<AddrRange>)
    requires
        cache.wf(),
    ensures
        is_unguarded(cache@, range, pieces@),
{
    let guarded = cache.guarded_ranges();
    let pieces = subtract_ranges(range, guarded.as_slice());
    proof {
        assert forall|i: int| 0 <= i < guarded@.len() implies (#[trigger] guarded@[i]).start
            <= guarded@[i].end by {
            assert(guarded@.contains(guarded@[i]));
            assert(is_guarded(cache@, guarded@[i]));
        }
        assert forall|a: int| any_holds(guarded@, a) == guards(cache@, a) by {
            if any_holds(guarded@, a) {
                let i = choose|i: int|
                    0 <= i < guarded@.len() && (#[trigger] guarded@[i]).holds(a);
                assert(guarded@.contains(guarded@[i]));
                assert(is_guarded(cache@, guarded@[i]));
            }
            if guards(cache@, a) {
                let r = choose|r: AddrRange| #[trigger] is_guarded(cache@, r) && r.holds(a);
                assert(guarded@.contains(r));
                let i = choose|i: int| 0 <= i < guarded@.len() && guarded@[i] == r;
                assert(guarded@[i].holds(a));
            }
        }
        assert forall|x: int| cuts(guarded@, x) == guard_cuts(cache@, x) by {
            if cuts(guarded@, x) {
                let i = choose|i: int|
                    0 <= i < guarded@.len() && (#[trigger] guarded@[i]).start == x
                        && guarded@[i].end == x;
                assert(guarded@.contains(guarded@[i]));
                assert(is_guarded(cache@, guarded@[i]));
            }
            if guard_cuts(cache@, x) {
                let r = choose|r: AddrRange| #[trigger]
                    is_guarded(cache@, r) && r.start == x && r.end == x;
                assert(guarded@.contains(r));
                let i = choose|i: int| 0 <= i < guarded@.len() && guarded@[i] == r;
                assert(guarded@[i].start == x);
            }
        }
        assert forall|a: int| #![trigger any_holds(pieces@, a)]
            any_holds(pieces@, a) == (range.holds(a) && !guards(cache@, a)) by {
            assert(any_holds(guarded@, a) == guards(cache@, a));
        }
        assert forall|x: int| #![trigger touches(pieces@, x)]
            touches(pieces@, x) == (guard_cuts(cache@, x) && any_holds(pieces@, x) && any_holds(
                pieces@,
                x - 1,
            )) by {
            assert(cuts(guarded@, x) == guard_cuts(cache@, x));
        }
    }
    pieces
}

/// The piece as a mapping.
pub open spec fn as_mapping(piece: AddrRange) -> Mapping {
    (piece.start, (piece.end - piece.start) as usize)
}

/// Whether these are the regions whose protection is changed, in this order.
/// On AArch64 trampolines that lie within the span of their file are left out;
/// where nothing is left an empty region stands for the request.
pub open spec fn is_protected_as(
    cache: Map<i32, PatchView>,
    arch: Arch,
    start: usize,
    len: usize,
    regions: Seq<Mapping>,
) -> bool {
    match arch {
        Arch::X86_64 => regions == seq![(start, len)],
        Arch::Aarch64 => exists|pieces: Seq<AddrRange>| #[trigger]
            is_unguarded(
                cache,
                AddrRange { start, end: mapping_end((start, len)) as usize },
                pieces,
            ) && regions == if pieces.len() == 0 {
                seq![(start, 0usize)]
            } else {
                pieces.map_values(|p: AddrRange| as_mapping(p))
            },
    }
}

/// The regions whose protection is changed, in order.
pub fn mprotect_around_trampolines(
    cache: &ElfPatchCache,
    arch: Arch,
    start: usize,
    len: usize,
) -> (regions: Vec<Mapping>)
    requires
        cache.wf(),
    ensures
        is_protected_as(cache@, arch, start, len, regions@),
        regions.len() > 0,
{
    let mut regions: Vec<Mapping> = Vec::new();
    if arch == Arch::X86_64 {
        regions.push((start, len));
        assert(regions@ =~= seq![(start, len)]);
        return regions;
    }
    let range = AddrRange { start, end: start.saturating_add(len) };
    let pieces = unguarded_pieces(cache, range);
    if pieces.len() == 0 {
        regions.push((start, 0));
        assert(regions@ =~= seq![(start, 0usize)]);
        return regions;
    }
    let mut i: usize = 0;
    while i < pieces.len()
        invariant
            i <= pieces.len(),
            ascending(pieces@),
            regions@.len() == i,
            forall|k: int| 0 <= k < i ==> #[trigger] regions@[k] == as_mapping(pieces@[k]),
        decreases pieces.len() - i,
    {
        let piece = pieces[i];
        regions.push((piece.start, piece.end - piece.start));
        i += 1;
    }
    assert(regions@ =~= pieces@.map_values(|p: AddrRange| as_mapping(p)));
    regions
}

/// The part of a mapping that lies between `start` and `end`.
pub open spec fn clamped(m: FileMapping, start: int, end: int) -> FileMapping {
    let from = if m.start > start {
        m.start as int
    } else {
        start
    };
    let to = if mapping_end(m.mapping()) < end {
        mapping_end(m.mapping())
    } else {
        end
    };
    FileMapping {
        fd: m.fd,
        start: from as usize,
        len: if to > from {
            (to - from) as usize
        } else {
            0
        },
    }
}

/// The mappings of `all` cut down to what lies between `start` and `end`,
/// without those of which nothing is left.
pub open spec fn clamped_all(all: Seq<FileMapping>, start: int, end: int) -> Seq<FileMapping>
    decreases all.len(),
{
    if all.len() == 0 {
        Seq::empty()
    } else {
        let head = clamped_all(all.drop_last(), start, end);
        let last = clamped(all.last(), start, end);
        if last.len == 0 {
            head
        } else {
            head.push(last)
        }
    }
}

/// Whether these are the parts of mapped files to be patched before the
/// addresses from `start` up to `end` become executable, in this order.
pub open spec fn is_patched_as(
    cache: Map<i32, PatchView>,
    arch: Arch,
    start: int,
    end: int,
    parts: Seq<FileMapping>,
) -> bool {
    exists|all: Seq<FileMapping>|
        {
            &&& parts == #[trigger] clamped_all(all, start, end)
            &&& forall|i: int, j: int|
                0 <= i < j < all.len() ==> (#[trigger] all[i]).comes_before(#[trigger] all[j])
            &&& forall|m: FileMapping| #[trigger]
                all.contains(m) == to_patch(cache, arch, start, end, m)
        }
}

/// The parts of mapped files to be patched before `len` bytes from `start` on
/// become executable, by file and then by address.
pub fn maybe_patch_on_mprotect_exec(
    cache: &ElfPatchCache,
    arch: Arch,
    start: usize,
    len: usize,
) -> (parts: Vec<FileMapping>)
    requires
        cache.wf(),
    ensures
        is_patched_as(cache@, arch, start as int, mapping_end((start, len)), parts@),
        forall|i: int| 0 <= i < parts.len() ==> (#[trigger] parts[i]).len > 0,
{
    let end: usize = start.saturating_add(len);
    let all = cache.mappings_to_patch(arch, start, end);
    let mut parts: Vec<FileMapping> = Vec::new();
    let mut i: usize = 0;
    while i < all.len()
        invariant
            i <= all.len(),
            parts@ == clamped_all(all@.take(i as int), start as int, end as int),
            forall|k: int| 0 <= k < parts.len() ==> (#[trigger] parts[k]).len > 0,
        decreases all.len() - i,
    {
        let m = all[i];
        let seg_end: usize = m.start.saturating_add(m.len);
        let from: usize = if m.start > start {
            m.start
        } else {
            start
        };
        let to: usize = if seg_end < end {
            seg_end
        } else {
            end
        };
        let part = FileMapping { fd: m.fd, start: from, len: to.saturating_sub(from) };
        proof {
            assert(all@.take(i + 1).drop_last() =~= all@.take(i as int));
            assert(part == clamped(m, start as int, end as int));
        }
        if part.len != 0 {
            parts.push(part);
        }
        i += 1;
    }
    assert(all@.take(i as int) =~= all@);
    parts
}

/// What the host has to do next to change a protection.
#[derive(Clone, Copy, Debug, PartialEq, Eq, Structural)]
pub enum ProtectAction {
    /// Patch the part of a mapped file.
    Patch(FileMapping),
    /// Change the protection of a region.
    Protect { addr: usize, len: usize, prot: ProtFlags },
    /// The request is over, with an error or without.
    Finish(Option<Errno>),
}

/// What the host answers.
#[derive(Clone, Copy, Debug, PartialEq, Eq, Structural)]
pub enum ProtectEvent {
    /// Whether the code can run.
    Patched(bool),
    /// The error, if the protection could not be changed.
    Protected(Option<Errno>),
}

/// What the protector is waiting for.
#[derive(Clone, Copy, Debug, PartialEq, Eq, Structural)]
pub enum ProtectPhase {
    Patch,
    Protect,
    End,
}

/// A protection being changed.
pub struct Protector {
    pub arch: Arch,
    pub start: usize,
    pub len: usize,
    pub prot: ProtFlags,
    /// The parts of mapped files to patch first.
    pub parts: Vec<FileMapping>,
    /// The regions whose protection is changed.
    pub regions: Vec<Mapping>,
    /// How many of the parts, or of the regions, are done.
    pub done: usize,
    pub phase: ProtectPhase,
}

impl Protector {
    pub open spec fn wf(self) -> bool {
        match self.phase {
            ProtectPhase::Patch => self.done < self.parts.len(),
            ProtectPhase::Protect => self.done < self.regions.len(),
            ProtectPhase::End => true,
        }
    }

    /// What is asked for in the current phase.
    pub open spec fn asks(self) -> ProtectAction {
        match self.phase {
            ProtectPhase::Patch => ProtectAction::Patch(self.parts@[self.done as int]),
            _ => ProtectAction::Protect {
                addr: self.regions@[self.done as int].0,
                len: self.regions@[self.done as int].1,
                prot: self.prot,
            },
        }
    }

    /// Whether the event answers what the protector waits for.
    pub open spec fn accepts(self, event: ProtectEvent) -> bool {
        match self.phase {
            ProtectPhase::Patch => event is Patched,
            ProtectPhase::Protect => event is Protected,
            ProtectPhase::End => false,
        }
    }

    /// Whether the event answers what the protector waits for.
    pub fn is_answered_by(&self, event: ProtectEvent) -> (answered: bool)
        ensures
            answered == self.accepts(event),
    {
        match self.phase {
            ProtectPhase::Patch => matches!(event, ProtectEvent::Patched(_)),
            ProtectPhase::Protect => matches!(event, ProtectEvent::Protected(_)),
            ProtectPhase::End => false,
        }
    }

    /// Whether both are protectors of one request with one set of parts.
    pub open spec fn continues(self, other: Protector) -> bool {
        &&& self.arch == other.arch
        &&& self.start == other.start
        &&& self.len == other.len
        &&& self.prot == other.prot
        &&& self.parts@ == other.parts@
    }

    /// Whether the protector has turned to the protection itself, beginning
    /// with the first of its regions.
    pub open spec fn begins_protecting(
        self,
        action: ProtectAction,
        cache: Map<i32, PatchView>,
    ) -> bool {
        &&& self.phase is Protect
        &&& self.done == 0
        &&& is_protected_as(cache, self.arch, self.start, self.len, self.regions@)
        &&& action == self.asks()
    }

    /// The first action of changing the protection of `len` bytes from `addr`
    /// on. What becomes executable is patched first, where the platform has a
    /// syscall entry point.
    pub fn start(
        arch: Arch,
        addr: usize,
        len: usize,
        prot: ProtFlags,
        entry: usize,
        cache: &ElfPatchCache,
    ) -> (first: (Protector, ProtectAction))
        requires
            cache.wf(),
        ensures
            first.0.wf(),
            first.0.arch == arch && first.0.start == addr && first.0.len == len && first.0.prot
                == prot,
            if prot.execute && entry != 0 {
                is_patched_as(
                    cache@,
                    arch,
                    addr as int,
                    mapping_end((addr, len)),
                    first.0.parts@,
                )
            } else {
                first.0.parts@.len() == 0
            },
            if first.0.parts@.len() > 0 {
                first.0.phase is Patch && first.0.done == 0 && first.1 == first.0.asks()
            } else {
                first.0.begins_protecting(first.1, cache@)
            },
            first.1 matches ProtectAction::Protect { prot: allowed, .. } ==> allowed == prot,
            first.1 matches ProtectAction::Patch(part) ==> prot.execute && entry != 0 && part
                == first.0.parts@[0],
            !(first.1 is Finish),
    {
        let parts = if prot.execute && entry != 0 {
            maybe_patch_on_mprotect_exec(cache, arch, addr, len)
        } else {
            Vec::new()
        };
        if parts.len() > 0 {
            let first = parts[0];
            let protector = Protector {
                arch,
                start: addr,
                len,
                prot,
                parts,
                regions: Vec::new(),
                done: 0,
                phase: ProtectPhase::Patch,
            };
            return (protector, ProtectAction::Patch(first));
        }
        let regions = mprotect_around_trampolines(cache, arch, addr, len);
        let first = regions[0];
        let protector = Protector {
            arch,
            start: addr,
            len,
            prot,
            parts,
            regions,
            done: 0,
            phase: ProtectPhase::Protect,
        };
        (protector, ProtectAction::Protect { addr: first.0, len: first.1, prot })
    }

    fn protect_now(&mut self, cache: &ElfPatchCache) -> (action: ProtectAction)
        requires
            cache.wf(),
        ensures
            final(self).wf(),
            final(self).continues(*old(self)),
            final(self).begins_protecting(action, cache@),
    {
        self.regions = mprotect_around_trampolines(cache, self.arch, self.start, self.len);
        self.done = 0;
        self.phase = ProtectPhase::Protect;
        let first = self.regions[0];
        ProtectAction::Protect { addr: first.0, len: first.1, prot: self.prot }
    }

    /// Takes the reply of the host and returns what it has to do next. Code
    /// that cannot run fails the request on AArch64; on x86-64 it ends the
    /// patching, and the protection is changed all the same. An error of
    /// changing a protection is that of the request.
    pub fn step(&mut self, event: ProtectEvent, cache: &ElfPatchCache) -> (action: ProtectAction)
        requires
            old(self).wf(),
            old(self).accepts(event),
            cache.wf(),
        ensures
            final(self).wf(),
            final(self).continues(*old(self)),
            match event {
                ProtectEvent::Patched(usable) => if !usable && old(self).arch == Arch::Aarch64 {
                    final(self).phase is End && action == ProtectAction::Finish(
                        Some(Errno::ENOMEM),
                    )
                } else if usable && old(self).done + 1 < old(self).parts.len() {
                    final(self).phase is Patch && final(self).done == old(self).done + 1 && action
                        == final(self).asks()
                } else {
                    final(self).begins_protecting(action, cache@)
                },
                ProtectEvent::Protected(Some(e)) => final(self).phase is End && action
                    == ProtectAction::Finish(Some(e)),
                ProtectEvent::Protected(None) => final(self).regions@ == old(self).regions@ && if
                old(self).done + 1 < old(self).regions.len() {
                    final(self).phase is Protect && final(self).done == old(self).done + 1
                        && action == final(self).asks()
                } else {
                    final(self).phase is End && action == ProtectAction::Finish(None)
                },
            },
            action matches ProtectAction::Finish(None) ==> event == ProtectEvent::Protected(None)
                && old(self).done + 1 == old(self).regions.len(),
            action matches ProtectAction::Finish(Some(e)) ==> event == ProtectEvent::Protected(
                Some(e),
            ) || (event == ProtectEvent::Patched(false) && e == Errno::ENOMEM && old(self).arch
                == Arch::Aarch64),
            action matches ProtectAction::Patch(part) ==> event == ProtectEvent::Patched(true)
                && part == old(self).parts@[old(self).done + 1],
            action matches ProtectAction::Protect { prot, .. } ==> prot == old(self).prot,
            old(self).phase is Patch && action is Protect ==> event == ProtectEvent::Patched(false)
                || old(self).done + 1 == old(self).parts.len(),
    {
        match event {
            ProtectEvent::Patched(usable) => {
                if !usable && self.arch == Arch::Aarch64 {
                    self.phase = ProtectPhase::End;
                    return ProtectAction::Finish(Some(Errno::ENOMEM));
                }
                if usable && self.done + 1 < self.parts.len() {
                    self.done = self.done + 1;
                    return ProtectAction::Patch(self.parts[self.done]);
                }
                self.protect_now(cache)
            },
            ProtectEvent::Protected(Some(e)) => {
                self.phase = ProtectPhase::End;
                ProtectAction::Finish(Some(e))
            },
            ProtectEvent::Protected(None) => {
                if self.done + 1 < self.regions.len() {
                    self.done = self.done + 1;
                    let region = self.regions[self.done];
                    return ProtectAction::Protect {
                        addr: region.0,
                        len: region.1,
                        prot: self.prot,
                    };
                }
                self.phase = ProtectPhase::End;
                ProtectAction::Finish(None)
            },
        }
    }
}

/// Accounts for `len` bytes from `addr` on having been unmapped, in whole
/// pages, unless that came to an error, which is returned.
pub fn sys_munmap(
    cache: &mut ElfPatchCache,
    arch: Arch,
    addr: usize,
    len: usize,
    error: Option<Errno>,
) -> (result: Option<Errno>)
    requires
        old(cache).wf(),
        error is None ==> ceil_to(len as int, PAGE_SIZE as int) <= usize::MAX,
    ensures
        result == error,
        final(cache).wf(),
        final(cache)@.dom() == old(cache)@.dom(),
        error is Some ==> final(cache)@ == old(cache)@,
        error is None ==> forall|fd: i32| #[trigger]
            old(cache)@.dom().contains(fd) ==> final(cache)@[fd] == old(cache)@[fd].without(
                arch,
                addr as int,
                mapping_end((addr, ceil_to(len as int, PAGE_SIZE as int) as usize)),
            ),
{
    if error.is_some() {
        return error;
    }
    proof {
        ceil_to_is_least_multiple(len as int, PAGE_SIZE as int);
        crate::arith::page_size_is_pow2();
        if len + PAGE_SIZE - 1 > usize::MAX {
            let c = ceil_to(len as int, PAGE_SIZE as int);
            assert(c % 4096 == 0 && c >= len);
        }
    }
    let rest: usize = len % PAGE_SIZE;
    let whole: usize = if rest == 0 {
        len
    } else {
        len + (PAGE_SIZE - rest)
    };
    assert(whole == ceil_to(len as int, PAGE_SIZE as int));
    cache.clear_file_mappings_for_range(arch, addr, whole);
    error
}

/// Forgets what is known of a file that is closed. Returns the trampoline to
/// unmap: one that was mapped for it and that no code leads to.
pub fn finalize_elf_patch(cache: &mut ElfPatchCache, fd: i32) -> (unused: Option<Mapping>)
    requires
        old(cache).wf(),
    ensures
        final(cache).wf(),
        final(cache)@ == old(cache)@.remove(fd),
        unused == if old(cache)@.dom().contains(fd) {
            let t = old(cache)@[fd].trampoline;
            if t.mapped && !t.pre_patched && !t.committed && t.mapped_len > 0 {
                Some((t.addr, t.mapped_len))
            } else {
                None
            }
        } else {
            None
        },
        !final(cache)@.dom().contains(fd),
        forall|other: i32| #[trigger]
            old(cache)@.dom().contains(other) && other != fd ==> final(cache)@.dom().contains(other)
                && final(cache)@[other] == old(cache)@[other],
        unused matches Some(m) ==> {
            let t = old(cache)@[fd].trampoline;
            &&& !t.committed && !t.pre_patched && t.mapped
            &&& m.0 == t.addr && m.1 == t.mapped_len
        },
{
    match cache.remove(fd) {
        Some(state) => {
            let t = state.trampoline;
            if t.mapped && !t.pre_patched && !t.committed && t.mapped_len > 0 {
                Some((t.addr, t.mapped_len))
            } else {
                None
            }
        },
        None => None,
    }
}

/// A change of protection reaches exactly the addresses that it asks for, but
/// for those of trampolines that lie within the span of their file.
pub proof fn trampolines_keep_their_protection(
    cache: Map<i32, PatchView>,
    start: usize,
    len: usize,
    regions: Seq<Mapping>,
    a: int,
)
    requires
        is_protected_as(cache, Arch::Aarch64, start, len, regions),
    ensures
        (exists|i: int|
            0 <= i < regions.len() && (#[trigger] regions[i]).0 <= a < regions[i].0
                + regions[i].1) == (start <= a < mapping_end((start, len)) && !guards(cache, a)),
{
    let range = AddrRange { start, end: mapping_end((start, len)) as usize };
    let pieces = choose|pieces: Seq<AddrRange>| #[trigger]
        is_unguarded(cache, range, pieces) && regions == if pieces.len() == 0 {
            seq![(start, 0usize)]
        } else {
            pieces.map_values(|p: AddrRange| as_mapping(p))
        };
    assert(any_holds(pieces, a) == (range.holds(a) && !guards(cache, a)));
    if any_holds(pieces, a) {
        let i = choose|i: int| 0 <= i < pieces.len() && (#[trigger] pieces[i]).holds(a);
        assert(regions[i] == as_mapping(pieces[i]));
    }
    if exists|i: int|
        0 <= i < regions.len() && (#[trigger] regions[i]).0 <= a < regions[i].0 + regions[i].1 {
        let i = choose|i: int|
            0 <= i < regions.len() && (#[trigger] regions[i]).0 <= a < regions[i].0
                + regions[i].1;
        assert(pieces.len() > 0);
        assert(regions[i] == as_mapping(pieces[i]));
        assert(pieces[i].start < pieces[i].end);
        assert(pieces[i].holds(a));
    }
}

/// A mapping that was unmapped, even in part, is no longer known: mapping it
/// again patches it again.
pub proof fn unmapped_code_is_patched_again(
    before: PatchView,
    arch: Arch,
    start: int,
    end: int,
    m: Mapping,
)
    requires
        meets(m, start, end),
    ensures
        !before.without(arch, start, end).patched_ranges.contains(m),
        !before.without(arch, start, end).file_mappings.contains(m),
{
}

/// A mapping that the unmapped addresses do not touch is known as before.
pub proof fn other_mappings_are_kept(
    before: PatchView,
    arch: Arch,
    start: int,
    end: int,
    m: Mapping,
)
    requires
        !meets(m, start, end),
    ensures
        before.without(arch, start, end).patched_ranges.contains(m)
            == before.patched_ranges.contains(m),
        before.without(arch, start, end).file_mappings.contains(m)
            == before.file_mappings.contains(m),
{
}

/// A trampoline of which a part was unmapped is not guarded any more, and no
/// code of its file becomes executable on AArch64.
pub proof fn broken_trampoline_is_not_used(
    before: PatchView,
    start: int,
    end: int,
    request: crate::mm::patch_exec::PatchRequest,
)
    requires
        request.arch == Arch::Aarch64,
        before.trampoline.mapped,
        before.trampoline.mapped_len > 0,
        before.trampoline.addr < end,
        start < before.trampoline.end(),
        !(start <= before.trampoline.addr && end >= before.trampoline.end()),
    ensures
        ({
            let left = before.without(Arch::Aarch64, start, end);
            &&& left.trampoline.guarded() is None
            &&& crate::mm::patch_exec::Patcher::first(request, Some(left)).action
                == crate::mm::patch_exec::PatchAction::Finish(
                crate::mm::patch_exec::Outcome::Unusable,
            )
        }),
{
}

/// Whether the part, or the mapping, is of the file and holds the address.
pub open spec fn holds_for(part: FileMapping, fd: i32, a: int) -> bool {
    part.fd == fd && part.start <= a < part.start + part.len
}

proof fn clamped_parts_hold(all: Seq<FileMapping>, start: int, end: int, fd: i32, a: int)
    requires
        0 <= start,
        end <= usize::MAX,
    ensures
        (exists|i: int|
            0 <= i < clamped_all(all, start, end).len() && holds_for(
                #[trigger] clamped_all(all, start, end)[i],
                fd,
                a,
            )) == (start <= a < end && exists|i: int|
            0 <= i < all.len() && (#[trigger] all[i]).fd == fd && all[i].start <= a < mapping_end(
                all[i].mapping(),
            )),
    decreases all.len(),
{
    let parts = clamped_all(all, start, end);
    if all.len() > 0 {
        let less = all.drop_last();
        let head = clamped_all(less, start, end);
        let last = clamped(all.last(), start, end);
        clamped_parts_hold(less, start, end, fd, a);
        if exists|i: int| 0 <= i < parts.len() && holds_for(#[trigger] parts[i], fd, a) {
            let i = choose|i: int| 0 <= i < parts.len() && holds_for(#[trigger] parts[i], fd, a);
            if i < head.len() {
                assert(parts[i] == head[i]);
                let k = choose|k: int|
                    0 <= k < less.len() && (#[trigger] less[k]).fd == fd && less[k].start <= a
                        < mapping_end(less[k].mapping());
                assert(all[k] == less[k]);
            } else {
                assert(all[all.len() - 1].fd == fd);
            }
        }
        if start <= a < end && exists|i: int|
            0 <= i < all.len() && (#[trigger] all[i]).fd == fd && all[i].start <= a < mapping_end(
                all[i].mapping(),
            ) {
            let i = choose|i: int|
                0 <= i < all.len() && (#[trigger] all[i]).fd == fd && all[i].start <= a
                    < mapping_end(all[i].mapping());
            if i < less.len() {
                assert(less[i] == all[i]);
                let k = choose|k: int| 0 <= k < head.len() && holds_for(#[trigger] head[k], fd, a);
                assert(parts[k] == head[k]);
            } else {
                assert(last.len > 0);
                assert(parts[parts.len() - 1] == last);
                assert(holds_for(parts[parts.len() - 1], fd, a));
            }
        }
    }
}

/// No code becomes executable unpatched: an address that becomes executable is
/// in one of the parts that are patched first if and only if a known mapping of
/// the file holds it. On X86-64, files that were patched before they were mapped
/// are left as they are.
pub proof fn code_is_patched_before_it_becomes_executable(
    cache: Map<i32, PatchView>,
    arch: Arch,
    start: usize,
    len: usize,
    parts: Seq<FileMapping>,
    fd: i32,
    a: int,
)
    requires
        is_patched_as(cache, arch, start as int, mapping_end((start, len)), parts),
        start <= a < mapping_end((start, len)),
    ensures
        (exists|i: int| 0 <= i < parts.len() && holds_for(#[trigger] parts[i], fd, a)) == (
        cache.dom().contains(fd) && !(arch == Arch::X86_64 && cache[fd].trampoline.pre_patched)
            && exists|m: Mapping| #[trigger]
            cache[fd].file_mappings.contains(m) && m.0 <= a < mapping_end(m)),
{
    let end = mapping_end((start, len));
    let all = choose|all: Seq<FileMapping>|
        {
            &&& parts == #[trigger] clamped_all(all, start as int, end)
            &&& forall|i: int, j: int|
                0 <= i < j < all.len() ==> (#[trigger] all[i]).comes_before(#[trigger] all[j])
            &&& forall|m: FileMapping| #[trigger]
                all.contains(m) == to_patch(cache, arch, start as int, end, m)
        };
    clamped_parts_hold(all, start as int, end, fd, a);
    if exists|i: int| 0 <= i < parts.len() && holds_for(#[trigger] parts[i], fd, a) {
        let i = choose|i: int|
            0 <= i < all.len() && (#[trigger] all[i]).fd == fd && all[i].start <= a < mapping_end(
                all[i].mapping(),
            );
        assert(all.contains(all[i]));
        assert(cache[fd].file_mappings.contains(all[i].mapping()));
    }
    if cache.dom().contains(fd) && !(arch == Arch::X86_64 && cache[fd].trampoline.pre_patched)
        && exists|m: Mapping| #[trigger]
        cache[fd].file_mappings.contains(m) && m.0 <= a < mapping_end(m) {
        let m = choose|m: Mapping| #[trigger]
            cache[fd].file_mappings.contains(m) && m.0 <= a < mapping_end(m);
        let file = FileMapping { fd, start: m.0, len: m.1 };
        assert(file.mapping() == m);
        assert(to_patch(cache, arch, start as int, end, file));
        assert(all.contains(file));
        let i = choose|i: int| 0 <= i < all.len() && all[i] == file;
        assert(all[i].fd == fd && all[i].start <= a < mapping_end(all[i].mapping()));
    }
}

/// A change of protection on X86-64 reaches exactly the addresses that it asks
/// for.
pub proof fn protection_reaches_what_is_asked_for(
    cache: Map<i32, PatchView>,
    start: usize,
    len: usize,
    regions: Seq<Mapping>,
    a: int,
)
    requires
        is_protected_as(cache, Arch::X86_64, start, len, regions),
    ensures
        (exists|i: int|
            0 <= i < regions.len() && (#[trigger] regions[i]).0 <= a < regions[i].0
                + regions[i].1) == (start <= a < start + len),
{
    assert(regions[0] == (start, len));
}

/// The addresses that a change of protection leaves alone are those of a mapped
/// trampoline, all of them, and they lie between the addresses that the segments
/// of its file span.
pub proof fn only_inner_trampolines_are_guarded(t: Trampoline)
    ensures
        t.guarded() matches Some(r) ==> {
            &&& t.mapped && !t.invalidated
            &&& r.start == t.addr && r.start <= r.end
            &&& r.end == t.addr + t.mapped_len || (r.end == usize::MAX && t.addr + t.mapped_len
                > usize::MAX)
            &&& t.load_span matches Some(span) && span.start <= r.start && r.end <= span.end
        },
        t.guarded() is None && t.mapped && !t.invalidated && t.mapped_len > 0 ==> (
        t.load_span matches Some(span) ==> t.addr < span.start || mapping_end(
            (t.addr, t.mapped_len),
        ) > span.end),
{
}

/// Unmapping what a trampoline does not overlap leaves it as it is, and so does
/// unmapping anything on X86-64. One that is unmapped whole can be mapped anew;
/// one that is unmapped in part cannot be used again.
pub proof fn trampolines_are_unmapped_with_their_pages(
    t: Trampoline,
    arch: Arch,
    start: int,
    end: int,
)
    requires
        t.mapped,
        0 < t.mapped_len,
        t.addr + t.mapped_len <= usize::MAX,
    ensures
        ({
            let left = t.without(arch, start, end);
            let whole = start <= t.addr && t.addr + t.mapped_len <= end;
            let part = !whole && start < t.addr + t.mapped_len && t.addr < end;
            &&& arch == Arch::X86_64 ==> left == t
            &&& arch == Arch::Aarch64 ==> {
                &&& left.mapped == !whole
                &&& left.invalidated == (t.invalidated || part)
                &&& !whole ==> left.mapped_len == t.mapped_len
                &&& whole ==> left.mapped_len == 0
            }
            &&& left.addr == t.addr && left.cursor == t.cursor && left.committed == t.committed
                && left.pre_patched == t.pre_patched
        }),
{
}

} // verus!
