//! What is known of the ELF files whose code is patched while it is mapped.

use vstd::prelude::*;

use crate::flags::Arch;
use crate::mm::range_set::{mapping_end, meets, Mapping, RangeSet};
use crate::mm::ranges::AddrRange;

verus! {

/// Where a file's trampoline stands and how far it has come.
#[derive(Clone, Copy, Debug, PartialEq, Eq, Structural)]
pub struct Trampoline {
    /// Whether the file was patched before it was mapped.
    pub pre_patched: bool,
    /// Of a file patched before: where in the file the trampoline is, and its
    /// size.
    pub file_offset: u64,
    pub file_size: usize,
    /// Start address of the trampoline.
    pub addr: usize,
    /// The addresses that the file's segments span.
    pub load_span: Option<AddrRange>,
    /// Where the next stub goes, counted from `addr`.
    pub cursor: usize,
    /// Whether the trampoline is mapped.
    pub mapped: bool,
    /// How many bytes of it are mapped.
    pub mapped_len: usize,
    /// Whether code of this file leads to a stub of the trampoline.
    pub committed: bool,
    /// Whether a part of the trampoline was unmapped.
    pub invalidated: bool,
    /// Whether the file's code was scanned.
    pub scanned: bool,
    /// The page-aligned size that the scan asks for.
    pub capacity: usize,
}

impl Trampoline {
    /// The end of the mapped trampoline, cut off at the top of the address
    /// space.
    pub open spec fn end(self) -> int {
        mapping_end((self.addr, self.mapped_len))
    }

    /// What is left of the trampoline once the addresses from `start` up to
    /// `end` are unmapped.
    pub open spec fn without(self, arch: Arch, start: int, end: int) -> Trampoline {
        if arch == Arch::Aarch64 && self.mapped && self.mapped_len > 0 {
            if start <= self.addr && end >= self.end() {
                Trampoline { mapped: false, mapped_len: 0, ..self }
            } else if self.addr < end && start < self.end() {
                Trampoline { invalidated: true, ..self }
            } else {
                self
            }
        } else {
            self
        }
    }

    /// The addresses that a change of protection has to leave alone: those of
    /// a usable trampoline that lies within the span of its file.
    pub open spec fn guarded(self) -> Option<AddrRange> {
        let range = AddrRange { start: self.addr, end: self.end() as usize };
        match self.load_span {
            Some(span) if !self.invalidated && self.mapped && self.mapped_len > 0 && range.within(
                span,
            ) => Some(range),
            _ => None,
        }
    }

    /// Whether the trampoline is mapped in full.
    pub fn is_populated(&self) -> (populated: bool)
        ensures
            populated == (self.mapped && !self.invalidated),
    {
        self.mapped && !self.invalidated
    }

    /// The addresses that a change of protection has to leave alone.
    pub fn guarded_range(&self) -> (range: Option<AddrRange>)
        ensures
            range == self.guarded(),
    {
        let range = AddrRange { start: self.addr, end: self.addr.saturating_add(self.mapped_len) };
        if self.invalidated || !self.mapped || self.mapped_len == 0 {
            return None;
        }
        match self.load_span {
            Some(span) => if range.is_within(&span) {
                Some(range)
            } else {
                None
            },
            None => None,
        }
    }

    /// Accounts for the addresses from `start` up to `end` being unmapped.
    pub fn unmap(&mut self, arch: Arch, start: usize, end: usize)
        ensures
            *final(self) == old(self).without(arch, start as int, end as int),
    {
        if arch == Arch::Aarch64 && self.mapped && self.mapped_len > 0 {
            let own_end: usize = self.addr.saturating_add(self.mapped_len);
            let overlaps = self.addr < end && start < own_end;
            let removes_all = start <= self.addr && end >= own_end;
            if overlaps && !removes_all {
                self.invalidated = true;
            }
            if removes_all {
                self.mapped = false;
                self.mapped_len = 0;
            }
        }
    }
}

/// Patching state of one file.
pub struct ElfPatchState {
    pub trampoline: Trampoline,
    /// Mappings of the file, which have to be patched once they become
    /// executable.
    pub file_mappings: RangeSet,
    /// Mappings that have been patched already.
    pub patched_ranges: RangeSet,
}

/// What an `ElfPatchState` says.
pub struct PatchView {
    pub trampoline: Trampoline,
    pub file_mappings: Set<Mapping>,
    pub patched_ranges: Set<Mapping>,
}

impl View for ElfPatchState {
    type V = PatchView;

    open spec fn view(&self) -> PatchView {
        PatchView {
            trampoline: self.trampoline,
            file_mappings: self.file_mappings@,
            patched_ranges: self.patched_ranges@,
        }
    }
}

impl PatchView {
    /// What is left once the addresses from `start` up to `end` are unmapped.
    pub open spec fn without(self, arch: Arch, start: int, end: int) -> PatchView {
        PatchView {
            trampoline: self.trampoline.without(arch, start, end),
            file_mappings: self.file_mappings.filter(|m: Mapping| !meets(m, start, end)),
            patched_ranges: self.patched_ranges.filter(|m: Mapping| !meets(m, start, end)),
        }
    }
}

impl ElfPatchState {
    pub open spec fn wf(self) -> bool {
        self.file_mappings.wf() && self.patched_ranges.wf()
    }

    /// The state of a file none of whose mappings is known.
    pub fn new(trampoline: Trampoline) -> (state: ElfPatchState)
        ensures
            state.wf(),
            state@ == (PatchView {
                trampoline,
                file_mappings: Set::empty(),
                patched_ranges: Set::empty(),
            }),
    {
        ElfPatchState {
            trampoline,
            file_mappings: RangeSet::new(),
            patched_ranges: RangeSet::new(),
        }
    }

    /// Whether the trampoline is mapped in full.
    pub fn trampoline_is_populated(&self) -> (populated: bool)
        ensures
            populated == (self@.trampoline.mapped && !self@.trampoline.invalidated),
    {
        self.trampoline.is_populated()
    }

    /// Accounts for the addresses from `start` up to `end` being unmapped.
    pub fn unmap(&mut self, arch: Arch, start: usize, end: usize)
        requires
            old(self).wf(),
        ensures
            final(self).wf(),
            final(self)@ == old(self)@.without(arch, start as int, end as int),
    {
        self.trampoline.unmap(arch, start, end);
        self.file_mappings.drop_overlapping(start, end);
        self.patched_ranges.drop_overlapping(start, end);
    }
}

} // verus!
