//! Patching state of all files of a process, by file descriptor.

use vstd::prelude::*;

use crate::flags::Arch;
use crate::mm::elf_patch::{ElfPatchState, PatchView, Trampoline};
use crate::mm::range_set::{meets, overlaps, precedes, Mapping};
use crate::mm::ranges::AddrRange;

verus! {

/// Whether one of the entries is that of `fd`.
pub open spec fn has_fd(entries: Seq<(i32, ElfPatchState)>, fd: i32) -> bool {
    exists|i: int| 0 <= i < entries.len() && (#[trigger] entries[i]).0 == fd
}

/// The place of the entry of `fd`.
pub open spec fn place_of(entries: Seq<(i32, ElfPatchState)>, fd: i32) -> int {
    choose|i: int| 0 <= i < entries.len() && (#[trigger] entries[i]).0 == fd
}

/// The state of each file that has an entry.
pub open spec fn entries_view(entries: Seq<(i32, ElfPatchState)>) -> Map<i32, PatchView> {
    Map::new(|fd: i32| has_fd(entries, fd), |fd: i32| entries[place_of(entries, fd)].1@)
}

/// Whether the entries ascend by file descriptor and each is well formed.
pub open spec fn entries_wf(entries: Seq<(i32, ElfPatchState)>) -> bool {
    &&& forall|i: int, j: int|
        0 <= i < j < entries.len() ==> (#[trigger] entries[i]).0 < (#[trigger] entries[j]).0
    &&& forall|i: int| 0 <= i < entries.len() ==> (#[trigger] entries[i]).1.wf()
}

/// The view at the file descriptor of an entry is what the entry says.
proof fn view_at(entries: Seq<(i32, ElfPatchState)>, i: int)
    requires
        entries_wf(entries),
        0 <= i < entries.len(),
    ensures
        entries_view(entries).dom().contains(entries[i].0),
        entries_view(entries)[entries[i].0] == entries[i].1@,
        place_of(entries, entries[i].0) == i,
{
    let fd = entries[i].0;
    assert(has_fd(entries, fd));
    let p = place_of(entries, fd);
    assert(entries[p].0 == fd);
    if p < i {
        assert(entries[p].0 < entries[i].0);
    } else if i < p {
        assert(entries[i].0 < entries[p].0);
    }
}

/// Changing one entry changes the view there and nowhere else.
proof fn view_after_update(
    before: Seq<(i32, ElfPatchState)>,
    after: Seq<(i32, ElfPatchState)>,
    i: int,
)
    requires
        entries_wf(before),
        0 <= i < before.len(),
        after.len() == before.len(),
        forall|k: int| 0 <= k < before.len() && k != i ==> #[trigger] after[k] == before[k],
        after[i].0 == before[i].0,
        after[i].1.wf(),
    ensures
        entries_wf(after),
        entries_view(after) == entries_view(before).insert(before[i].0, after[i].1@),
{
    let fd = before[i].0;
    assert forall|p: int, q: int| 0 <= p < q < after.len() implies (#[trigger] after[p]).0 < (
    #[trigger] after[q]).0 by {
        assert(before[p].0 < before[q].0);
    }
    let lhs = entries_view(after);
    let rhs = entries_view(before).insert(fd, after[i].1@);
    assert forall|x: i32| lhs.dom().contains(x) == rhs.dom().contains(x) by {
        if has_fd(after, x) {
            let k = choose|k: int| 0 <= k < after.len() && (#[trigger] after[k]).0 == x;
            assert(before[k].0 == x);
        }
        if has_fd(before, x) {
            let k = choose|k: int| 0 <= k < before.len() && (#[trigger] before[k]).0 == x;
            assert(after[k].0 == x);
        }
        view_at(after, i);
    }
    assert forall|x: i32| lhs.dom().contains(x) implies lhs[x] == rhs[x] by {
        let k = choose|k: int| 0 <= k < after.len() && (#[trigger] after[k]).0 == x;
        view_at(after, k);
        view_at(before, k);
        if k != i {
            if k < i {
                assert(before[k].0 < before[i].0);
            } else {
                assert(before[i].0 < before[k].0);
            }
        }
    }
    assert(lhs =~= rhs);
}

/// Patching state of all files of a process, by file descriptor.
pub struct ElfPatchCache {
    entries: Vec<(i32, ElfPatchState)>,
}

impl View for ElfPatchCache {
    type V = Map<i32, PatchView>;

    closed spec fn view(&self) -> Map<i32, PatchView> {
        entries_view(self.entries@)
    }
}

/// A mapping of a file, as it has to be patched.
#[derive(Clone, Copy, Debug, PartialEq, Eq, Structural)]
pub struct FileMapping {
    pub fd: i32,
    pub start: usize,
    pub len: usize,
}

impl FileMapping {
    /// The mapping without its file.
    pub open spec fn mapping(self) -> Mapping {
        (self.start, self.len)
    }

    /// Whether `self` comes before `other`: by file, then by mapping.
    pub open spec fn comes_before(self, other: FileMapping) -> bool {
        self.fd < other.fd || (self.fd == other.fd && precedes(self.mapping(), other.mapping()))
    }
}

/// Whether the files at and behind a place are past those that are listed.
spec fn listed_before(out: Seq<FileMapping>, entries: Seq<(i32, ElfPatchState)>, i: int) -> bool {
    forall|k: int, j: int|
        0 <= k < out.len() && i <= j < entries.len() ==> (#[trigger] out[k]).fd < (
        #[trigger] entries[j]).0
}

impl ElfPatchCache {
    pub closed spec fn wf(self) -> bool {
        entries_wf(self.entries@)
    }

    /// A cache that knows no file.
    pub fn new() -> (cache: ElfPatchCache)
        ensures
            cache.wf(),
            cache@ == Map::<i32, PatchView>::empty(),
    {
        let cache = ElfPatchCache { entries: Vec::new() };
        assert(cache@ =~= Map::<i32, PatchView>::empty());
        cache
    }

    /// The place of the first entry whose file descriptor is not below `fd`.
    fn place(&self, fd: i32) -> (at: usize)
        requires
            self.wf(),
        ensures
            at <= self.entries@.len(),
            forall|k: int| 0 <= k < at ==> (#[trigger] self.entries@[k]).0 < fd,
            forall|k: int| at <= k < self.entries@.len() ==> (#[trigger] self.entries@[k]).0 >= fd,
            self@.dom().contains(fd) == (at < self.entries@.len() && self.entries@[at as int].0
                == fd),
            self@.dom().contains(fd) ==> self@[fd] == self.entries@[at as int].1@,
    {
        let mut at: usize = 0;
        while at < self.entries.len() && self.entries[at].0 < fd
            invariant
                at <= self.entries.len(),
                forall|k: int| 0 <= k < at ==> (#[trigger] self.entries@[k]).0 < fd,
            decreases self.entries.len() - at,
        {
            at += 1;
        }
        proof {
            assert forall|k: int| at <= k < self.entries@.len() implies (
            #[trigger] self.entries@[k]).0 >= fd by {
                if at < k {
                    assert(self.entries@[at as int].0 < self.entries@[k].0);
                }
            }
            if self@.dom().contains(fd) {
                let k = choose|k: int|
                    0 <= k < self.entries@.len() && (#[trigger] self.entries@[k]).0 == fd;
                assert(k >= at);
                if k > at {
                    assert(self.entries@[at as int].0 < self.entries@[k].0);
                }
                view_at(self.entries@, at as int);
            }
        }
        at
    }

    /// Whether the file is known.
    pub fn contains_key(&self, fd: i32) -> (known: bool)
        requires
            self.wf(),
        ensures
            known == self@.dom().contains(fd),
    {
        let at = self.place(fd);
        at < self.entries.len() && self.entries[at].0 == fd
    }

    /// The state of the file, if it is known.
    pub fn get(&self, fd: i32) -> (state: Option<&ElfPatchState>)
        requires
            self.wf(),
        ensures
            state is Some == self@.dom().contains(fd),
            state matches Some(s) ==> s.wf() && s@ == self@[fd],
    {
        let at = self.place(fd);
        if at < self.entries.len() && self.entries[at].0 == fd {
            Some(&self.entries[at].1)
        } else {
            None
        }
    }

    /// Enters the state of a file unless the file is known already.
    pub fn insert_if_absent(&mut self, fd: i32, state: ElfPatchState)
        requires
            old(self).wf(),
            state.wf(),
        ensures
            final(self).wf(),
            final(self)@ == if old(self)@.dom().contains(fd) {
                old(self)@
            } else {
                old(self)@.insert(fd, state@)
            },
    {
        let at = self.place(fd);
        if at < self.entries.len() && self.entries[at].0 == fd {
            return;
        }
        let ghost before = self.entries@;
        self.entries.insert(at, (fd, state));
        proof {
            let after = self.entries@;
            assert(after =~= before.insert(at as int, (fd, state)));
            assert forall|p: int, q: int| 0 <= p < q < after.len() implies (#[trigger] after[p]).0
                < (#[trigger] after[q]).0 by {
                let i = if p < at { p } else { p - 1 };
                let j = if q < at { q } else { q - 1 };
                if p == at {
                    assert(after[q] == before[j]);
                } else if q == at {
                    assert(after[p] == before[i]);
                } else {
                    assert(after[p] == before[i] && after[q] == before[j]);
                }
            }
            assert forall|k: int| 0 <= k < after.len() implies (#[trigger] after[k]).1.wf() by {
                if k < at {
                    assert(after[k] == before[k]);
                } else if k > at {
                    assert(after[k] == before[k - 1]);
                }
            }
            let lhs = entries_view(after);
            let rhs = entries_view(before).insert(fd, state@);
            assert forall|x: i32| lhs.dom().contains(x) == rhs.dom().contains(x) by {
                if has_fd(after, x) {
                    let k = choose|k: int| 0 <= k < after.len() && (#[trigger] after[k]).0 == x;
                    if k < at {
                        assert(before[k].0 == x);
                    } else if k > at {
                        assert(before[k - 1].0 == x);
                    }
                }
                if has_fd(before, x) {
                    let k = choose|k: int| 0 <= k < before.len() && (#[trigger] before[k]).0 == x;
                    if k < at {
                        assert(after[k].0 == x);
                    } else {
                        assert(after[k + 1].0 == x);
                    }
                }
                assert(after[at as int].0 == fd);
            }
            assert forall|x: i32| lhs.dom().contains(x) implies lhs[x] == rhs[x] by {
                let k = choose|k: int| 0 <= k < after.len() && (#[trigger] after[k]).0 == x;
                view_at(after, k);
                if k < at {
                    view_at(before, k);
                } else if k > at {
                    view_at(before, k - 1);
                    assert(after[at as int].0 < after[k].0);
                }
            }
            assert(lhs =~= rhs);
        }
    }

    /// Forgets the file. Returns what was known of it.
    pub fn remove(&mut self, fd: i32) -> (state: Option<ElfPatchState>)
        requires
            old(self).wf(),
        ensures
            final(self).wf(),
            final(self)@ == old(self)@.remove(fd),
            state is Some == old(self)@.dom().contains(fd),
            state matches Some(s) ==> s.wf() && s@ == old(self)@[fd],
    {
        let at = self.place(fd);
        if !(at < self.entries.len() && self.entries[at].0 == fd) {
            assert(self@ =~= old(self)@.remove(fd));
            return None;
        }
        let ghost before = self.entries@;
        let entry = self.entries.remove(at);
        proof {
            let after = self.entries@;
            assert(after =~= before.remove(at as int));
            assert forall|p: int, q: int| 0 <= p < q < after.len() implies (#[trigger] after[p]).0
                < (#[trigger] after[q]).0 by {
                let i = if p < at { p } else { p + 1 };
                let j = if q < at { q } else { q + 1 };
                assert(before[i].0 < before[j].0);
            }
            assert forall|k: int| 0 <= k < after.len() implies (#[trigger] after[k]).1.wf() by {
                let i = if k < at { k } else { k + 1 };
                assert(after[k] == before[i]);
            }
            let lhs = entries_view(after);
            let rhs = entries_view(before).remove(fd);
            assert forall|x: i32| lhs.dom().contains(x) == rhs.dom().contains(x) by {
                if has_fd(after, x) {
                    let k = choose|k: int| 0 <= k < after.len() && (#[trigger] after[k]).0 == x;
                    let i = if k < at { k } else { k + 1 };
                    assert(before[i].0 == x);
                    if i < at {
                        assert(before[i].0 < before[at as int].0);
                    } else {
                        assert(before[at as int].0 < before[i].0);
                    }
                }
                if has_fd(before, x) && x != fd {
                    let k = choose|k: int| 0 <= k < before.len() && (#[trigger] before[k]).0 == x;
                    if k < at {
                        assert(after[k].0 == x);
                    } else {
                        assert(after[k - 1].0 == x);
                    }
                }
            }
            assert forall|x: i32| lhs.dom().contains(x) implies lhs[x] == rhs[x] by {
                let k = choose|k: int| 0 <= k < after.len() && (#[trigger] after[k]).0 == x;
                view_at(after, k);
                view_at(
                    before,
                    if k < at {
                        k
                    } else {
                        k + 1
                    },
                );
            }
            assert(lhs =~= rhs);
        }
        Some(entry.1)
    }

    /// Notes a mapping of the file, if the file is known.
    pub fn note_mapping(&mut self, fd: i32, m: Mapping)
        requires
            old(self).wf(),
        ensures
            final(self).wf(),
            final(self)@ == if old(self)@.dom().contains(fd) {
                old(self)@.insert(
                    fd,
                    (PatchView {
                        file_mappings: old(self)@[fd].file_mappings.insert(m),
                        ..old(self)@[fd]
                    }),
                )
            } else {
                old(self)@
            },
    {
        let at = self.place(fd);
        if at < self.entries.len() && self.entries[at].0 == fd {
            let ghost before = self.entries@;
            self.entries[at].1.file_mappings.insert(m);
            proof {
                view_after_update(before, self.entries@, at as int);
            }
        }
    }

    /// Sets down where the trampoline of a known file stands.
    pub fn set_trampoline(&mut self, fd: i32, trampoline: Trampoline)
        requires
            old(self).wf(),
            old(self)@.dom().contains(fd),
        ensures
            final(self).wf(),
            final(self)@ == old(self)@.insert(
                fd,
                (PatchView { trampoline, ..old(self)@[fd] }),
            ),
    {
        let at = self.place(fd);
        let ghost before = self.entries@;
        self.entries[at].1.trampoline = trampoline;
        proof {
            view_after_update(before, self.entries@, at as int);
        }
    }

    /// Notes that a mapping of a known file is patched.
    pub fn note_patched(&mut self, fd: i32, m: Mapping)
        requires
            old(self).wf(),
            old(self)@.dom().contains(fd),
        ensures
            final(self).wf(),
            final(self)@ == old(self)@.insert(
                fd,
                (PatchView {
                    patched_ranges: old(self)@[fd].patched_ranges.insert(m),
                    ..old(self)@[fd]
                }),
            ),
    {
        let at = self.place(fd);
        let ghost before = self.entries@;
        self.entries[at].1.patched_ranges.insert(m);
        proof {
            view_after_update(before, self.entries@, at as int);
        }
    }

    /// Accounts for `unmap_len` bytes from `unmap_start` on being unmapped:
    /// mappings that overlap them are forgotten, so that mapping the same part
    /// of the file again patches it again.
    pub fn clear_file_mappings_for_range(
        &mut self,
        arch: Arch,
        unmap_start: usize,
        unmap_len: usize,
    )
        requires
            old(self).wf(),
        ensures
            final(self).wf(),
            final(self)@.dom() == old(self)@.dom(),
            forall|fd: i32| #[trigger]
                old(self)@.dom().contains(fd) ==> final(self)@[fd] == old(self)@[fd].without(
                    arch,
                    unmap_start as int,
                    crate::mm::range_set::mapping_end((unmap_start, unmap_len)),
                ),
    {
        let end: usize = unmap_start.saturating_add(unmap_len);
        let ghost before = self.entries@;
        let mut i: usize = 0;
        while i < self.entries.len()
            invariant
                i <= self.entries.len(),
                self.entries@.len() == before.len(),
                entries_wf(before),
                entries_wf(self.entries@),
                forall|k: int| 0 <= k < before.len() ==> (#[trigger] self.entries@[k]).0
                    == before[k].0,
                forall|k: int| i <= k < before.len() ==> #[trigger] self.entries@[k] == before[k],
                forall|k: int|
                    0 <= k < i ==> (#[trigger] self.entries@[k]).1@ == before[k].1@.without(
                        arch,
                        unmap_start as int,
                        end as int,
                    ),
            decreases self.entries.len() - i,
        {
            let ghost mid = self.entries@;
            self.entries[i].1.unmap(arch, unmap_start, end);
            proof {
                view_after_update(mid, self.entries@, i as int);
            }
            i += 1;
        }
        proof {
            let after = self.entries@;
            assert forall|x: i32| has_fd(after, x) == has_fd(before, x) by {
                if has_fd(after, x) {
                    let k = choose|k: int| 0 <= k < after.len() && (#[trigger] after[k]).0 == x;
                    assert(before[k].0 == x);
                }
                if has_fd(before, x) {
                    let k = choose|k: int| 0 <= k < before.len() && (#[trigger] before[k]).0 == x;
                    assert(after[k].0 == x);
                }
            }
            assert(self@.dom() =~= old(self)@.dom());
            assert forall|fd: i32| #[trigger] old(self)@.dom().contains(fd) implies self@[fd]
                == old(self)@[fd].without(arch, unmap_start as int, end as int) by {
                let k = choose|k: int| 0 <= k < before.len() && (#[trigger] before[k]).0 == fd;
                view_at(before, k);
                view_at(after, k);
                assert(after[k].0 == fd);
            }
        }
    }

    /// The addresses that a change of protection has to leave alone.
    pub fn guarded_ranges(&self) -> (ranges: Vec<AddrRange>)
        requires
            self.wf(),
        ensures
            forall|r: AddrRange| #[trigger] ranges@.contains(r) == is_guarded(self@, r),
    {
        let mut ranges: Vec<AddrRange> = Vec::new();
        let mut i: usize = 0;
        while i < self.entries.len()
            invariant
                i <= self.entries.len(),
                self.wf(),
                forall|k: int| 0 <= k < ranges.len() ==> is_guarded(self@, #[trigger] ranges@[k]),
                forall|k: int|
                    0 <= k < i ==> (
                    (#[trigger] self.entries@[k]).1@.trampoline.guarded() matches Some(r)
                        ==> ranges@.contains(r)),
            decreases self.entries.len() - i,
        {
            let ghost before = ranges@;
            proof {
                view_at(self.entries@, i as int);
            }
            match self.entries[i].1.trampoline.guarded_range() {
                Some(r) => {
                    ranges.push(r);
                    assert(ranges@[before.len() as int] == r);
                    assert forall|x: AddrRange| before.contains(x) implies ranges@.contains(x) by {
                        let p = choose|p: int| 0 <= p < before.len() && before[p] == x;
                        assert(ranges@[p] == x);
                    }
                    assert(self@.dom().contains(self.entries@[i as int].0));
                },
                None => {},
            }
            i += 1;
        }
        proof {
            assert forall|r: AddrRange| #[trigger] ranges@.contains(r) == is_guarded(self@, r) by {
                if ranges@.contains(r) {
                    let p = choose|p: int| 0 <= p < ranges@.len() && ranges@[p] == r;
                    assert(is_guarded(self@, ranges@[p]));
                }
                if is_guarded(self@, r) {
                    let fd = choose|fd: i32| #[trigger]
                        self@.dom().contains(fd) && self@[fd].trampoline.guarded() == Some(r);
                    let k = choose|k: int|
                        0 <= k < self.entries@.len() && (#[trigger] self.entries@[k]).0 == fd;
                    view_at(self.entries@, k);
                }
            }
        }
        ranges
    }

    /// The mappings that have to be patched when the addresses from `start` up
    /// to `end` become executable, by file and then by address.
    pub fn mappings_to_patch(&self, arch: Arch, start: usize, end: usize) -> (out: Vec<FileMapping>)
        requires
            self.wf(),
        ensures
            forall|i: int, j: int|
                0 <= i < j < out.len() ==> (#[trigger] out[i]).comes_before(#[trigger] out[j]),
            forall|m: FileMapping| #[trigger]
                out@.contains(m) == to_patch(self@, arch, start as int, end as int, m),
    {
        let mut out: Vec<FileMapping> = Vec::new();
        let mut i: usize = 0;
        while i < self.entries.len()
            invariant
                i <= self.entries.len(),
                self.wf(),
                forall|p: int, q: int|
                    0 <= p < q < out.len() ==> (#[trigger] out[p]).comes_before(#[trigger] out[q]),
                listed_before(out@, self.entries@, i as int),
                forall|k: int|
                    0 <= k < out.len() ==> to_patch(
                        self@,
                        arch,
                        start as int,
                        end as int,
                        #[trigger] out[k],
                    ),
                forall|m: FileMapping|
                    to_patch(self@, arch, start as int, end as int, m) && has_fd(
                        self.entries@.subrange(0, i as int),
                        m.fd,
                    ) ==> #[trigger] out@.contains(m),
            decreases self.entries.len() - i,
        {
            let fd: i32 = self.entries[i].0;
            let state = &self.entries[i].1;
            proof {
                view_at(self.entries@, i as int);
            }
            let ghost first = out@.len();
            let ghost earlier = out@;
            if !(arch == Arch::X86_64 && state.trampoline.pre_patched) {
                let mut j: usize = 0;
                while j < state.file_mappings.len()
                    invariant
                        self.wf(),
                        i < self.entries@.len(),
                        fd == self.entries@[i as int].0,
                        state == self.entries@[i as int].1,
                        state.wf(),
                        self@.dom().contains(fd),
                        self@[fd] == state@,
                        !(arch == Arch::X86_64 && state.trampoline.pre_patched),
                        first <= out.len(),
                        out@.subrange(0, first as int) == earlier,
                        listed_before(earlier, self.entries@, i as int),
                        j <= state.file_mappings.listed().len(),
                        forall|p: int, q: int|
                            0 <= p < q < out.len() ==> (#[trigger] out[p]).comes_before(
                                #[trigger] out[q],
                            ),
                        forall|k: int|
                            0 <= k < out.len() ==> to_patch(
                                self@,
                                arch,
                                start as int,
                                end as int,
                                #[trigger] out[k],
                            ),
                        forall|k: int| first <= k < out.len() ==> (#[trigger] out[k]).fd == fd,
                        forall|k: int, q: int|
                            first <= k < out.len() && j <= q < state.file_mappings.listed().len()
                                ==> precedes(
                                (#[trigger] out[k]).mapping(),
                                #[trigger] state.file_mappings.listed()[q],
                            ),
                        forall|q: int|
                            0 <= q < j && meets(
                                state.file_mappings.listed()[q],
                                start as int,
                                end as int,
                            ) ==> out@.contains(
                                FileMapping {
                                    fd,
                                    start: (#[trigger] state.file_mappings.listed()[q]).0,
                                    len: state.file_mappings.listed()[q].1,
                                },
                            ),
                    decreases state.file_mappings.listed().len() - j,
                {
                    let m = state.file_mappings.get(j);
                    let ghost held = out@;
                    if overlaps(m, start, end) {
                        let found = FileMapping { fd, start: m.0, len: m.1 };
                        out.push(found);
                        proof {
                            assert(found.mapping() == m);
                            assert(state.file_mappings.listed()[j as int] == m);
                            assert(state.file_mappings@.contains(m));
                            assert(out@.subrange(0, first as int) =~= held.subrange(
                                0,
                                first as int,
                            ));
                            assert forall|p: int, q: int| 0 <= p < q < out.len() implies (
                            #[trigger] out[p]).comes_before(#[trigger] out[q]) by {
                                if q == held.len() {
                                    if p < first {
                                        assert(out@[p] == out@.subrange(0, first as int)[p]);
                                        assert(earlier[p].fd < self.entries@[i as int].0);
                                    } else {
                                        assert(held[p].fd == fd);
                                    }
                                } else {
                                    assert(held[p].comes_before(held[q]));
                                }
                            }
                            assert forall|x: FileMapping| held.contains(x) implies out@.contains(
                                x,
                            ) by {
                                let p = choose|p: int| 0 <= p < held.len() && held[p] == x;
                                assert(out@[p] == x);
                            }
                            assert(out@[held.len() as int] == found);
                        }
                    }
                    j += 1;
                }
            }
            proof {
                let now = self.entries@.subrange(0, i as int);
                let next = self.entries@.subrange(0, i + 1);
                assert forall|m: FileMapping|
                    to_patch(self@, arch, start as int, end as int, m) && has_fd(
                        next,
                        m.fd,
                    ) implies #[trigger] out@.contains(m) by {
                    let k = choose|k: int| 0 <= k < next.len() && (#[trigger] next[k]).0 == m.fd;
                    if k == i {
                        assert(m.fd == fd);
                        assert(state.file_mappings@.contains(m.mapping()));
                        let q = choose|q: int|
                            0 <= q < state.file_mappings.listed().len()
                                && state.file_mappings.listed()[q] == m.mapping();
                        assert(state.file_mappings.listed()[q] == m.mapping());
                    } else {
                        assert(now[k].0 == m.fd);
                        assert(earlier.contains(m));
                        let p = choose|p: int| 0 <= p < earlier.len() && earlier[p] == m;
                        assert(out@[p] == out@.subrange(0, first as int)[p]);
                    }
                }
                assert forall|k: int, j: int|
                    0 <= k < out.len() && i + 1 <= j < self.entries@.len() implies (
                #[trigger] out@[k]).fd < (#[trigger] self.entries@[j]).0 by {
                    assert(self.entries@[i as int].0 < self.entries@[j].0);
                    if k < first {
                        assert(out@[k] == out@.subrange(0, first as int)[k]);
                        assert(earlier[k].fd < self.entries@[j].0);
                    } else {
                        assert(out@[k].fd == fd);
                    }
                }
            }
            i += 1;
        }
        proof {
            assert(self.entries@.subrange(0, i as int) =~= self.entries@);
            assert forall|m: FileMapping| #[trigger] out@.contains(m) implies to_patch(
                self@,
                arch,
                start as int,
                end as int,
                m,
            ) by {
                let k = choose|k: int| 0 <= k < out.len() && out@[k] == m;
                assert(to_patch(self@, arch, start as int, end as int, out[k]));
            }
        }
        out
    }
}

/// Whether a file guards the range.
pub open spec fn is_guarded(cache: Map<i32, PatchView>, r: AddrRange) -> bool {
    exists|fd: i32| #[trigger]
        cache.dom().contains(fd) && cache[fd].trampoline.guarded() == Some(r)
}

/// Whether the mapping has to be patched when the addresses from `start` up to
/// `end` become executable: it overlaps them and belongs to a file that was not
/// patched before. On AArch64 files patched before count too.
pub open spec fn to_patch(
    cache: Map<i32, PatchView>,
    arch: Arch,
    start: int,
    end: int,
    m: FileMapping,
) -> bool {
    &&& cache.dom().contains(m.fd)
    &&& cache[m.fd].file_mappings.contains(m.mapping())
    &&& !(arch == Arch::X86_64 && cache[m.fd].trampoline.pre_patched)
    &&& meets(m.mapping(), start, end)
}

} // verus!
