//! Ranges, mappings and the decisions of `mmap`, `mprotect` and `munmap`.

use litebox::arith::{align_down, align_up, PAGE_SIZE};
use litebox::errno::Errno;
use litebox::flags::{Arch, MapFlags, ProtFlags};
use litebox::mm::elf_patch::{ElfPatchState, Trampoline};
use litebox::mm::gates::{finalize_trampoline_gates as gate_offsets, GateError, GateOffsets};
use litebox::mm::mapping::{
    fixed_behavior, mmap_is_supported, needs_space_after, sys_mmap, try_cow_mmap_file, Backing,
    CopyAction, CopyEvent, FileCopier, FileMapAction, FileMapEvent, FileMapper, MappingError,
};
use litebox::mm::patch_cache::{ElfPatchCache, FileMapping};
use litebox::mm::protect::{
    finalize_elf_patch, maybe_patch_on_mprotect_exec, mprotect_around_trampolines, sys_munmap,
    trampoline_range_is_safe_to_map, GuestMapping, ProtectAction, ProtectEvent, Protector,
};
use litebox::mm::range_set::RangeSet;
use litebox::mm::ranges::{choose_trampoline_reservation, subtract_ranges, AddrRange};
use litebox::page_mgmt::FixedAddressBehavior;

fn blank() -> Trampoline {
    Trampoline {
        pre_patched: false,
        file_offset: 0,
        file_size: 0,
        addr: 0x9000,
        load_span: None,
        cursor: 0,
        mapped: false,
        mapped_len: 0,
        committed: false,
        invalidated: false,
        scanned: false,
        capacity: 0,
    }
}

fn flags() -> MapFlags {
    let mut f = MapFlags::empty();
    f.private = true;
    f
}

#[test]
fn full_capacity_anywhere_precedes_preferred_one_page() {
    let calls = core::cell::RefCell::new(Vec::new());
    let reservation = choose_trampoline_reservation(
        7 * PAGE_SIZE,
        PAGE_SIZE,
        |len| {
            calls.borrow_mut().push(("preferred", len));
            None
        },
        |len| {
            calls.borrow_mut().push(("anywhere", len));
            Some("full capacity")
        },
    );

    assert_eq!(reservation, Some(("full capacity", 7 * PAGE_SIZE)));
    assert_eq!(
        calls.into_inner(),
        vec![("preferred", 7 * PAGE_SIZE), ("anywhere", 7 * PAGE_SIZE)]
    );
}

#[test]
fn one_page_is_the_last_resort() {
    let calls = core::cell::RefCell::new(Vec::new());
    let reservation = choose_trampoline_reservation(
        3 * PAGE_SIZE,
        PAGE_SIZE,
        |len| {
            calls.borrow_mut().push(("preferred", len));
            if len == PAGE_SIZE {
                Some(7)
            } else {
                None
            }
        },
        |len| {
            calls.borrow_mut().push(("anywhere", len));
            None
        },
    );
    assert_eq!(reservation, Some((7, PAGE_SIZE)));
    assert_eq!(calls.into_inner().len(), 3);
    let none: Option<(u8, usize)> =
        choose_trampoline_reservation(PAGE_SIZE, PAGE_SIZE, |_| None, |_| None);
    assert_eq!(none, None);
}

#[test]
fn subtract_ranges_yields_every_unowned_subrange() {
    fn r(start: usize, end: usize) -> AddrRange {
        AddrRange::new(start, end)
    }

    assert_eq!(
        subtract_ranges(r(0x1000, 0x3000), &[]),
        vec![r(0x1000, 0x3000)]
    );

    assert_eq!(
        subtract_ranges(r(0x1000, 0x3000), &[r(0x1000, 0x2000)]),
        vec![r(0x2000, 0x3000)]
    );
    assert_eq!(
        subtract_ranges(r(0x1000, 0x3000), &[r(0x2000, 0x3000)]),
        vec![r(0x1000, 0x2000)]
    );

    assert_eq!(
        subtract_ranges(r(0x1000, 0x4000), &[r(0x2000, 0x3000)]),
        vec![r(0x1000, 0x2000), r(0x3000, 0x4000)]
    );

    assert_eq!(
        subtract_ranges(r(0x1000, 0x3000), &[r(0x0000, 0x9000)]),
        vec![]
    );

    assert_eq!(
        subtract_ranges(r(0x1000, 0x5000), &[r(0x3000, 0x4000), r(0x2000, 0x3500)]),
        vec![r(0x1000, 0x2000), r(0x4000, 0x5000)]
    );

    assert_eq!(
        subtract_ranges(r(0x1000, 0x2000), &[r(0x5000, 0x6000)]),
        vec![r(0x1000, 0x2000)]
    );
}

#[test]
fn empty_and_inverted_exclusions() {
    let whole = AddrRange::new(0x1000, 0x3000);
    let divided = subtract_ranges(whole, &[AddrRange::new(0x2000, 0x2000)]);
    assert_eq!(
        divided,
        vec![AddrRange::new(0x1000, 0x2000), AddrRange::new(0x2000, 0x3000)]
    );
    assert_eq!(
        subtract_ranges(whole, &[AddrRange::new(0x2800, 0x1800)]),
        vec![AddrRange::new(0x1000, 0x2800), AddrRange::new(0x1800, 0x3000)]
    );
    // One that does not reach into the range leaves it whole.
    assert_eq!(
        subtract_ranges(whole, &[AddrRange::new(0x2800, 0x1000)]),
        vec![whole]
    );
    // Those that start together are passed by their end.
    assert_eq!(
        subtract_ranges(
            whole,
            &[AddrRange::new(0x2000, 0x2800), AddrRange::new(0x2000, 0x1800)]
        ),
        vec![
            AddrRange::new(0x1000, 0x2000),
            AddrRange::new(0x1800, 0x2000),
            AddrRange::new(0x2800, 0x3000)
        ]
    );
    assert_eq!(whole.len(), 0x2000);
    assert!(!whole.is_empty());
    assert!(AddrRange::new(3, 3).is_empty());
}

#[test]
fn rounding_wraps_to_zero_at_the_top() {
    assert_eq!(align_up(1, PAGE_SIZE), PAGE_SIZE);
    assert_eq!(align_up(PAGE_SIZE, PAGE_SIZE), PAGE_SIZE);
    assert_eq!(align_up(0, PAGE_SIZE), 0);
    assert_eq!(align_up(usize::MAX, PAGE_SIZE), 0);
    assert_eq!(align_down(0x1fff, PAGE_SIZE), 0x1000);
    assert_eq!(align_down(0x17, 16), 0x10);
}

#[test]
fn range_sets_keep_one_of_each_in_order() {
    let mut set = RangeSet::new();
    assert!(set.insert((0x3000, 0x1000)));
    assert!(set.insert((0x1000, 0x2000)));
    assert!(set.insert((0x1000, 0x1000)));
    assert!(!set.insert((0x3000, 0x1000)));
    let listed: Vec<(usize, usize)> = (0..set.len()).map(|i| set.get(i)).collect();
    assert_eq!(
        listed,
        vec![(0x1000, 0x1000), (0x1000, 0x2000), (0x3000, 0x1000)]
    );
    set.drop_overlapping(0x2800, 0x2900);
    assert!(set.contains((0x1000, 0x1000)));
    assert!(!set.contains((0x1000, 0x2000)));
    assert!(set.contains((0x3000, 0x1000)));
}

#[test]
fn mmap_requests_are_checked_in_order() {
    let rw = ProtFlags::read_write();
    let mut anon = flags();
    anon.anonymous = true;
    assert_eq!(sys_mmap(1, 10, rw, anon, -1, 0), Err(Errno::EINVAL));
    assert_eq!(sys_mmap(0, 10, rw, anon, -1, 1), Err(Errno::EINVAL));
    assert_eq!(sys_mmap(0, 0, rw, anon, -1, 0), Err(Errno::EINVAL));
    assert_eq!(sys_mmap(0, usize::MAX, rw, anon, -1, 0), Err(Errno::ENOMEM));
    let top = usize::MAX - PAGE_SIZE + 1;
    assert_eq!(
        sys_mmap(0, PAGE_SIZE, rw, anon, -1, top),
        Err(Errno::EOVERFLOW)
    );
    let plan = sys_mmap(0, 10, rw, anon, -1, 0).unwrap();
    assert_eq!(plan.suggested_addr, None);
    assert_eq!(plan.len, PAGE_SIZE);
    assert_eq!(plan.backing, Backing::Anonymous);
    let plan = sys_mmap(0x10000, 2 * PAGE_SIZE, rw, flags(), 5, PAGE_SIZE).unwrap();
    assert_eq!(plan.suggested_addr, Some(0x10000));
    assert_eq!(
        plan.backing,
        Backing::File {
            fd: 5,
            offset: PAGE_SIZE
        }
    );
}

#[test]
fn shared_writable_files_and_huge_pages_are_not_supported() {
    let mut shared = MapFlags::empty();
    shared.shared = true;
    assert!(!mmap_is_supported(ProtFlags::read_write(), shared));
    assert!(mmap_is_supported(ProtFlags::read_exec(), shared));
    shared.anonymous = true;
    assert!(mmap_is_supported(ProtFlags::read_write(), shared));
    shared.huge_2mb = true;
    assert!(!mmap_is_supported(ProtFlags::read_write(), shared));
}

#[test]
fn copy_on_write_needs_whole_pages_of_data() {
    let rx = ProtFlags::read_exec();
    let plan = try_cow_mmap_file(None, 2 * PAGE_SIZE, rx, flags(), Some(3 * PAGE_SIZE), PAGE_SIZE)
        .unwrap();
    assert_eq!(plan.suggested_start, 0);
    assert_eq!((plan.data_start, plan.data_end), (PAGE_SIZE, 3 * PAGE_SIZE));
    assert!(plan.permissions.read && plan.permissions.execute && !plan.permissions.write);
    assert_eq!(plan.behavior, FixedAddressBehavior::Hint);
    assert!(!plan.replace && !plan.shared);
    let page = Some(PAGE_SIZE);
    assert!(try_cow_mmap_file(None, PAGE_SIZE - 1, rx, flags(), page, 0).is_none());
    assert!(try_cow_mmap_file(None, PAGE_SIZE, rx, flags(), None, 0).is_none());
    assert!(try_cow_mmap_file(None, PAGE_SIZE, rx, flags(), page, 2 * PAGE_SIZE).is_none());
    assert!(try_cow_mmap_file(None, 2 * PAGE_SIZE, rx, flags(), page, 0).is_none());
}

#[test]
fn fixed_flags_decide_the_behavior() {
    let mut f = flags();
    assert_eq!(fixed_behavior(f), FixedAddressBehavior::Hint);
    assert!(needs_space_after(f, 0));
    assert!(!needs_space_after(f, PAGE_SIZE));
    f.fixed = true;
    assert_eq!(fixed_behavior(f), FixedAddressBehavior::Replace);
    assert!(!needs_space_after(f, 0));
    f.fixed_noreplace = true;
    assert_eq!(fixed_behavior(f), FixedAddressBehavior::NoReplace);
}

#[test]
fn files_are_copied_page_by_page() {
    let first = FileCopier::start(2 * PAGE_SIZE, PAGE_SIZE);
    let mut copier = first.copier;
    assert_eq!(
        first.action,
        CopyAction::Read {
            file_offset: PAGE_SIZE
        }
    );
    assert!(copier.is_answered_by(CopyEvent::Read(Ok(PAGE_SIZE))));
    assert!(!copier.is_answered_by(CopyEvent::Written(true)));
    assert_eq!(
        copier.step(CopyEvent::Read(Ok(PAGE_SIZE))),
        CopyAction::Write {
            at: 0,
            len: PAGE_SIZE
        }
    );
    assert_eq!(
        copier.step(CopyEvent::Written(true)),
        CopyAction::Read {
            file_offset: 2 * PAGE_SIZE
        }
    );
    assert_eq!(
        copier.step(CopyEvent::Read(Ok(0))),
        CopyAction::Finish(Ok(PAGE_SIZE))
    );
}

#[test]
fn copy_errors_have_their_meaning() {
    for (errno, expected) in [
        (Errno::EBADF, MappingError::BadFD(-1)),
        (Errno::EISDIR, MappingError::NotAFile),
        (Errno::EACCES, MappingError::NotForReading),
    ] {
        let mut copier = FileCopier::start(PAGE_SIZE, 0).copier;
        assert_eq!(
            copier.step(CopyEvent::Read(Err(errno))),
            CopyAction::Finish(Err(expected))
        );
    }
    let mut copier = FileCopier::start(PAGE_SIZE, 0).copier;
    assert_eq!(
        copier.step(CopyEvent::Read(Err(Errno::EPERM))),
        CopyAction::Unsupported(Errno::EPERM)
    );
    let mut copier = FileCopier::start(PAGE_SIZE, 0).copier;
    copier.step(CopyEvent::Read(Ok(1)));
    assert_eq!(
        copier.step(CopyEvent::Written(false)),
        CopyAction::WriteFault
    );
}

#[test]
fn a_mapping_whose_code_cannot_run_is_taken_back() {
    let first = FileMapper::start(3, ProtFlags::read_exec(), 0x1234);
    assert_eq!(first.action, FileMapAction::Resolve);
    let mut mapper = first.mapper;
    assert_eq!(
        mapper.step(FileMapEvent::Resolved(true)),
        FileMapAction::TryCow
    );
    assert_eq!(
        mapper.step(FileMapEvent::Cow(None)),
        FileMapAction::CopyFile
    );
    assert_eq!(
        mapper.step(FileMapEvent::Copied(Ok(0x5000))),
        FileMapAction::Patch { addr: 0x5000 }
    );
    assert_eq!(
        mapper.step(FileMapEvent::Patched(false)),
        FileMapAction::Unmap { addr: 0x5000 }
    );
    assert_eq!(
        mapper.step(FileMapEvent::Done),
        FileMapAction::Finish(Err(MappingError::OutOfMemory))
    );
}

#[test]
fn other_mappings_of_files_are_noted() {
    let mut mapper = FileMapper::start(3, ProtFlags::read_write(), 0x1234).mapper;
    mapper.step(FileMapEvent::Resolved(true));
    assert_eq!(
        mapper.step(FileMapEvent::Cow(Some(0x7000))),
        FileMapAction::Note { addr: 0x7000 }
    );
    assert_eq!(
        mapper.step(FileMapEvent::Done),
        FileMapAction::Finish(Ok(0x7000))
    );
    let mut mapper = FileMapper::start(9, ProtFlags::read_exec(), 0).mapper;
    assert_eq!(
        mapper.step(FileMapEvent::Resolved(false)),
        FileMapAction::Finish(Err(MappingError::BadFD(9)))
    );
    let mut mapper = FileMapper::start(9, ProtFlags::read_exec(), 0).mapper;
    mapper.step(FileMapEvent::Resolved(true));
    assert_eq!(
        mapper.step(FileMapEvent::Cow(Some(0x7000))),
        FileMapAction::Finish(Ok(0x7000))
    );
}

fn cache_with(fd: i32, trampoline: Trampoline, mappings: &[(usize, usize)]) -> ElfPatchCache {
    let mut cache = ElfPatchCache::new();
    cache.insert_if_absent(fd, ElfPatchState::new(trampoline));
    for m in mappings {
        cache.note_mapping(fd, *m);
    }
    cache
}

#[test]
fn caches_keep_the_first_state_of_a_file() {
    let mut cache = cache_with(4, blank(), &[]);
    let mut other = blank();
    other.addr = 0x1;
    cache.insert_if_absent(4, ElfPatchState::new(other));
    assert_eq!(cache.get(4).unwrap().trampoline.addr, 0x9000);
    assert!(cache.get(5).is_none());
    assert!(cache.contains_key(4));
    assert!(!cache.get(4).unwrap().trampoline_is_populated());
    cache.set_trampoline(4, other);
    assert_eq!(cache.get(4).unwrap().trampoline.addr, 1);
    cache.note_patched(4, (1, 2));
    assert!(cache.get(4).unwrap().patched_ranges.contains((1, 2)));
    assert!(cache.remove(4).is_some());
    assert!(cache.remove(4).is_none());
}

#[test]
fn unmapping_forgets_what_it_touches() {
    let mut cache = cache_with(4, blank(), &[(0x1000, 0x1000), (0x2000, 0x1000), (0x8000, 1)]);
    let failed = sys_munmap(&mut cache, Arch::X86_64, 0x2000, 1, Some(Errno::EINVAL));
    assert_eq!(failed, Some(Errno::EINVAL));
    let kept = &cache.get(4).unwrap().file_mappings;
    assert!(kept.contains((0x2000, 0x1000)));
    sys_munmap(&mut cache, Arch::X86_64, 0x2000, 1, None);
    let state = cache.get(4).unwrap();
    assert!(state.file_mappings.contains((0x1000, 0x1000)));
    assert!(!state.file_mappings.contains((0x2000, 0x1000)));
    assert!(state.file_mappings.contains((0x8000, 1)));
}

#[test]
fn unmapping_a_part_of_a_trampoline_breaks_it() {
    let mut t = blank();
    t.mapped = true;
    t.mapped_len = 2 * PAGE_SIZE;
    let mut cache = cache_with(4, t, &[]);
    sys_munmap(&mut cache, Arch::Aarch64, 0x9000, PAGE_SIZE, None);
    assert!(cache.get(4).unwrap().trampoline.invalidated);
    let mut cache = cache_with(4, t, &[]);
    sys_munmap(&mut cache, Arch::Aarch64, 0x8000, 5 * PAGE_SIZE, None);
    let left = cache.get(4).unwrap().trampoline;
    assert!(!left.invalidated && !left.mapped && left.mapped_len == 0);
    let mut cache = cache_with(4, t, &[]);
    sys_munmap(&mut cache, Arch::X86_64, 0x9000, PAGE_SIZE, None);
    assert_eq!(cache.get(4).unwrap().trampoline, t);
}

#[test]
fn protection_leaves_trampolines_alone() {
    let mut t = blank();
    t.mapped = true;
    t.mapped_len = PAGE_SIZE;
    t.load_span = Some(AddrRange::new(0x8000, 0xb000));
    let cache = cache_with(4, t, &[]);
    assert_eq!(
        mprotect_around_trampolines(&cache, Arch::Aarch64, 0x8000, 0x3000),
        vec![(0x8000, 0x1000), (0xa000, 0x1000)]
    );
    assert_eq!(
        mprotect_around_trampolines(&cache, Arch::Aarch64, 0x9000, 0x1000),
        vec![(0x9000, 0)]
    );
    assert_eq!(
        mprotect_around_trampolines(&cache, Arch::X86_64, 0x8000, 0x3000),
        vec![(0x8000, 0x3000)]
    );
    t.load_span = None;
    let cache = cache_with(4, t, &[]);
    assert_eq!(
        mprotect_around_trampolines(&cache, Arch::Aarch64, 0x8000, 0x3000),
        vec![(0x8000, 0x3000)]
    );
}

#[test]
fn code_is_patched_before_it_becomes_executable() {
    let mut cache = cache_with(7, blank(), &[(0x4000, 0x2000)]);
    let mut patched = blank();
    patched.pre_patched = true;
    cache.insert_if_absent(2, ElfPatchState::new(patched));
    cache.note_mapping(2, (0x5000, 0x1000));
    assert_eq!(
        maybe_patch_on_mprotect_exec(&cache, Arch::X86_64, 0x5000, 0x8000),
        vec![FileMapping {
            fd: 7,
            start: 0x5000,
            len: 0x1000
        }]
    );
    assert_eq!(
        maybe_patch_on_mprotect_exec(&cache, Arch::Aarch64, 0x5000, 0x8000).len(),
        2
    );
    let rx = ProtFlags::read_exec();
    let (mut protector, action) = Protector::start(Arch::X86_64, 0x5000, 0x1000, rx, 1, &cache);
    assert!(matches!(action, ProtectAction::Patch(p) if p.fd == 7));
    assert!(protector.is_answered_by(ProtectEvent::Patched(true)));
    assert_eq!(
        protector.step(ProtectEvent::Patched(true), &cache),
        ProtectAction::Protect {
            addr: 0x5000,
            len: 0x1000,
            prot: rx
        }
    );
    assert_eq!(
        protector.step(ProtectEvent::Protected(None), &cache),
        ProtectAction::Finish(None)
    );
}

#[test]
fn unusable_code_fails_the_protection_on_aarch64_only() {
    let cache = cache_with(7, blank(), &[(0x4000, 0x2000)]);
    let rx = ProtFlags::read_exec();
    let (mut p, _) = Protector::start(Arch::Aarch64, 0x4000, 0x1000, rx, 1, &cache);
    assert_eq!(
        p.step(ProtectEvent::Patched(false), &cache),
        ProtectAction::Finish(Some(Errno::ENOMEM))
    );
    let (mut p, _) = Protector::start(Arch::X86_64, 0x4000, 0x1000, rx, 1, &cache);
    assert!(matches!(
        p.step(ProtectEvent::Patched(false), &cache),
        ProtectAction::Protect { .. }
    ));
    assert_eq!(
        p.step(ProtectEvent::Protected(Some(Errno::EACCES)), &cache),
        ProtectAction::Finish(Some(Errno::EACCES))
    );
    let (_, action) = Protector::start(Arch::X86_64, 0x4000, 0x1000, rx, 0, &cache);
    assert!(matches!(action, ProtectAction::Protect { .. }));
}

#[test]
fn unused_trampolines_are_unmapped_when_a_file_is_closed() {
    let mut t = blank();
    t.mapped = true;
    t.mapped_len = PAGE_SIZE;
    let mut cache = cache_with(4, t, &[]);
    assert_eq!(finalize_elf_patch(&mut cache, 4), Some((0x9000, PAGE_SIZE)));
    assert_eq!(finalize_elf_patch(&mut cache, 4), None);
    t.committed = true;
    let mut cache = cache_with(4, t, &[]);
    assert_eq!(finalize_elf_patch(&mut cache, 4), None);
    assert!(!cache.contains_key(4));
}

#[test]
fn trampolines_replace_only_what_is_theirs() {
    let live = GuestMapping {
        range: AddrRange::new(0x9000, 0xa000),
        accessible: true,
    };
    let dead = GuestMapping {
        range: AddrRange::new(0x9000, 0xa000),
        accessible: false,
    };
    let mut t = blank();
    assert!(!trampoline_range_is_safe_to_map(&t, 0x9000, 0x1000, &[live]));
    assert!(trampoline_range_is_safe_to_map(&t, 0x9000, 0x1000, &[dead]));
    assert!(trampoline_range_is_safe_to_map(&t, 0xa000, 0x1000, &[live]));
    t.load_span = Some(AddrRange::new(0x8000, 0xa000));
    assert!(trampoline_range_is_safe_to_map(&t, 0x9000, 0x1000, &[live]));
}

#[test]
fn a_platform_with_no_offset_is_refused() {
    let err = gate_offsets(None, false, 0).unwrap_err().message();
    assert!(err.contains("no guest thread-pointer offset"), "{err}");
}

#[test]
fn a_supplied_offset_is_accepted() {
    assert_eq!(
        gate_offsets(Some(96), false, 8),
        Ok(GateOffsets::ThreadPointer(96))
    );
}

#[test]
fn an_offset_no_gate_can_encode_is_refused() {
    let offsets = gate_offsets(Some(4), false, 8).unwrap();
    let err = offsets.refusal_message("offset is not a multiple of eight");
    assert!(err.contains("failed to patch"), "{err}");
    assert_eq!(
        err,
        "failed to patch guest thread-pointer offset 4: offset is not a multiple of eight"
    );
}

#[test]
fn an_offset_of_more_than_sixteen_bits_is_refused() {
    assert_eq!(
        gate_offsets(Some(0x1_0000), false, 0),
        Err(GateError::TooLarge(0x1_0000))
    );
    let err = gate_offsets(Some(0x1_0000), false, 0).unwrap_err().message();
    assert_eq!(
        err,
        "guest thread-pointer offset 65536 is too large for a gate"
    );
}

#[test]
fn gates_for_a_virtual_x18_hold_two_offsets() {
    let both = gate_offsets(Some(96), true, 8).unwrap();
    assert_eq!(
        both,
        GateOffsets::WithX18 {
            thread_pointer: 96,
            x18: 104
        }
    );
    assert_eq!(
        both.refusal_message("x"),
        "failed to patch guest offsets 96/104: x"
    );
    assert_eq!(
        gate_offsets(Some(0xffff), true, 8),
        Err(GateError::X18Overflow)
    );
    assert_eq!(
        GateError::X18Overflow.message(),
        "guest x18 offset overflow"
    );
}
