//! Patching of code, with a guest whose memory is simulated.

use litebox::arith::PAGE_SIZE;
use litebox::flags::{Arch, ProtFlags};
use litebox::mm::elf_headers::{check_trampoline_magic, read_le64, summarize, ET_DYN};
use litebox::mm::elf_init::{
    record_initialized, scan_buffer, trampoline_capacity, CodeScan, InitAction, InitEvent,
    InitRequest, Initializer,
};
use litebox::mm::elf_patch::{ElfPatchState, Trampoline};
use litebox::mm::patch_cache::ElfPatchCache;
use litebox::mm::patch_exec::{
    Buffer, Outcome, PatchAction, PatchEvent, PatchFailure, PatchRequest, Patcher, Placement,
    RewriterLimits, Rewritten,
};
use litebox::mm::ranges::AddrRange;

const MAGIC: [u8; 8] = *b"TRAMPOL0";

fn limits() -> RewriterLimits {
    RewriterLimits {
        max_displacement: 0x1000_0000,
        entry_point_bytes: 8,
        cursor_align: 16,
    }
}

fn request(arch: Arch) -> PatchRequest {
    PatchRequest {
        arch,
        limits: limits(),
        fd: 3,
        addr: 0x40_0000,
        len: 0x2000,
        entry: 0xdead_0000,
        file_offset: Some(0x1000),
    }
}

fn fresh() -> Trampoline {
    Trampoline {
        pre_patched: false,
        file_offset: 0,
        file_size: 0,
        addr: 0x50_0000,
        load_span: None,
        cursor: 0,
        mapped: false,
        mapped_len: 0,
        committed: false,
        invalidated: false,
        scanned: false,
        capacity: 0,
    }
}

/// A guest: what is mapped, what can be written, and what was done.
struct Guest {
    mapped: Vec<(usize, usize)>,
    writable: Vec<(usize, usize)>,
    log: Vec<PatchAction>,
    /// Answers to requests for memory, in order; after these, requests at an
    /// address succeed and others fail.
    placements: Vec<Option<usize>>,
    rewritten: Option<Rewritten>,
    /// The action that fails, counted from one.
    fails_at: usize,
}

impl Guest {
    fn new() -> Self {
        Guest {
            mapped: Vec::new(),
            writable: Vec::new(),
            log: Vec::new(),
            placements: Vec::new(),
            rewritten: Some(Rewritten {
                stubs: 0x20,
                changed: true,
            }),
            fails_at: 0,
        }
    }

    fn answer(&mut self, action: PatchAction) -> PatchEvent {
        self.log.push(action);
        let ok = self.log.len() != self.fails_at;
        match action {
            PatchAction::MapFresh { place, len } => {
                let at = if self.placements.is_empty() {
                    match place {
                        Placement::Anywhere => None,
                        Placement::Fixed(a) | Placement::FixedNoReplace(a) => Some(a),
                    }
                } else {
                    self.placements.remove(0)
                };
                if let Some(a) = at {
                    self.mapped.push((a, len));
                    self.writable.push((a, len));
                }
                PatchEvent::Mapped(at)
            }
            PatchAction::Unmap { addr, len } => {
                self.mapped.retain(|m| *m != (addr, len));
                self.writable.retain(|m| *m != (addr, len));
                PatchEvent::Status(ok)
            }
            PatchAction::Protect { addr, len, prot } => {
                if ok && prot.write {
                    self.writable.push((addr, len));
                } else if !prot.write {
                    self.writable
                        .retain(|m| !(m.0 >= addr && m.0 + m.1 <= addr + len));
                }
                PatchEvent::Status(ok)
            }
            PatchAction::Rewrite { .. } => PatchEvent::Rewritten(self.rewritten),
            _ => PatchEvent::Status(ok),
        }
    }

    fn run(&mut self, request: PatchRequest, cache: &mut ElfPatchCache) -> Outcome {
        let first = Patcher::start(request, cache.get(request.fd));
        let mut patcher = first.patcher;
        let mut action = first.action;
        for _ in 0..40 {
            if let PatchAction::Finish(outcome) = action {
                patcher.record(cache);
                return outcome;
            }
            let event = self.answer(action);
            assert!(patcher.is_answered_by(event));
            action = patcher.step(event);
        }
        panic!("patching does not end");
    }
}

fn cache_of(t: Trampoline) -> ElfPatchCache {
    let mut cache = ElfPatchCache::new();
    cache.insert_if_absent(3, ElfPatchState::new(t));
    cache
}

#[test]
fn stubs_go_to_the_trampoline_before_the_code() {
    let mut guest = Guest::new();
    let mut cache = cache_of(fresh());
    let outcome = guest.run(request(Arch::X86_64), &mut cache);
    assert_eq!(outcome, Outcome::Usable);
    let stubs = guest.log.iter().position(|a| {
        *a == PatchAction::Write {
            addr: 0x50_0010,
            from: Buffer::Stubs,
        }
    });
    let code = guest.log.iter().position(|a| {
        *a == PatchAction::Write {
            addr: 0x40_0000,
            from: Buffer::Code,
        }
    });
    assert!(stubs.unwrap() < code.unwrap());
    assert!(guest.log.contains(&PatchAction::Rewrite {
        code_vaddr: 0x40_0000,
        stubs_vaddr: 0x50_0010,
        entry_vaddr: 0x50_0000,
        scan_from: None,
    }));
    assert!(guest.writable.is_empty());
    let state = cache.get(3).unwrap();
    assert!(state.trampoline.committed && state.trampoline.mapped);
    assert_eq!(state.trampoline.cursor, 0x30);
    assert_eq!(state.trampoline.mapped_len, PAGE_SIZE);
    assert!(state.patched_ranges.contains((0x40_0000, 0x2000)));
}

#[test]
fn patched_code_is_left_alone() {
    let mut guest = Guest::new();
    let mut cache = cache_of(fresh());
    guest.run(request(Arch::X86_64), &mut cache);
    let mut again = Guest::new();
    assert_eq!(
        again.run(request(Arch::X86_64), &mut cache),
        Outcome::Usable
    );
    assert!(again.log.is_empty());
}

#[test]
fn unknown_files_are_not_patched() {
    let mut guest = Guest::new();
    let mut cache = ElfPatchCache::new();
    assert_eq!(
        guest.run(request(Arch::X86_64), &mut cache),
        Outcome::Usable
    );
    assert!(guest.log.is_empty());
    assert!(!cache.contains_key(3));
}

#[test]
fn traps_replace_syscalls_where_no_trampoline_fits() {
    let mut guest = Guest::new();
    guest.placements = vec![None, None];
    let mut cache = cache_of(fresh());
    assert_eq!(
        guest.run(request(Arch::X86_64), &mut cache),
        Outcome::Usable
    );
    assert!(guest.log.contains(&PatchAction::TrapAll {
        code_vaddr: 0x40_0000,
        scan_from: None
    }));
    assert!(guest.mapped.is_empty() && guest.writable.is_empty());
    assert!(!cache.get(3).unwrap().trampoline.mapped);
}

#[test]
fn a_reservation_out_of_reach_is_given_back() {
    let mut guest = Guest::new();
    guest.placements = vec![Some(0x60_0000), Some(0x7000_0000_0000)];
    let mut cache = cache_of(fresh());
    assert_eq!(
        guest.run(request(Arch::X86_64), &mut cache),
        Outcome::Usable
    );
    assert!(guest.mapped.is_empty());
    assert!(guest.log.contains(&PatchAction::Unmap {
        addr: 0x60_0000,
        len: PAGE_SIZE
    }));
    assert!(guest.log.contains(&PatchAction::Unmap {
        addr: 0x7000_0000_0000,
        len: PAGE_SIZE
    }));
}

#[test]
fn a_scanned_file_asks_for_its_capacity_first_and_a_page_last() {
    let mut guest = Guest::new();
    guest.placements = vec![None, None, Some(0x50_0000)];
    let mut t = fresh();
    t.scanned = true;
    t.capacity = 4 * PAGE_SIZE;
    let mut cache = cache_of(t);
    assert_eq!(
        guest.run(request(Arch::Aarch64), &mut cache),
        Outcome::Usable
    );
    let asked: Vec<PatchAction> = guest
        .log
        .iter()
        .copied()
        .filter(|a| matches!(a, PatchAction::MapFresh { .. }))
        .collect();
    assert_eq!(
        asked,
        vec![
            PatchAction::MapFresh {
                place: Placement::FixedNoReplace(0x50_0000),
                len: 4 * PAGE_SIZE
            },
            PatchAction::MapFresh {
                place: Placement::Anywhere,
                len: 4 * PAGE_SIZE
            },
            PatchAction::MapFresh {
                place: Placement::FixedNoReplace(0x50_0000),
                len: PAGE_SIZE
            },
        ]
    );
    assert!(guest.log.contains(&PatchAction::FinalizeGates));
    assert!(guest.log.iter().any(|a| matches!(
        a,
        PatchAction::Rewrite {
            scan_from: Some(0x1000),
            ..
        }
    )));
}

#[test]
fn a_trampoline_grows_for_many_stubs() {
    let mut guest = Guest::new();
    guest.rewritten = Some(Rewritten {
        stubs: 2 * PAGE_SIZE,
        changed: true,
    });
    let mut cache = cache_of(fresh());
    assert_eq!(
        guest.run(request(Arch::X86_64), &mut cache),
        Outcome::Usable
    );
    assert!(guest.log.contains(&PatchAction::MapFresh {
        place: Placement::FixedNoReplace(0x50_1000),
        len: 2 * PAGE_SIZE
    }));
    let t = cache.get(3).unwrap().trampoline;
    assert_eq!(t.mapped_len, 3 * PAGE_SIZE);
    assert_eq!(t.cursor, 16 + 2 * PAGE_SIZE);
    assert!(guest.writable.is_empty());
}

#[test]
fn a_rewriter_that_fails_leads_to_traps() {
    let mut guest = Guest::new();
    guest.rewritten = None;
    let mut cache = cache_of(fresh());
    assert_eq!(
        guest.run(request(Arch::X86_64), &mut cache),
        Outcome::Usable
    );
    assert!(guest
        .log
        .iter()
        .any(|a| matches!(a, PatchAction::TrapAll { .. })));
    assert!(guest.writable.is_empty());
    assert!(!cache.get(3).unwrap().trampoline.committed);
}

#[test]
fn code_without_syscalls_is_not_written() {
    let mut guest = Guest::new();
    guest.rewritten = Some(Rewritten {
        stubs: 0,
        changed: false,
    });
    let mut cache = cache_of(fresh());
    assert_eq!(
        guest.run(request(Arch::X86_64), &mut cache),
        Outcome::Usable
    );
    assert!(!guest
        .log
        .iter()
        .any(|a| matches!(a, PatchAction::Write { .. })));
    let rx = ProtFlags::read_exec();
    assert_eq!(
        guest.log[guest.log.len() - 2],
        PatchAction::Protect {
            addr: 0x40_0000,
            len: 0x2000,
            prot: rx
        }
    );
}

#[test]
fn failures_stop_the_process_in_words() {
    let mut seen = Vec::new();
    for at in 1..16 {
        let mut guest = Guest::new();
        guest.fails_at = at;
        let mut cache = cache_of(fresh());
        if let Outcome::Fatal(f) = guest.run(request(Arch::X86_64), &mut cache) {
            assert!(f.message().starts_with("fatal: failed to "));
            seen.push(f);
        }
    }
    for f in [
        PatchFailure::TrampolineProtect,
        PatchFailure::CodeProtect,
        PatchFailure::CodeRead,
        PatchFailure::StubWrite,
        PatchFailure::CodeWrite,
    ] {
        assert!(seen.contains(&f), "{:?}", f);
    }
    assert_eq!(
        PatchFailure::CodeWrite.message(),
        "fatal: failed to write patched code back to code segment"
    );
}

#[test]
fn code_that_could_not_be_written_is_put_back() {
    let mut guest = Guest::new();
    let mut cache = cache_of(fresh());
    guest.run(request(Arch::X86_64), &mut cache);
    let write = guest
        .log
        .iter()
        .position(|a| matches!(a, PatchAction::Write { from: Buffer::Code, .. }))
        .unwrap();
    let mut failing = Guest::new();
    failing.fails_at = write + 1;
    let mut cache = cache_of(fresh());
    assert_eq!(
        failing.run(request(Arch::X86_64), &mut cache),
        Outcome::Fatal(PatchFailure::CodeWrite)
    );
    assert_eq!(
        failing.log[write + 1],
        PatchAction::Write {
            addr: 0x40_0000,
            from: Buffer::Original
        }
    );
}

fn patched_before() -> Trampoline {
    let mut t = fresh();
    t.pre_patched = true;
    t.file_offset = 0x8000;
    t.file_size = 0x1800;
    t
}

#[test]
fn a_patched_file_brings_its_trampoline() {
    let mut guest = Guest::new();
    let mut cache = cache_of(patched_before());
    assert_eq!(
        guest.run(request(Arch::X86_64), &mut cache),
        Outcome::Usable
    );
    assert_eq!(
        guest.log[1],
        PatchAction::ReadTrampoline {
            fd: 3,
            offset: 0x8000,
            len: 0x1800,
            entry: Some(0xdead_0000)
        }
    );
    let t = cache.get(3).unwrap().trampoline;
    assert!(t.mapped);
    assert_eq!(t.mapped_len, 0x2000);
    assert!(guest.writable.is_empty());
    assert_eq!(guest.mapped, vec![(0x50_0000, 0x2000)]);
}

#[test]
fn a_patched_file_without_its_trampoline_is_refused() {
    for at in 2..5 {
        let mut guest = Guest::new();
        guest.fails_at = at;
        let mut cache = cache_of(patched_before());
        assert_eq!(
            guest.run(request(Arch::X86_64), &mut cache),
            Outcome::Unusable
        );
        assert!(guest.mapped.is_empty());
    }
    let mut guest = Guest::new();
    guest.placements = vec![Some(0x66_0000)];
    let mut cache = cache_of(patched_before());
    assert_eq!(
        guest.run(request(Arch::X86_64), &mut cache),
        Outcome::Unusable
    );
    assert!(guest.mapped.is_empty());
    let mut guest = Guest::new();
    guest.fails_at = 1;
    let mut cache = cache_of(patched_before());
    assert_eq!(
        guest.run(request(Arch::Aarch64), &mut cache),
        Outcome::Unusable
    );
    assert_eq!(
        guest.log,
        vec![PatchAction::CheckRange {
            start: 0x50_0000,
            len: 0x2000
        }]
    );
}

#[test]
fn a_broken_trampoline_is_not_used() {
    let mut t = fresh();
    t.invalidated = true;
    let mut guest = Guest::new();
    let mut cache = cache_of(t);
    assert_eq!(
        guest.run(request(Arch::Aarch64), &mut cache),
        Outcome::Unusable
    );
    assert!(guest.log.is_empty());
}

// The headers of a file with two loaded segments.
fn elf(file_type: u16) -> Vec<u8> {
    let mut bytes = vec![0u8; 64 + 2 * 56];
    bytes[..7].copy_from_slice(b"\x7fELF\x02\x01\x01");
    bytes[16..18].copy_from_slice(&file_type.to_le_bytes());
    bytes[18..20].copy_from_slice(&183u16.to_le_bytes());
    bytes[32..40].copy_from_slice(&64u64.to_le_bytes());
    bytes[54..56].copy_from_slice(&56u16.to_le_bytes());
    bytes[56..58].copy_from_slice(&2u16.to_le_bytes());
    phdr(&mut bytes[64..120], 1, 0, 0x1_0000, 0x2345, 0x1000);
    phdr(&mut bytes[120..176], 1, 0x3000, 0x1_4000, 0x1000, 0x4000);
    bytes
}

fn phdr(buf: &mut [u8], kind: u32, offset: u64, vaddr: u64, memsz: u64, align: u64) {
    buf[..4].copy_from_slice(&kind.to_le_bytes());
    buf[8..16].copy_from_slice(&offset.to_le_bytes());
    buf[16..24].copy_from_slice(&vaddr.to_le_bytes());
    buf[40..48].copy_from_slice(&memsz.to_le_bytes());
    buf[48..56].copy_from_slice(&align.to_le_bytes());
}

fn init_request(arch: Arch, mapped_addr: usize, file_offset: usize) -> InitRequest {
    InitRequest {
        arch,
        limits: limits(),
        magic: MAGIC,
        fd: 3,
        mapped_addr,
        file_offset,
    }
}

/// Answers an initializer from the bytes of a file.
fn learn(
    request: InitRequest,
    file: &[u8],
    scan: Option<CodeScan>,
    place: Option<u64>,
) -> (InitAction, Vec<InitAction>) {
    let cache = ElfPatchCache::new();
    let first = Initializer::start(request, &cache);
    let mut init = first.initializer;
    let mut action = first.action;
    let mut log = Vec::new();
    loop {
        log.push(action);
        let event = match action {
            InitAction::Read { offset, len } => {
                InitEvent::Bytes(file.get(offset..offset + len).map(|b| b.to_vec()))
            }
            InitAction::Stat => InitEvent::Size(Some(file.len())),
            InitAction::Scan => InitEvent::Scanned(scan),
            InitAction::Place { .. } => InitEvent::Placed(place),
            InitAction::Finish(_) | InitAction::Fatal => return (action, log),
        };
        assert!(init.is_answered_by(&event));
        action = init.step(event);
    }
}

#[test]
fn headers_are_read_as_they_stand() {
    let file = elf(ET_DYN);
    let s = summarize(&file[..64]).unwrap();
    assert_eq!((s.file_type, s.machine), (3, 183));
    assert_eq!((s.phoff, s.phentsize, s.phnum), (64, 56, 2));
    assert!(summarize(&file[..63]).is_none());
    let mut other = file.clone();
    other[0] = 0x7e;
    assert!(summarize(&other[..64]).is_none());
    let mut small = file.clone();
    small[54] = 55;
    assert!(summarize(&small[..64]).is_none());
    let mut many = file.clone();
    many[57] = 0x10;
    assert!(summarize(&many[..64]).is_none());
    assert_eq!(read_le64(&[1, 2, 0, 0, 0, 0, 0, 0x80], 0), 0x8000_0000_0000_0201);
}

#[test]
fn a_fresh_file_gets_a_trampoline_past_its_segments() {
    let (action, log) = learn(
        init_request(Arch::X86_64, 0x7f00_0000, 0),
        &elf(ET_DYN),
        None,
        Some(0x1_5001),
    );
    assert_eq!(
        log[log.len() - 2],
        InitAction::Place {
            max_load_end: 0x1_5000,
            max_load_align: 0x4000,
            machine: 183
        }
    );
    let InitAction::Finish(Some(t)) = action else {
        panic!("no trampoline");
    };
    // The load base is where the first segment is mapped, less its address.
    assert_eq!(t.addr, 0x7f00_0000 - 0x1_0000 + 0x1_6000);
    assert_eq!(t.load_span, None);
    assert!(!t.pre_patched && !t.mapped);
}

#[test]
fn the_span_of_a_file_is_known_on_aarch64() {
    let (action, log) = learn(
        init_request(Arch::Aarch64, 0x7f00_4000, 0x3000),
        &elf(ET_DYN),
        Some(CodeScan {
            upper_bound: Some(0x1000),
        }),
        Some(0x1_5000),
    );
    assert!(log.contains(&InitAction::Scan));
    let InitAction::Finish(Some(t)) = action else {
        panic!("no trampoline");
    };
    let base = 0x7f00_4000 - 0x1_4000;
    assert_eq!(
        t.load_span,
        Some(AddrRange::new(base + 0x1_0000, base + 0x1_5000))
    );
    assert!(t.scanned);
    assert_eq!(t.capacity, 2 * PAGE_SIZE);
    // A file that has its own addresses spans just these.
    let (action, _) = learn(
        init_request(Arch::Aarch64, 0x1_0000, 0x9_0000),
        &elf(2),
        None,
        Some(0x1_5000),
    );
    let InitAction::Finish(Some(t)) = action else {
        panic!("no trampoline");
    };
    assert_eq!(t.load_span, Some(AddrRange::new(0x1_0000, 0x1_5000)));
    assert_eq!((t.addr, t.capacity), (0x1_5000, PAGE_SIZE));
}

#[test]
fn a_segment_below_its_address_is_not_tracked() {
    let (action, _) = learn(
        init_request(Arch::Aarch64, 0x1000, 0),
        &elf(ET_DYN),
        None,
        Some(0x1_5000),
    );
    assert_eq!(action, InitAction::Finish(None));
}

#[test]
fn files_that_are_no_programs_are_not_tracked() {
    for file in [Vec::new(), vec![0u8; 300], elf(ET_DYN)[..100].to_vec()] {
        let (action, _) = learn(init_request(Arch::X86_64, 0, 0), &file, None, None);
        assert_eq!(action, InitAction::Finish(None));
    }
    let mut none = elf(ET_DYN);
    none[64] = 2;
    none[120] = 2;
    let (action, _) = learn(init_request(Arch::X86_64, 0, 0), &none, None, None);
    assert_eq!(action, InitAction::Finish(None));
    let (action, _) = learn(init_request(Arch::X86_64, 0, 0), &elf(ET_DYN), None, None);
    assert_eq!(action, InitAction::Finish(None));
}

fn with_tail(mut file: Vec<u8>) -> Vec<u8> {
    file.extend_from_slice(&MAGIC);
    file.extend_from_slice(&0x8000u64.to_le_bytes());
    file.extend_from_slice(&0x2_0000u64.to_le_bytes());
    file.extend_from_slice(&0x1800u64.to_le_bytes());
    file
}

#[test]
fn a_patched_file_says_where_its_trampoline_is() {
    let file = with_tail(elf(ET_DYN));
    let header = check_trampoline_magic(&file[file.len() - 32..], &MAGIC).unwrap();
    assert_eq!(
        (header.file_offset, header.vaddr, header.size),
        (0x8000, 0x2_0000, 0x1800)
    );
    let mut wrong = file.clone();
    let at = file.len() - 32;
    wrong[at + 7] ^= 1;
    assert!(check_trampoline_magic(&wrong[at..], &MAGIC).is_none());
    assert!(check_trampoline_magic(&file[at + 1..], &MAGIC).is_none());
    let (action, _) = learn(
        init_request(Arch::X86_64, 0x7f01_0000, 0),
        &file,
        None,
        None,
    );
    let InitAction::Finish(Some(t)) = action else {
        panic!("no trampoline");
    };
    assert!(t.pre_patched);
    assert_eq!(t.addr, 0x7f00_0000 + 0x2_0000);
    assert_eq!((t.file_offset, t.file_size), (0x8000, 0x1800));
    let (action, _) = learn(
        init_request(Arch::X86_64, 0x7f01_0000, 0x9_0000),
        &file,
        None,
        None,
    );
    assert_eq!(action, InitAction::Fatal);
}

#[test]
fn a_file_is_learnt_once() {
    let mut cache = ElfPatchCache::new();
    record_initialized(&mut cache, 3, None);
    assert!(!cache.contains_key(3));
    record_initialized(&mut cache, 3, Some(fresh()));
    assert_eq!(cache.get(3).unwrap().trampoline, fresh());
    record_initialized(&mut cache, 3, Some(patched_before()));
    assert_eq!(cache.get(3).unwrap().trampoline, fresh());
    let first = Initializer::start(init_request(Arch::X86_64, 0, 0), &cache);
    assert_eq!(first.action, InitAction::Finish(None));
}

#[test]
fn capacities_are_whole_pages() {
    assert_eq!(trampoline_capacity(limits(), None), PAGE_SIZE);
    assert_eq!(trampoline_capacity(limits(), Some(0)), PAGE_SIZE);
    assert_eq!(
        trampoline_capacity(limits(), Some(PAGE_SIZE - 16)),
        PAGE_SIZE
    );
    assert_eq!(
        trampoline_capacity(limits(), Some(PAGE_SIZE - 15)),
        2 * PAGE_SIZE
    );
    assert_eq!(trampoline_capacity(limits(), Some(usize::MAX)), PAGE_SIZE);
}

#[test]
fn scan_buffers_hold_the_file_in_zeroed_words() {
    assert_eq!(scan_buffer(0), Some(vec![]));
    assert_eq!(scan_buffer(17), Some(vec![0, 0, 0]));
    assert_eq!(scan_buffer(16), Some(vec![0, 0]));
    assert_eq!(scan_buffer(usize::MAX), None);
}
