//! What the headers of an ELF file say of its segments, and the header of a
//! trampoline at the end of one.

use vstd::prelude::*;

use crate::arith::{align_down, floor_to, page_size_is_pow2, wrap_sub, PAGE_SIZE};
use crate::flags::Arch;

verus! {

/// Size of the header of a 64-bit ELF file.
pub const FILE_HEADER_SIZE: usize = 64;

/// Size of a program header of a 64-bit ELF file.
pub const PROGRAM_HEADER_SIZE: usize = 56;

/// Size of the header of a trampoline: its magic, and the offset in the file,
/// the address and the size of the trampoline.
pub const TRAMPOLINE_HEADER_SIZE: usize = 32;

/// Type of a file that can be loaded at any address.
pub const ET_DYN: u16 = 3;

/// Type of a segment that is loaded.
pub const PT_LOAD: u32 = 1;

/// The two bytes at `at`, the low one first.
pub open spec fn le16(bytes: Seq<u8>, at: int) -> int {
    bytes[at] + 0x100 * bytes[at + 1]
}

/// The four bytes at `at`, the low ones first.
pub open spec fn le32(bytes: Seq<u8>, at: int) -> int {
    le16(bytes, at) + 0x1_0000 * le16(bytes, at + 2)
}

/// The eight bytes at `at`, the low ones first.
pub open spec fn le64(bytes: Seq<u8>, at: int) -> int {
    le32(bytes, at) + 0x1_0000_0000 * le32(bytes, at + 4)
}

/// Reads four bytes, the low ones first.
fn read_le32(bytes: &[u8], at: usize) -> (value: u32)
    requires
        at + 4 <= bytes.len(),
    ensures
        value == le32(bytes@, at as int),
{
    bytes[at] as u32 + 0x100 * (bytes[at + 1] as u32) + 0x1_0000 * (bytes[at + 2] as u32
        + 0x100 * (bytes[at + 3] as u32))
}

/// Reads eight bytes, the low ones first.
pub fn read_le64(bytes: &[u8], at: usize) -> (value: u64)
    requires
        at + 8 <= bytes.len(),
    ensures
        value == le64(bytes@, at as int),
{
    read_le32(bytes, at) as u64 + 0x1_0000_0000 * (read_le32(bytes, at + 4) as u64)
}

/// What is read of the header of an ELF file.
#[derive(Clone, Copy, Debug)]
pub struct FileHeader {
    pub magic: [u8; 4],
    pub file_type: u16,
    pub machine: u16,
    /// Where in the file the program headers are.
    pub phoff: u64,
    /// Size of a program header, and how many there are.
    pub phentsize: u16,
    pub phnum: u16,
}

/// What is read of a program header.
#[derive(Clone, Copy, Debug, PartialEq, Eq, Structural)]
pub struct ProgramHeader {
    pub segment_type: u32,
    /// Where in the file the segment is.
    pub offset: u64,
    /// Where the segment is loaded, and its size there.
    pub vaddr: u64,
    pub memsz: u64,
    pub align: u64,
}

impl FileHeader {
    /// Whether these are the values at the start of `bytes`.
    pub open spec fn stands_in(self, bytes: Seq<u8>) -> bool {
        &&& self.magic@ == bytes.subrange(0, 4)
        &&& self.file_type == le16(bytes, 16)
        &&& self.machine == le16(bytes, 18)
        &&& self.phoff == le64(bytes, 32)
        &&& self.phentsize == le16(bytes, 54)
        &&& self.phnum == le16(bytes, 56)
    }
}

impl ProgramHeader {
    /// Whether these are the values at the start of `bytes`.
    pub open spec fn stands_in(self, bytes: Seq<u8>) -> bool {
        &&& self.segment_type == le32(bytes, 0)
        &&& self.offset == le64(bytes, 8)
        &&& self.vaddr == le64(bytes, 16)
        &&& self.memsz == le64(bytes, 40)
        &&& self.align == le64(bytes, 48)
    }
}

/// Calls `object::from_bytes` for a `FileHeader64` of little-endian values and
/// reads the fields with `U16::get` and `U64::get`. Claims that it succeeds on
/// any slice of at least the header's size, whatever its alignment, and that
/// each field is the little-endian value at its offset.
#[verifier::external_body]
fn file_header(bytes: &[u8]) -> (header: Option<FileHeader>)
    ensures
        header is Some == (bytes.len() >= FILE_HEADER_SIZE),
        header matches Some(h) ==> h.stands_in(bytes@),
{
    let e = object::LittleEndian;
    match object::from_bytes::<object::elf::FileHeader64<object::LittleEndian>>(bytes) {
        Ok((h, _)) => Some(FileHeader {
            magic: h.e_ident.magic,
            file_type: h.e_type.get(e).0,
            machine: h.e_machine.get(e).0,
            phoff: h.e_phoff.get(e),
            phentsize: h.e_phentsize.get(e),
            phnum: h.e_phnum.get(e),
        }),
        Err(()) => None,
    }
}

/// Calls `object::from_bytes` for a `ProgramHeader64` of little-endian values
/// and reads the fields with `U32::get` and `U64::get`. Claims that it succeeds
/// on any slice of at least the header's size, whatever its alignment, and that
/// each field is the little-endian value at its offset.
#[verifier::external_body]
fn program_header(bytes: &[u8]) -> (header: Option<ProgramHeader>)
    ensures
        header is Some == (bytes.len() >= PROGRAM_HEADER_SIZE),
        header matches Some(h) ==> h.stands_in(bytes@),
{
    let e = object::LittleEndian;
    match object::from_bytes::<object::elf::ProgramHeader64<object::LittleEndian>>(bytes) {
        Ok((h, _)) => Some(ProgramHeader {
            segment_type: h.p_type.get(e).0,
            offset: h.p_offset.get(e),
            vaddr: h.p_vaddr.get(e),
            memsz: h.p_memsz.get(e),
            align: h.p_align.get(e),
        }),
        Err(()) => None,
    }
}

/// What an ELF file says of itself, where its program headers can be read.
#[derive(Clone, Copy, Debug, PartialEq, Eq, Structural)]
pub struct ElfSummary {
    pub file_type: u16,
    pub machine: u16,
    /// Where in the file the program headers are.
    pub phoff: usize,
    /// Size of a program header, and how many there are.
    pub phentsize: usize,
    pub phnum: usize,
}

/// The summary of a file that starts with `bytes`, unless it is no ELF file or
/// its program headers are too small or too many.
pub open spec fn summary_of(bytes: Seq<u8>) -> Option<ElfSummary> {
    let phentsize = le16(bytes, 54);
    let phnum = le16(bytes, 56);
    if bytes.len() >= FILE_HEADER_SIZE && bytes.subrange(0, 4) == seq![
        0x7fu8,
        0x45u8,
        0x4cu8,
        0x46u8,
    ] && phentsize >= PROGRAM_HEADER_SIZE && 0 < phentsize * phnum <= 0x1_0000 {
        Some(
            ElfSummary {
                file_type: le16(bytes, 16) as u16,
                machine: le16(bytes, 18) as u16,
                phoff: le64(bytes, 32) as u64 as usize,
                phentsize: phentsize as usize,
                phnum: phnum as usize,
            },
        )
    } else {
        None
    }
}

/// Reads the header at the start of a file.
pub fn summarize(bytes: &[u8]) -> (summary: Option<ElfSummary>)
    ensures
        summary == summary_of(bytes@),
{
    let Some(h) = file_header(bytes) else {
        return None;
    };
    let is_elf = h.magic[0] == 0x7f && h.magic[1] == 0x45 && h.magic[2] == 0x4c && h.magic[3]
        == 0x46;
    proof {
        let elf = seq![0x7fu8, 0x45u8, 0x4cu8, 0x46u8];
        assert(is_elf ==> h.magic@ =~= elf);
        assert(h.magic@ == elf ==> h.magic@[0] == elf[0] && h.magic@[1] == elf[1] && h.magic@[2]
            == elf[2] && h.magic@[3] == elf[3]);
    }
    if !is_elf {
        return None;
    }
    let phentsize: usize = h.phentsize as usize;
    let phnum: usize = h.phnum as usize;
    if phentsize < PROGRAM_HEADER_SIZE {
        return None;
    }
    match phentsize.checked_mul(phnum) {
        Some(size) => {
            if size == 0 || size > 0x1_0000 {
                return None;
            }
        },
        None => {
            return None;
        },
    }
    Some(
        ElfSummary {
            file_type: h.file_type,
            machine: h.machine,
            phoff: h.phoff as usize,
            phentsize,
            phnum,
        },
    )
}

/// A segment that is loaded.
#[derive(Clone, Copy, Debug, PartialEq, Eq, Structural)]
pub struct Load {
    pub offset: u64,
    pub vaddr: u64,
    /// The end of the segment.
    pub end: u64,
    pub align: u64,
}

/// The segment that a program header describes, unless it is not loaded or
/// ends past the address space.
pub open spec fn load_in(header: Seq<u8>) -> Option<Load> {
    let end = le64(header, 16) + le64(header, 40);
    if le32(header, 0) == PT_LOAD && end <= u64::MAX {
        Some(
            Load {
                offset: le64(header, 8) as u64,
                vaddr: le64(header, 16) as u64,
                end: end as u64,
                align: le64(header, 48) as u64,
            },
        )
    } else {
        None
    }
}

/// The segment of the program header at `i`.
#[verifier::opaque]
pub open spec fn load_at(phdrs: Seq<u8>, phentsize: int, i: int) -> Option<Load> {
    load_in(phdrs.subrange(i * phentsize, i * phentsize + phentsize))
}

/// The page on which the segment starts.
pub open spec fn page_of(x: u64) -> int {
    floor_to(x as usize as int, PAGE_SIZE as int)
}

/// Whether the segment at `i` is loaded from the page of the file at
/// `file_offset`.
pub open spec fn is_mapped_at(
    phdrs: Seq<u8>,
    phentsize: int,
    i: int,
    file_offset: usize,
) -> bool {
    load_at(phdrs, phentsize, i) matches Some(l) && page_of(l.offset) == floor_to(
        file_offset as int,
        PAGE_SIZE as int,
    )
}

/// Whether the first of `n` segments that is loaded from the page of the file
/// at `file_offset` is the one at `i`.
pub open spec fn is_first_mapped(
    phdrs: Seq<u8>,
    phentsize: int,
    n: int,
    file_offset: usize,
    i: int,
) -> bool {
    &&& 0 <= i < n
    &&& is_mapped_at(phdrs, phentsize, i, file_offset)
    &&& forall|j: int| 0 <= j < i ==> !#[trigger] is_mapped_at(phdrs, phentsize, j, file_offset)
}

/// The load base that follows from a segment being mapped at `mapped_addr`,
/// if there is one: on AArch64 the segment's page is mapped there, elsewhere
/// its first byte.
pub open spec fn base_of(arch: Arch, mapped_addr: usize, vaddr: u64) -> Option<usize> {
    if arch == Arch::Aarch64 {
        if mapped_addr >= page_of(vaddr) {
            Some((mapped_addr - page_of(vaddr)) as usize)
        } else {
            None
        }
    } else {
        Some(wrap_sub(mapped_addr, vaddr as usize))
    }
}

/// What the loaded segments of a file span.
#[derive(Clone, Copy, Debug, PartialEq, Eq, Structural)]
pub struct LoadScan {
    /// The highest end of a segment, zero if there is none.
    pub max_end: u64,
    /// The lowest page of a segment, the highest address if there is none.
    pub min_start: u64,
    /// The greatest alignment.
    pub max_align: u64,
    /// The load base, if it is known.
    pub base: Option<usize>,
}

impl LoadScan {
    /// Whether this is what the first `n` program headers say.
    pub open spec fn covers(
        self,
        phdrs: Seq<u8>,
        phentsize: int,
        n: int,
        arch: Arch,
        mapped_addr: usize,
        file_offset: usize,
    ) -> bool {
        &&& forall|i: int|
            0 <= i < n ==> ((#[trigger] load_at(phdrs, phentsize, i)) matches Some(l) ==> {
                &&& l.end <= self.max_end
                &&& page_of(l.vaddr) >= self.min_start
                &&& l.align <= self.max_align
            })
        &&& self.max_end == 0 || exists|i: int|
            0 <= i < n && ((#[trigger] load_at(phdrs, phentsize, i)) matches Some(l) && l.end
                == self.max_end)
        &&& self.min_start == u64::MAX || exists|i: int|
            0 <= i < n && ((#[trigger] load_at(phdrs, phentsize, i)) matches Some(l) && page_of(
                l.vaddr,
            ) == self.min_start)
        &&& self.max_align == 0 || exists|i: int|
            0 <= i < n && ((#[trigger] load_at(phdrs, phentsize, i)) matches Some(l) && l.align
                == self.max_align)
        &&& match self.base {
            Some(base) => exists|i: int| #[trigger]
                is_first_mapped(phdrs, phentsize, n, file_offset, i) && base_of(
                    arch,
                    mapped_addr,
                    load_at(phdrs, phentsize, i)->0.vaddr,
                ) == Some(base),
            None => forall|i: int|
                0 <= i < n ==> !#[trigger] is_mapped_at(phdrs, phentsize, i, file_offset),
        }
    }
}

/// Whether the segment that is mapped lies below its own address, so that no
/// load base follows.
pub open spec fn below_its_address(
    phdrs: Seq<u8>,
    phentsize: int,
    n: int,
    arch: Arch,
    mapped_addr: usize,
    file_offset: usize,
) -> bool {
    exists|i: int| #[trigger]
        is_first_mapped(phdrs, phentsize, n, file_offset, i) && base_of(
            arch,
            mapped_addr,
            load_at(phdrs, phentsize, i)->0.vaddr,
        ) is None
}

/// Reads the segment of a program header.
fn read_load(phdrs: &[u8], phentsize: usize, phnum: usize, i: usize) -> (load: Option<Load>)
    requires
        phentsize >= PROGRAM_HEADER_SIZE,
        phdrs.len() == phentsize * phnum,
        i < phnum,
    ensures
        load == load_at(phdrs@, phentsize as int, i as int),
{
    proof {
        reveal(load_at);
        assert(i * phentsize + phentsize <= phdrs.len()) by (nonlinear_arith)
            requires
                i + 1 <= phnum,
                phdrs.len() == phentsize * phnum,
        ;
        assert(i * phentsize >= 0) by (nonlinear_arith);
    }
    let at: usize = i * phentsize;
    let bytes = vstd::slice::slice_subrange(phdrs, at, at + phentsize);
    let Some(h) = program_header(bytes) else {
        return None;
    };
    if h.segment_type != PT_LOAD {
        return None;
    }
    match h.vaddr.checked_add(h.memsz) {
        Some(end) => Some(Load { offset: h.offset, vaddr: h.vaddr, end, align: h.align }),
        None => None,
    }
}

/// Scans the program headers for what the loaded segments span, and for the
/// load base that follows from the page of the file at `file_offset` being
/// mapped at `mapped_addr`. `None` where that segment lies below its own
/// address.
pub fn scan_load_segments(
    phdrs: &[u8],
    phentsize: usize,
    phnum: usize,
    arch: Arch,
    mapped_addr: usize,
    file_offset: usize,
) -> (scan: Option<LoadScan>)
    requires
        phentsize >= PROGRAM_HEADER_SIZE,
        phdrs.len() == phentsize * phnum,
    ensures
        scan == scan_of(
            phdrs@,
            phentsize as int,
            phnum as int,
            arch,
            mapped_addr,
            file_offset,
        ),
        scan matches Some(s) ==> s.covers(
            phdrs@,
            phentsize as int,
            phnum as int,
            arch,
            mapped_addr,
            file_offset,
        ),
{
    proof {
        page_size_is_pow2();
    }
    let mut scan = LoadScan { max_end: 0, min_start: u64::MAX, max_align: 0, base: None };
    let ghost es = phentsize as int;
    let mut i: usize = 0;
    while i < phnum
        invariant
            crate::arith::is_pow2(PAGE_SIZE as int),
            phentsize >= PROGRAM_HEADER_SIZE,
            phdrs.len() == phentsize * phnum,
            i <= phnum,
            es == phentsize,
            scan.covers(phdrs@, es, i as int, arch, mapped_addr, file_offset),
        decreases phnum - i,
    {
        let ghost before = scan;
        if let Some(h) = read_load(phdrs, phentsize, phnum, i) {
            if h.end > scan.max_end {
                scan.max_end = h.end;
            }
            let page: u64 = align_down(h.vaddr as usize, PAGE_SIZE) as u64;
            if page < scan.min_start {
                scan.min_start = page;
            }
            if h.align > scan.max_align {
                scan.max_align = h.align;
            }
            let matched = align_down(h.offset as usize, PAGE_SIZE) == align_down(
                file_offset,
                PAGE_SIZE,
            );
            assert(matched == is_mapped_at(phdrs@, es, i as int, file_offset));
            if scan.base.is_none() && matched {
                assert(is_first_mapped(phdrs@, es, phnum as int, file_offset, i as int));
                assert(is_first_mapped(phdrs@, es, i + 1, file_offset, i as int));
                if arch == Arch::Aarch64 {
                    match mapped_addr.checked_sub(align_down(h.vaddr as usize, PAGE_SIZE)) {
                        Some(base) => {
                            scan.base = Some(base);
                        },
                        None => {
                            return None;
                        },
                    }
                } else {
                    scan.base = Some(mapped_addr.wrapping_sub(h.vaddr as usize));
                }
            }
        }
        proof {
            covers_one_more(
                before,
                scan,
                phdrs@,
                es,
                i as int,
                arch,
                mapped_addr,
                file_offset,
            );
        }
        i += 1;
    }
    proof {
        if below_its_address(phdrs@, es, phnum as int, arch, mapped_addr, file_offset) {
            let k = choose|k: int| #[trigger]
                is_first_mapped(phdrs@, es, phnum as int, file_offset, k) && base_of(
                    arch,
                    mapped_addr,
                    load_at(phdrs@, es, k)->0.vaddr,
                ) is None;
            let j = choose|j: int| #[trigger]
                is_first_mapped(phdrs@, es, phnum as int, file_offset, j) && base_of(
                    arch,
                    mapped_addr,
                    load_at(phdrs@, es, j)->0.vaddr,
                ) == Some(scan.base->0);
            assert(is_mapped_at(phdrs@, es, k, file_offset));
            assert(is_mapped_at(phdrs@, es, j, file_offset));
            assert(j == k);
        }
        scan_is_unique(
            scan,
            choose|s: LoadScan| #[trigger]
                s.covers(phdrs@, es, phnum as int, arch, mapped_addr, file_offset),
            phdrs@,
            es,
            phnum as int,
            arch,
            mapped_addr,
            file_offset,
        );
    }
    Some(scan)
}

/// A scan that takes one more program header into account covers it too.
proof fn covers_one_more(
    before: LoadScan,
    scan: LoadScan,
    phdrs: Seq<u8>,
    es: int,
    i: int,
    arch: Arch,
    mapped_addr: usize,
    file_offset: usize,
)
    requires
        i >= 0,
        before.covers(phdrs, es, i, arch, mapped_addr, file_offset),
        match load_at(phdrs, es, i) {
            Some(l) => {
                &&& scan.max_end == if l.end > before.max_end {
                    l.end
                } else {
                    before.max_end
                }
                &&& scan.min_start == if page_of(l.vaddr) < before.min_start {
                    page_of(l.vaddr)
                } else {
                    before.min_start as int
                }
                &&& scan.max_align == if l.align > before.max_align {
                    l.align
                } else {
                    before.max_align
                }
                &&& scan.base == if before.base is None && is_mapped_at(
                    phdrs,
                    es,
                    i,
                    file_offset,
                ) {
                    base_of(arch, mapped_addr, l.vaddr)
                } else {
                    before.base
                }
                &&& scan.base is None ==> !is_mapped_at(phdrs, es, i, file_offset)
            },
            None => scan == before,
        },
    ensures
        scan.covers(phdrs, es, i + 1, arch, mapped_addr, file_offset),
{
    let now = load_at(phdrs, es, i);
    if before.max_end != 0 {
        let k = choose|k: int|
            0 <= k < i && ((#[trigger] load_at(phdrs, es, k)) matches Some(l) && l.end
                == before.max_end);
        assert(load_at(phdrs, es, k) is Some);
    }
    if before.min_start != u64::MAX {
        let k = choose|k: int|
            0 <= k < i && ((#[trigger] load_at(phdrs, es, k)) matches Some(l) && page_of(l.vaddr)
                == before.min_start);
        assert(load_at(phdrs, es, k) is Some);
    }
    if before.max_align != 0 {
        let k = choose|k: int|
            0 <= k < i && ((#[trigger] load_at(phdrs, es, k)) matches Some(l) && l.align
                == before.max_align);
        assert(load_at(phdrs, es, k) is Some);
    }
    match before.base {
        Some(base) => {
            let k = choose|k: int| #[trigger]
                is_first_mapped(phdrs, es, i, file_offset, k) && base_of(
                    arch,
                    mapped_addr,
                    load_at(phdrs, es, k)->0.vaddr,
                ) == Some(base);
            assert(is_first_mapped(phdrs, es, i + 1, file_offset, k));
        },
        None => {
            if is_mapped_at(phdrs, es, i, file_offset) {
                assert(is_first_mapped(phdrs, es, i + 1, file_offset, i));
            }
        },
    }
}

/// Where a file says its trampoline is.
#[derive(Clone, Copy, Debug, PartialEq, Eq, Structural)]
pub struct TrampolineHeader {
    pub file_offset: u64,
    pub vaddr: u64,
    pub size: u64,
}

/// The trampoline header in the last bytes of a file, if they start with the
/// magic.
pub open spec fn trampoline_header_of(tail: Seq<u8>, magic: Seq<u8>) -> Option<TrampolineHeader> {
    if tail.len() == TRAMPOLINE_HEADER_SIZE && tail.subrange(0, 8) == magic {
        Some(
            TrampolineHeader {
                file_offset: le64(tail, 8) as u64,
                vaddr: le64(tail, 16) as u64,
                size: le64(tail, 24) as u64,
            },
        )
    } else {
        None
    }
}

/// Reads the trampoline header from the last bytes of a file.
pub fn check_trampoline_magic(tail: &[u8], magic: &[u8; 8]) -> (header: Option<TrampolineHeader>)
    ensures
        header == trampoline_header_of(tail@, magic@),
{
    if tail.len() != TRAMPOLINE_HEADER_SIZE {
        return None;
    }
    let mut i: usize = 0;
    while i < 8
        invariant
            i <= 8,
            tail.len() == TRAMPOLINE_HEADER_SIZE,
            forall|k: int| 0 <= k < i ==> tail@[k] == magic@[k],
        decreases 8 - i,
    {
        if tail[i] != magic[i] {
            assert(tail@.subrange(0, 8)[i as int] != magic@[i as int]);
            return None;
        }
        i += 1;
    }
    assert(tail@.subrange(0, 8) =~= magic@);
    Some(
        TrampolineHeader {
            file_offset: read_le64(tail, 8),
            vaddr: read_le64(tail, 16),
            size: read_le64(tail, 24),
        },
    )
}

/// What the program headers say of the loaded segments; `None` where the
/// segment that is mapped lies below its own address.
pub open spec fn scan_of(
    phdrs: Seq<u8>,
    phentsize: int,
    n: int,
    arch: Arch,
    mapped_addr: usize,
    file_offset: usize,
) -> Option<LoadScan> {
    if below_its_address(phdrs, phentsize, n, arch, mapped_addr, file_offset) {
        None
    } else {
        Some(
            choose|s: LoadScan| #[trigger]
                s.covers(phdrs, phentsize, n, arch, mapped_addr, file_offset),
        )
    }
}

/// The program headers say one thing only.
pub proof fn scan_is_unique(
    a: LoadScan,
    b: LoadScan,
    phdrs: Seq<u8>,
    phentsize: int,
    n: int,
    arch: Arch,
    mapped_addr: usize,
    file_offset: usize,
)
    requires
        a.covers(phdrs, phentsize, n, arch, mapped_addr, file_offset),
        b.covers(phdrs, phentsize, n, arch, mapped_addr, file_offset),
    ensures
        a == b,
{
    scan_is_not_above(a, b, phdrs, phentsize, n, arch, mapped_addr, file_offset);
    scan_is_not_above(b, a, phdrs, phentsize, n, arch, mapped_addr, file_offset);
    if a.base is Some {
        let i = choose|i: int| #[trigger]
            is_first_mapped(phdrs, phentsize, n, file_offset, i) && base_of(
                arch,
                mapped_addr,
                load_at(phdrs, phentsize, i)->0.vaddr,
            ) == Some(a.base->0);
        assert(is_mapped_at(phdrs, phentsize, i, file_offset));
        let j = choose|j: int| #[trigger]
            is_first_mapped(phdrs, phentsize, n, file_offset, j) && base_of(
                arch,
                mapped_addr,
                load_at(phdrs, phentsize, j)->0.vaddr,
            ) == Some(b.base->0);
        assert(is_mapped_at(phdrs, phentsize, j, file_offset));
        assert(i == j);
    } else if b.base is Some {
        let j = choose|j: int| #[trigger]
            is_first_mapped(phdrs, phentsize, n, file_offset, j) && base_of(
                arch,
                mapped_addr,
                load_at(phdrs, phentsize, j)->0.vaddr,
            ) == Some(b.base->0);
        assert(is_mapped_at(phdrs, phentsize, j, file_offset));
    }
}

/// No bound of one scan goes past that of another.
proof fn scan_is_not_above(
    a: LoadScan,
    b: LoadScan,
    phdrs: Seq<u8>,
    phentsize: int,
    n: int,
    arch: Arch,
    mapped_addr: usize,
    file_offset: usize,
)
    requires
        a.covers(phdrs, phentsize, n, arch, mapped_addr, file_offset),
        b.covers(phdrs, phentsize, n, arch, mapped_addr, file_offset),
    ensures
        a.max_end <= b.max_end,
        a.min_start >= b.min_start,
        a.max_align <= b.max_align,
{
    if a.max_end != 0 {
        let i = choose|i: int|
            0 <= i < n && ((#[trigger] load_at(phdrs, phentsize, i)) matches Some(l) && l.end
                == a.max_end);
        assert(load_at(phdrs, phentsize, i) is Some);
    }
    if a.min_start != u64::MAX {
        let i = choose|i: int|
            0 <= i < n && ((#[trigger] load_at(phdrs, phentsize, i)) matches Some(l) && page_of(
                l.vaddr,
            ) == a.min_start);
        assert(load_at(phdrs, phentsize, i) is Some);
    }
    if a.max_align != 0 {
        let i = choose|i: int|
            0 <= i < n && ((#[trigger] load_at(phdrs, phentsize, i)) matches Some(l) && l.align
                == a.max_align);
        assert(load_at(phdrs, phentsize, i) is Some);
    }
}

/// A load base puts the segment that it follows from where it is mapped: on
/// AArch64 its page, elsewhere its first byte.
pub proof fn base_leads_to_the_mapping(arch: Arch, mapped_addr: usize, vaddr: u64)
    ensures
        base_of(arch, mapped_addr, vaddr) matches Some(base) ==> {
            &&& arch == Arch::Aarch64 ==> base + page_of(vaddr) == mapped_addr
            &&& arch == Arch::X86_64 ==> crate::arith::wrap_add(base, vaddr as usize)
                == mapped_addr
        },
        base_of(arch, mapped_addr, vaddr) is None ==> arch == Arch::Aarch64 && mapped_addr
            < page_of(vaddr),
{
    crate::arith::floor_to_is_greatest_multiple(vaddr as usize as int, PAGE_SIZE as int);
}

/// A trampoline's header is its magic, then where in the file the trampoline is,
/// then its address, then its size, and nothing else.
pub proof fn trampoline_headers_are_read_in_order(tail: Seq<u8>, magic: Seq<u8>)
    requires
        magic.len() == 8,
    ensures
        trampoline_header_of(tail, magic) is Some <==> tail.len() == 32 && tail.take(8) == magic,
        trampoline_header_of(tail, magic) matches Some(h) ==> {
            &&& h.file_offset == le64(tail, 8)
            &&& h.vaddr == le64(tail, 16)
            &&& h.size == le64(tail, 24)
        },
{
    assert(tail.len() == 32 ==> tail.take(8) =~= tail.subrange(0, 8));
}

/// Only a file with the magic of ELF has a summary, and only where it has program
/// headers of a sensible size and number.
pub proof fn only_programs_are_summarized(bytes: Seq<u8>)
    ensures
        summary_of(bytes) matches Some(s) ==> {
            &&& bytes.len() >= 64
            &&& bytes[0] == 0x7f && bytes[1] == 0x45 && bytes[2] == 0x4c && bytes[3] == 0x46
            &&& s.phentsize >= 56
            &&& 0 < s.phentsize * s.phnum <= 0x1_0000
            &&& s.file_type == bytes[16] + 0x100 * bytes[17]
            &&& s.machine == bytes[18] + 0x100 * bytes[19]
        },
{
    if summary_of(bytes) is Some {
        let elf = seq![0x7fu8, 0x45u8, 0x4cu8, 0x46u8];
        assert(bytes.subrange(0, 4) == elf);
        assert(bytes[0] == elf[0] && bytes[1] == elf[1] && bytes[2] == elf[2] && bytes[3]
            == elf[3]) by {
            assert(bytes.subrange(0, 4)[0] == bytes[0]);
            assert(bytes.subrange(0, 4)[1] == bytes[1]);
            assert(bytes.subrange(0, 4)[2] == bytes[2]);
            assert(bytes.subrange(0, 4)[3] == bytes[3]);
        }
    }
}

/// What a program header loads lies where the header says, from its address on for
/// as long as its size in memory; a header of another type loads nothing.
pub proof fn segments_are_where_their_headers_say(header: Seq<u8>)
    ensures
        load_in(header) matches Some(l) ==> {
            &&& le32(header, 0) == 1
            &&& l.end - l.vaddr == le64(header, 40)
            &&& l.vaddr <= l.end
        },
        le32(header, 0) != 1 ==> load_in(header) is None,
{
    eight_bytes_fit(header, 16);
    eight_bytes_fit(header, 40);
}

/// Eight bytes have a value of sixty-four bits.
proof fn eight_bytes_fit(a: Seq<u8>, at: int)
    ensures
        0 <= le64(a, at) <= u64::MAX,
{
    four_bytes_fit(a, at);
    four_bytes_fit(a, at + 4);
}

/// Four bytes have a value of thirty-two bits.
proof fn four_bytes_fit(a: Seq<u8>, at: int)
    ensures
        0 <= le32(a, at) < 0x1_0000_0000,
{
    two_bytes_fit(a, at);
    two_bytes_fit(a, at + 2);
}

/// Two bytes have a value of sixteen bits.
proof fn two_bytes_fit(a: Seq<u8>, at: int)
    ensures
        0 <= le16(a, at) < 0x1_0000,
{
}

/// What a scan says spans every segment that is loaded, from the start of a page
/// on, and no more than the segments do.
pub proof fn scans_span_all_segments(
    s: LoadScan,
    phdrs: Seq<u8>,
    phentsize: int,
    n: int,
    arch: Arch,
    mapped_addr: usize,
    file_offset: usize,
    i: int,
)
    requires
        s.covers(phdrs, phentsize, n, arch, mapped_addr, file_offset),
        0 <= i < n,
        load_at(phdrs, phentsize, i) is Some,
    ensures
        ({
            let l = load_at(phdrs, phentsize, i)->0;
            &&& s.min_start <= l.vaddr
            &&& l.end <= s.max_end
            &&& l.align <= s.max_align
            &&& s.min_start as int % PAGE_SIZE as int == 0
            &&& s.base is None ==> floor_to(l.offset as usize as int, PAGE_SIZE as int) != floor_to(
                file_offset as int,
                PAGE_SIZE as int,
            )
        }),
{
    let l = load_at(phdrs, phentsize, i)->0;
    crate::arith::floor_to_is_greatest_multiple(l.vaddr as usize as int, PAGE_SIZE as int);
    assert(page_of(l.vaddr) >= s.min_start);
    assert(page_of(l.vaddr) <= l.vaddr as usize);
    assert(s.base is None ==> !is_mapped_at(phdrs, phentsize, i, file_offset));
    if s.min_start == u64::MAX {
        assert(page_of(l.vaddr) >= u64::MAX);
        assert(page_of(l.vaddr) % PAGE_SIZE as int == 0);
    } else {
        let k = choose|k: int|
            0 <= k < n && ((#[trigger] load_at(phdrs, phentsize, k)) matches Some(m) && page_of(
                m.vaddr,
            ) == s.min_start);
        let m = load_at(phdrs, phentsize, k)->0;
        crate::arith::floor_to_is_greatest_multiple(m.vaddr as usize as int, PAGE_SIZE as int);
    }
}

} // verus!
