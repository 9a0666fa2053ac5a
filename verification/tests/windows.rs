//! The Windows platform, on a host whose memory is simulated.

use litebox::flags::MemoryRegionPermissions;
use litebox::mm::ranges::AddrRange;
use litebox::page_mgmt::{AllocationError, FixedAddressBehavior};
use litebox::platform::{
    ArchSpecificError, ArchSpecificRegister, UnblockedOrTimedOut, WakePlan,
};
use litebox::shim::entry::{ContinueOperation, PAGE_FAULT};
use litebox::windows::allocate::{AllocAction, AllocEvent, AllocFailure, Allocation};
use litebox::windows::context::{
    continue_context, exception_handler, interrupt_handler, save_guest_context, switch_to_guest,
    GuestXstateFormat, HostContext, HostException, PtRegs, ResumePath, VectoredAction, BREAKPOINT,
    DIVIDE_ERROR, EXCEPTION_ACCESS_VIOLATION, EXCEPTION_BREAKPOINT, EXCEPTION_ILLEGAL_INSTRUCTION,
    EXCEPTION_INT_DIVIDE_BY_ZERO, GENERAL_PROTECTION_FAULT, INVALID_OPCODE,
};
use litebox::windows::interrupt::{
    is_in_ntdll_or_this, place_of, GuestPlace, InterruptAction, InterruptEvent, InterruptFailure,
    Interruption,
};
use litebox::windows::regions::{
    prot_flags, MapReader, Region, RegionWalk, WalkAction, WalkEvent, WalkFailure, WindowsUserland,
    MEM_COMMIT, MEM_FREE, MEM_RESERVE, PAGE_EXECUTE_READ, PAGE_EXECUTE_READWRITE, PAGE_NOACCESS,
    PAGE_READONLY, PAGE_READWRITE,
};
use litebox::windows::sync::{
    alloc_size, set_timer, signal_bit, take_pending_signals, Instant, RawMutex,
    SystemTime, ThreadFsBase, CTRL_C_EVENT, ERROR_TIMEOUT, INFINITE, SIGINT,
};
use litebox::windows::thread::{
    ctrl_c_handler, ensure_tls_index, fill_bytes_crng, get_tls_ptr, threadpool_timer_callback,
    ActiveThreads, Delivery, TlsState,
};
use litebox::windows::xsave::{
    context_chunks, enabled_components, has_host_controls, ComponentPlace, XsaveArea,
    XsaveComponent, XsaveFault, XsaveLayout, GUEST_INITIAL_MXCSR, GUEST_INITIAL_X87_CONTROL_WORD,
};

use windows_sys::Win32::Foundation as F;
use windows_sys::Win32::System::Memory as M;

const PAGE: usize = 0x1000;
const GRANULARITY: usize = 0x1_0000;

fn perms(read: bool, write: bool, execute: bool) -> MemoryRegionPermissions {
    MemoryRegionPermissions {
        read,
        write,
        execute,
        shared: false,
    }
}

/// A host with the state of its pages, from a base on.
struct Host {
    base: usize,
    pages: Vec<u32>,
    platform: WindowsUserland,
    prefetched: usize,
}

impl Host {
    fn new() -> Self {
        Host {
            base: 0x10_0000,
            pages: vec![MEM_FREE; 256],
            platform: WindowsUserland::new(Vec::new(), GRANULARITY as u32),
            prefetched: 0,
        }
    }

    fn query(&self, addr: usize) -> Region {
        let first = (addr - self.base) / PAGE;
        let state = self.pages[first];
        let mut last = first;
        while last < self.pages.len() && self.pages[last] == state {
            last += 1;
        }
        Region {
            base: addr,
            size: (last - first) * PAGE,
            state,
        }
    }

    fn set(&mut self, addr: usize, len: usize, state: u32) {
        for i in 0..len.div_ceil(PAGE) {
            self.pages[(addr - self.base) / PAGE + i] = state;
        }
    }

    fn allocate_pages(
        &mut self,
        range: AddrRange,
        permissions: MemoryRegionPermissions,
        behavior: FixedAddressBehavior,
    ) -> Result<usize, AllocationError> {
        let first = Allocation::allocate_pages(&self.platform, range, permissions, true, behavior);
        let mut a = first.allocation;
        let mut action = first.action;
        loop {
            let event = match action {
                AllocAction::Query { addr } => AllocEvent::Region(Some(self.query(addr))),
                AllocAction::Decommit { addr, len } => {
                    self.set(addr, len, MEM_RESERVE);
                    AllocEvent::Done(true)
                }
                AllocAction::Reserve { addr, len } => {
                    assert_eq!(len % GRANULARITY, 0);
                    let at = if addr == 0 {
                        let mut at = self.base;
                        while self.query(at).state != MEM_FREE || self.query(at).size < len {
                            at += GRANULARITY;
                        }
                        at
                    } else {
                        addr
                    };
                    self.set(at, len, MEM_RESERVE);
                    AllocEvent::Placed(Some(at))
                }
                AllocAction::Commit { addr, len, prot } => {
                    assert_eq!(prot, prot_flags(permissions));
                    self.set(addr, len, MEM_COMMIT);
                    AllocEvent::Placed(Some(addr))
                }
                AllocAction::Prefetch { len, .. } => {
                    self.prefetched += len;
                    AllocEvent::Done(true)
                }
                AllocAction::Finish(result) => return result,
                AllocAction::Fatal(f) => panic!("{:?}", f),
            };
            assert!(a.is_answered_by(event));
            action = a.step(event);
        }
    }

    fn regions(&self, range: AddrRange) -> Vec<(AddrRange, u32)> {
        let mut regions = Vec::new();
        let mut at = range.start;
        while at < range.end {
            let r = self.query(at);
            let end = range.end.min(at + r.size);
            regions.push((AddrRange::new(at, end), r.state));
            at = end;
        }
        regions
    }
}

#[test]
fn test_page_provider() {
    let mut host = Host::new();
    let w = perms(false, true, false);
    let hint = FixedAddressBehavior::Hint;
    // Allocate some pages: it should reserve a whole unit but only commit 0x1000 bytes
    let addr = host
        .allocate_pages(AddrRange::new(0, 0x1000), w, hint)
        .unwrap();
    assert_eq!(
        host.regions(AddrRange::new(addr, addr + GRANULARITY)),
        vec![
            (AddrRange::new(addr, addr + 0x1000), MEM_COMMIT),
            (
                AddrRange::new(addr + 0x1000, addr + GRANULARITY),
                MEM_RESERVE
            ),
        ]
    );

    assert!(GRANULARITY >= 0x1_0000);
    // We should be able to allocate [addr + 0x8000, addr + 0x1_0000)
    let addr2 = host
        .allocate_pages(AddrRange::new(addr + 0x8000, addr + 0x1_0000), w, hint)
        .unwrap();
    // Even though the address is just a hint, we should still get it if it's free.
    assert_eq!(addr2, addr + 0x8000);
    assert_eq!(
        host.regions(AddrRange::new(addr, addr + 0x1_0000)),
        vec![
            (AddrRange::new(addr, addr + 0x1000), MEM_COMMIT),
            (AddrRange::new(addr + 0x1000, addr + 0x8000), MEM_RESERVE),
            (AddrRange::new(addr + 0x8000, addr + 0x1_0000), MEM_COMMIT),
        ]
    );

    // Try to allocate [addr + 0x4000, addr + 0x1_0000), which overlaps with existing committed pages.
    // A new region comes instead of the requested one
    let addr3 = host
        .allocate_pages(AddrRange::new(addr + 0x4000, addr + 0x1_0000), w, hint)
        .unwrap();
    assert_ne!(addr3, addr + 0x4000);
    assert_eq!(host.prefetched, 0x1000 + 0x8000 + 0xc000);
}

#[test]
fn committed_pages_are_replaced_only_on_request() {
    let mut host = Host::new();
    let w = perms(true, true, false);
    let addr = host
        .allocate_pages(AddrRange::new(0, 0x2000), w, FixedAddressBehavior::Hint)
        .unwrap();
    let range = AddrRange::new(addr, addr + 0x4000);
    assert_eq!(
        host.allocate_pages(range, w, FixedAddressBehavior::NoReplace),
        Err(AllocationError::AddressInUse)
    );
    assert_eq!(
        host.allocate_pages(range, w, FixedAddressBehavior::Replace),
        Ok(addr)
    );
    assert_eq!(host.regions(range), vec![(range, MEM_COMMIT)]);
    let free = AddrRange::new(addr + 0x2_3000, addr + 0x2_5000);
    assert_eq!(
        host.allocate_pages(free, w, FixedAddressBehavior::NoReplace),
        Ok(free.start)
    );
    assert_eq!(
        host.query(addr + 0x2_0000),
        Region {
            base: addr + 0x2_0000,
            size: 0x3000,
            state: MEM_RESERVE
        }
    );
}

#[test]
fn allocation_stops_where_the_host_fails() {
    let platform = WindowsUserland::new(Vec::new(), GRANULARITY as u32);
    let range = AddrRange::new(0x10_0000, 0x10_1000);
    let w = perms(true, true, false);
    let start = |behavior| Allocation::allocate_pages(&platform, range, w, true, behavior);
    let region = |state| {
        AllocEvent::Region(Some(Region {
            base: 0x10_0000,
            size: 0x1000,
            state,
        }))
    };
    let mut a = start(FixedAddressBehavior::Hint).allocation;
    assert_eq!(
        a.step(AllocEvent::Region(None)),
        AllocAction::Fatal(AllocFailure::Query)
    );
    let mut a = start(FixedAddressBehavior::Hint).allocation;
    a.step(region(MEM_FREE));
    assert_eq!(
        a.step(region(MEM_COMMIT)),
        AllocAction::Fatal(AllocFailure::Raced)
    );
    let mut a = start(FixedAddressBehavior::Hint).allocation;
    a.step(region(MEM_FREE));
    assert_eq!(
        a.step(region(5)),
        AllocAction::Fatal(AllocFailure::UnexpectedState)
    );
    let mut a = start(FixedAddressBehavior::Replace).allocation;
    a.step(region(MEM_COMMIT));
    assert!(matches!(
        a.step(region(MEM_COMMIT)),
        AllocAction::Decommit { .. }
    ));
    assert_eq!(
        a.step(AllocEvent::Done(false)),
        AllocAction::Fatal(AllocFailure::Decommit)
    );
    let mut a = start(FixedAddressBehavior::Hint).allocation;
    a.step(region(MEM_RESERVE));
    a.step(region(MEM_RESERVE));
    assert_eq!(
        a.step(AllocEvent::Placed(None)),
        AllocAction::Fatal(AllocFailure::Commit)
    );
    let mut a = start(FixedAddressBehavior::Hint).allocation;
    a.step(region(MEM_RESERVE));
    a.step(region(MEM_RESERVE));
    a.step(AllocEvent::Placed(Some(0x10_0000)));
    assert_eq!(
        a.step(AllocEvent::Done(false)),
        AllocAction::Fatal(AllocFailure::Prefetch)
    );
}

#[test]
fn walks_go_through_each_region() {
    let mut host = Host::new();
    host.set(0x10_0000, 0x2000, MEM_COMMIT);
    host.set(0x10_2000, 0x1000, MEM_RESERVE);
    let first = RegionWalk::deallocate_pages(AddrRange::new(0x10_1000, 0x10_3000));
    let mut walk = first.walk;
    let mut action = first.action;
    let mut freed = Vec::new();
    while action != WalkAction::Finish {
        let event = match action {
            WalkAction::Query { addr } => WalkEvent::Region(Some(host.query(addr))),
            WalkAction::Decommit { addr, len } => {
                freed.push((addr, len));
                WalkEvent::Done(true)
            }
            _ => panic!("unexpected"),
        };
        assert!(walk.is_answered_by(event));
        action = walk.step(event);
    }
    assert_eq!(freed, vec![(0x10_1000, 0x1000), (0x10_2000, 0x1000)]);
    let first = RegionWalk::update_permissions(
        AddrRange::new(0x10_2000, 0x10_3000),
        perms(true, false, false),
    );
    let mut walk = first.walk;
    assert_eq!(
        walk.step(WalkEvent::Region(Some(host.query(0x10_2000)))),
        WalkAction::Fatal(WalkFailure::State)
    );
    let first = RegionWalk::update_permissions(
        AddrRange::new(0x10_0000, 0x10_1000),
        perms(true, false, true),
    );
    let mut walk = first.walk;
    assert_eq!(
        walk.step(WalkEvent::Region(Some(host.query(0x10_0000)))),
        WalkAction::Protect {
            addr: 0x10_0000,
            len: 0x1000,
            prot: PAGE_EXECUTE_READ
        }
    );
    assert_eq!(
        walk.step(WalkEvent::Done(false)),
        WalkAction::Fatal(WalkFailure::Operation)
    );
    let empty = RegionWalk::deallocate_pages(AddrRange::new(4, 4));
    assert_eq!(empty.action, WalkAction::Finish);
}

#[test]
fn test_reserved_pages() {
    let mut reader = MapReader::read_memory_maps();
    let mut address = 0;
    for (size, state) in [
        (0x1_0000, MEM_FREE),
        (0x3000, MEM_COMMIT),
        (0xd000, MEM_RESERVE),
        (0x10_0000, MEM_FREE),
        (0x1000, MEM_COMMIT),
    ] {
        assert_eq!(reader.next, Some(address));
        let region = Some(Region {
            base: address,
            size,
            state,
        });
        assert!(reader.is_answered_by(region));
        reader.step(region);
        address += size;
    }
    reader.step(None);
    assert_eq!(reader.next, None);
    let platform = WindowsUserland::new(reader.reserved, GRANULARITY as u32);
    let reserved_pages = platform.reserved_pages();

    // Check that the reserved pages are not empty
    assert!(!reserved_pages.is_empty(), "No reserved pages found");
    assert_eq!(reserved_pages.len(), 3);

    // Check that the reserved pages are in order and non-overlapping
    let mut prev = 0;
    for page in reserved_pages {
        assert!(page.start >= prev);
        assert!(page.end > page.start);
        prev = page.end;
    }
}

#[test]
fn rounding_goes_by_the_unit_of_the_host() {
    let platform = WindowsUserland::new(Vec::new(), GRANULARITY as u32);
    assert_eq!(platform.round_up_to_granu(1), GRANULARITY);
    assert_eq!(platform.round_down_to_granu(0x1_ffff), GRANULARITY);
    let task = platform.init_task();
    assert_eq!((task.pid, task.ppid, task.uid, task.egid), (1000, 0, 1000, 1000));
}

#[test]
fn constants_are_those_of_the_host() {
    assert_eq!(
        (MEM_COMMIT, MEM_RESERVE, MEM_FREE),
        (M::MEM_COMMIT, M::MEM_RESERVE, M::MEM_FREE)
    );
    assert_eq!(prot_flags(perms(false, false, false)), M::PAGE_NOACCESS);
    assert_eq!(prot_flags(perms(true, false, false)), M::PAGE_READONLY);
    assert_eq!(prot_flags(perms(false, true, false)), M::PAGE_READWRITE);
    assert_eq!(prot_flags(perms(true, true, false)), M::PAGE_READWRITE);
    assert_eq!(prot_flags(perms(false, false, true)), M::PAGE_EXECUTE_READ);
    assert_eq!(prot_flags(perms(true, false, true)), M::PAGE_EXECUTE_READ);
    assert_eq!(prot_flags(perms(false, true, true)), M::PAGE_EXECUTE_READWRITE);
    assert_eq!(prot_flags(perms(true, true, true)), M::PAGE_EXECUTE_READWRITE);
    assert_eq!(PAGE_NOACCESS, M::PAGE_NOACCESS);
    assert_eq!(PAGE_READONLY, M::PAGE_READONLY);
    assert_eq!(PAGE_READWRITE, M::PAGE_READWRITE);
    assert_eq!(PAGE_EXECUTE_READWRITE, M::PAGE_EXECUTE_READWRITE);
    assert_eq!(EXCEPTION_ACCESS_VIOLATION, F::EXCEPTION_ACCESS_VIOLATION);
    assert_eq!(
        EXCEPTION_ILLEGAL_INSTRUCTION,
        F::EXCEPTION_ILLEGAL_INSTRUCTION
    );
    assert_eq!(EXCEPTION_BREAKPOINT, F::EXCEPTION_BREAKPOINT);
    assert_eq!(
        EXCEPTION_INT_DIVIDE_BY_ZERO,
        F::EXCEPTION_INT_DIVIDE_BY_ZERO
    );
    assert_eq!(ERROR_TIMEOUT, F::ERROR_TIMEOUT);
    assert_eq!(INFINITE, windows_sys::Win32::System::Threading::INFINITE);
    assert_eq!(
        CTRL_C_EVENT,
        windows_sys::Win32::System::Console::CTRL_C_EVENT
    );
}

fn host_context() -> HostContext {
    HostContext {
        r15: 15,
        r14: 14,
        r13: 13,
        r12: 12,
        rbp: 5,
        rbx: 3,
        r11: 11,
        r10: 10,
        r9: 9,
        r8: 8,
        rax: 1,
        rcx: 2,
        rdx: 4,
        rsi: 6,
        rdi: 7,
        rip: 0x1000,
        rsp: 0x2000,
        eflags: 0x202,
    }
}

fn zero_regs() -> PtRegs {
    PtRegs {
        r15: 0,
        r14: 0,
        r13: 0,
        r12: 0,
        rbp: 0,
        rbx: 0,
        r11: 0,
        r10: 0,
        r9: 0,
        r8: 0,
        rax: 0,
        rcx: 0,
        rdx: 0,
        rsi: 0,
        rdi: 0,
        orig_rax: 0,
        rip: 0,
        cs: 0x33,
        eflags: 0,
        rsp: 0,
        ss: 0x2b,
    }
}

#[test]
fn registers_survive_a_stop() {
    let mut regs = zero_regs();
    let format = save_guest_context(&mut regs, &host_context());
    assert_eq!(format, GuestXstateFormat::Windows);
    assert_eq!((regs.rax, regs.orig_rax), (1, 1));
    assert_eq!((regs.cs, regs.ss), (0x33, 0x2b));
    assert_eq!((regs.rip, regs.rsp, regs.eflags), (0x1000, 0x2000, 0x202));
    assert_eq!(continue_context(&regs), host_context());
}

#[test]
fn the_quick_way_needs_rcx_to_hold_the_address() {
    let mut regs = zero_regs();
    regs.rip = 0x1000;
    regs.rcx = 0x1000;
    let mut tls = TlsState::new();
    let entry = switch_to_guest(&mut tls, &regs);
    assert_eq!(entry.path, ResumePath::LoadRegisters);
    assert_eq!(entry.context, None);
    assert!(entry.enters && !entry.restores_vectors);
    assert!(tls.is_in_guest);
    assert_eq!(tls.guest_xstate_format, GuestXstateFormat::Native);
    // Vector registers that the host has are loaded by it.
    tls.is_in_guest = false;
    tls.guest_xstate_format = GuestXstateFormat::Windows;
    let entry = switch_to_guest(&mut tls, &regs);
    assert_eq!(entry.path, ResumePath::Continue);
    assert_eq!(entry.context, Some(continue_context(&regs)));
    assert!(!entry.restores_vectors);
    // All others are put to those of the host.
    let mut tls = TlsState::new();
    regs.rcx = 0;
    tls.interrupt = true;
    let entry = switch_to_guest(&mut tls, &regs);
    assert_eq!(entry.path, ResumePath::Continue);
    assert!(entry.restores_vectors);
    assert!(!entry.enters);
    assert!(tls.is_in_guest && tls.interrupt);
    assert_eq!(tls.guest_xstate_format, GuestXstateFormat::Windows);
}

#[test]
fn exceptions_of_the_host_stand_for_those_of_the_processor() {
    let info = exception_handler(EXCEPTION_ACCESS_VIOLATION, 0, 0x77).unwrap();
    assert_eq!(
        (info.exception, info.error_code, info.cr2),
        (PAGE_FAULT, 4, 0x77)
    );
    let info = exception_handler(EXCEPTION_ACCESS_VIOLATION, 1, 0x77).unwrap();
    assert_eq!(info.error_code, 6);
    let info = exception_handler(EXCEPTION_ACCESS_VIOLATION, 0, usize::MAX).unwrap();
    assert_eq!(
        (info.exception, info.cr2),
        (GENERAL_PROTECTION_FAULT, 0)
    );
    for (code, vector) in [
        (EXCEPTION_ILLEGAL_INSTRUCTION, INVALID_OPCODE),
        (EXCEPTION_BREAKPOINT, BREAKPOINT),
        (EXCEPTION_INT_DIVIDE_BY_ZERO, DIVIDE_ERROR),
    ] {
        assert_eq!(exception_handler(code, 0, 0).unwrap().exception, vector);
    }
    assert!(exception_handler(7, 0, 0).is_none());
}

#[test]
fn exceptions_outside_the_guest_are_not_its_own() {
    let mut e = HostException {
        code: EXCEPTION_ACCESS_VIOLATION,
        ip: 0x55,
        managed: false,
        in_guest: false,
        host_sp: 0,
        host_top: 0,
        host_bp: 0,
        fs_base: 0,
        wanted_fs_base: 0,
    };
    assert_eq!(
        e.vectored_exception_handler(),
        VectoredAction::ContinueSearch
    );
    e.managed = true;
    assert_eq!(
        e.vectored_exception_handler(),
        VectoredAction::FindFixup { ip: 0x55 }
    );
    assert_eq!(
        HostException::after_fixup(Some(9)),
        VectoredAction::JumpTo { ip: 9 }
    );
    assert_eq!(
        HostException::after_fixup(None),
        VectoredAction::ContinueSearch
    );
    e.in_guest = true;
    e.host_sp = 0x1_0000;
    e.host_top = 0x77;
    e.host_bp = 0x1_0040;
    assert_eq!(
        e.vectored_exception_handler(),
        VectoredAction::HandleException {
            rsp: 0x1_0000 - 160,
            rbp: 0x1_0040,
            rcx: 0x77,
            rdx: 0x1_0000 - 152,
        }
    );
    assert!(!e.in_guest);
    e.in_guest = true;
    e.wanted_fs_base = 1;
    assert_eq!(e.vectored_exception_handler(), VectoredAction::Interrupt);
}

/// Interrupts a thread that is in its guest or not, at some place. Returns the
/// actions.
fn run_interruption(in_guest: bool, place: Option<GuestPlace>, saved: bool) -> Vec<InterruptAction> {
    let first = Interruption::interrupt(false, true);
    let mut interruption = first.interruption;
    let mut actions = vec![first.action];
    loop {
        let event = match actions[actions.len() - 1] {
            InterruptAction::Suspend => InterruptEvent::Suspended { in_guest },
            InterruptAction::Capture => InterruptEvent::Captured(place),
            InterruptAction::Save => InterruptEvent::Saved(saved),
            InterruptAction::Finish | InterruptAction::Fatal(_) => {
                assert!(interruption.noted && !interruption.suspended);
                return actions;
            }
            _ => InterruptEvent::Done,
        };
        assert!(interruption.is_answered_by(event));
        actions.push(interruption.step(event));
    }
}

#[test]
fn interrupts_find_the_thread_where_it_is() {
    let start = [InterruptAction::Suspend, InterruptAction::Note];
    let end = [InterruptAction::Resume, InterruptAction::Finish];
    let run = |in_guest, place, middle: &[InterruptAction]| {
        let actions = run_interruption(in_guest, place, true);
        assert_eq!(actions, [&start[..], middle, &end[..]].concat());
    };
    run(false, None, &[]);
    run(
        true,
        Some(GuestPlace::Entering),
        &[InterruptAction::Capture, InterruptAction::Redirect],
    );
    run(
        true,
        Some(GuestPlace::Host),
        &[
            InterruptAction::Capture,
            InterruptAction::RedirectContinuation,
        ],
    );
    run(
        true,
        Some(GuestPlace::Guest),
        &[
            InterruptAction::Capture,
            InterruptAction::Save,
            InterruptAction::Redirect,
        ],
    );
    assert_eq!(
        run_interruption(true, None, true).last(),
        Some(&InterruptAction::Fatal(InterruptFailure::Capture))
    );
    assert_eq!(
        run_interruption(true, Some(GuestPlace::Guest), false).last(),
        Some(&InterruptAction::Fatal(InterruptFailure::Copy))
    );
    let mut own = Interruption::interrupt(true, false);
    assert_eq!(own.action, InterruptAction::NoteSelf);
    assert_eq!(
        own.interruption.step(InterruptEvent::Done),
        InterruptAction::Finish
    );
    assert_eq!(
        Interruption::interrupt(false, false).action,
        InterruptAction::Finish
    );
    assert_eq!(interrupt_handler(true), None);
    assert_eq!(interrupt_handler(false), Some(ContinueOperation::Resume));
}

#[test]
fn places_are_told_by_the_instruction() {
    let switch = AddrRange::new(0x100, 0x200);
    let modules = [AddrRange::new(0x0, 0x2000), AddrRange::new(0x5000, 0x6000)];
    assert_eq!(place_of(0x100, switch, &modules), GuestPlace::Entering);
    assert_eq!(place_of(0x200, switch, &modules), GuestPlace::Host);
    assert_eq!(place_of(0x5fff, switch, &modules), GuestPlace::Host);
    assert_eq!(place_of(0x6000, switch, &modules), GuestPlace::Guest);
    assert!(is_in_ntdll_or_this(0x5000, &modules));
    assert!(!is_in_ntdll_or_this(0x2000, &modules));
}

fn layout() -> XsaveLayout {
    let avx = ComponentPlace {
        offset: 576,
        size: 256,
    };
    XsaveLayout::get(0x0d, 0x0c00_0000, 7, 832, &[avx]).unwrap()
}

#[test]
fn layouts_need_what_windows_needs() {
    let get = |leaf, ecx, mask, size| XsaveLayout::get(leaf, ecx, mask, size, &[]).unwrap_err();
    assert_eq!(get(0x0c, 0x0c00_0000, 3, 576), XsaveFault::NoLayout);
    assert_eq!(get(0x0d, 0x0400_0000, 3, 576), XsaveFault::NotEnabled);
    assert_eq!(get(0x0d, 0x0c00_0000, 1, 576), XsaveFault::NoBasicState);
    assert_eq!(get(0x0d, 0x0c00_0000, 3, 575), XsaveFault::TooSmall);
    let outside = ComponentPlace {
        offset: 576,
        size: 1,
    };
    assert_eq!(
        XsaveLayout::get(0x0d, 0x0c00_0000, 7, 576, &[outside]).unwrap_err(),
        XsaveFault::ComponentOutside
    );
    assert_eq!(enabled_components(0b1110_0111), vec![2, 5, 6, 7]);
    assert_eq!(enabled_components(3), Vec::<u32>::new());
    assert_eq!(
        layout().components,
        vec![XsaveComponent {
            id: 2,
            offset: 576,
            size: 256
        }]
    );
}

#[test]
fn fresh_guests_have_initial_controls() {
    let area = XsaveArea::initial_guest(&layout());
    assert_eq!(area.as_bytes().len(), 832);
    assert_eq!(area.xstate_bv(), 0);
    let state = area.legacy_state_for_context();
    assert_eq!(
        u16::from_le_bytes([state[0], state[1]]),
        GUEST_INITIAL_X87_CONTROL_WORD
    );
    assert_eq!(
        u32::from_le_bytes([state[24], state[25], state[26], state[27]]),
        GUEST_INITIAL_MXCSR
    );
    assert!(state[32..].iter().all(|b| *b == 0));
}

#[test]
fn only_saved_state_is_restored() {
    let mut area = XsaveArea::initial_guest(&layout());
    for i in 0..512 {
        area.storage[i] = 0xaa;
    }
    area.storage[512] = 2;
    let state = area.legacy_state_for_context();
    assert_eq!(&state[..2], &[0x7f, 0x03]);
    assert!(state[2..24].iter().all(|b| *b == 0));
    assert!(state[24..32].iter().all(|b| *b == 0xaa));
    assert!(state[32..160].iter().all(|b| *b == 0));
    assert!(state[160..416].iter().all(|b| *b == 0xaa));
    assert!(state[416..].iter().all(|b| *b == 0));
    area.storage[512] = 1;
    let state = area.legacy_state_for_context();
    assert_eq!(&state[..6], &[0xaa, 0xaa, 0xaa, 0xaa, 0xaa, 0]);
    assert!(state[160..416].iter().all(|b| *b == 0));
    area.storage[512] = 0xf;
    let restoration = area.restore_to_context(&layout(), true);
    assert_eq!(restoration.legacy_state, area.legacy_state_for_context());
    assert_eq!(restoration.mxcsr, 0xaaaa_aaaa);
    let extended = restoration.extended.unwrap();
    assert_eq!((extended.components.len(), extended.mask), (1, 7));
    assert!(area.restore_to_context(&layout(), false).extended.is_none());
    area.storage[512] = 3;
    let extended = area.restore_to_context(&layout(), true).extended.unwrap();
    assert_eq!((extended.components.len(), extended.mask), (0, 3));
}

#[test]
fn contexts_come_in_whole_units() {
    assert_eq!(context_chunks(0), 0);
    assert_eq!(context_chunks(64), 1);
    assert_eq!(context_chunks(65), 2);
    assert!(has_host_controls(0x027f, 0x1f80));
    assert!(has_host_controls(0x027f, 0x1f9f));
    assert!(!has_host_controls(0x037f, 0x1f80));
    assert!(!has_host_controls(0x027f, 0x3f80));
}

#[test]
fn time_is_counted_in_ticks() {
    let early = Instant { ticks: 5 };
    let late = early.checked_add(1099).unwrap();
    assert_eq!(late.ticks, 15);
    assert_eq!(late.checked_duration_since(&early), Some(1000));
    assert_eq!(early.checked_duration_since(&late), None);
    assert_eq!(early.checked_add(u128::MAX), None);
    assert_eq!(Instant { ticks: u64::MAX }.checked_add(100), None);
    let epoch = SystemTime::unix_epoch();
    assert_eq!(epoch.filetime, 11_644_473_600 * 10_000_000);
    let later = SystemTime::from_parts(epoch.filetime as u32, (epoch.filetime >> 32) as u32);
    assert_eq!(later, epoch);
    let later = SystemTime {
        filetime: epoch.filetime + 10_000_003,
    };
    let span = later.duration_since(&epoch).unwrap();
    assert_eq!((span.secs, span.nanos), (1, 300));
    let span = epoch.duration_since(&later).unwrap_err();
    assert_eq!((span.secs, span.nanos), (1, 300));
}

#[test]
fn timers_count_backwards() {
    assert_eq!(set_timer(0), None);
    let due = set_timer(1_000_000).unwrap();
    assert_eq!((due.low, due.high), (0xffff_d8f0, 0xffff_ffff));
    let due = set_timer(50).unwrap();
    assert_eq!((due.low, due.high), (0, 0));
    let due = set_timer(u128::MAX).unwrap();
    assert_eq!((due.low, due.high), (1, 0x8000_0000));
}

#[test]
fn waits_end_as_the_host_says() {
    assert_eq!(RawMutex::new().value, 0);
    assert_eq!(RawMutex::wake_many(1), WakePlan::Each(1));
    assert_eq!(RawMutex::wake_many(10), WakePlan::Each(10));
    assert_eq!(RawMutex::wake_many(i32::MAX as usize), WakePlan::All);
    assert_eq!(RawMutex::wake_many(1).reported(), 0);
    assert_eq!(RawMutex::timeout_ms(None), INFINITE);
    assert_eq!(RawMutex::timeout_ms(Some(7)), 7);
    assert_eq!(RawMutex::timeout_ms(Some(u128::MAX)), INFINITE - 1);
    assert_eq!(
        RawMutex::wait_outcome(true, 0),
        Some(UnblockedOrTimedOut::Unblocked)
    );
    assert_eq!(
        RawMutex::wait_outcome(false, ERROR_TIMEOUT),
        Some(UnblockedOrTimedOut::TimedOut)
    );
    assert_eq!(RawMutex::wait_outcome(false, 5), None);
}

#[test]
fn delivered_signals_are_taken_once() {
    let mut tls = TlsState::new();
    assert!(!tls.deliver_signal(SIGINT).wakes);
    assert!(!tls.update_waker(true));
    assert!(tls.deliver_signal(15).wakes);
    assert!(tls.update_waker(false));
    assert!(!tls.deliver_signal(SIGINT).wakes);
    assert_eq!(
        tls.pending_host_signals,
        signal_bit(SIGINT) | signal_bit(15)
    );
    assert_eq!(
        take_pending_signals(&mut tls.pending_host_signals),
        vec![2, 15]
    );
    assert_eq!(
        take_pending_signals(&mut tls.pending_host_signals),
        Vec::<i32>::new()
    );
    let delivered = tls.deliver_signal(SIGINT);
    assert_eq!(delivered.interrupts, Interruption::interrupt(false, true));
    tls.interrupt = true;
    assert!(tls.call_shim());
    assert!(!tls.call_shim());
}

#[test]
fn every_thread_hears_the_keyboard() {
    let mut threads = ActiveThreads::new();
    let reply = ctrl_c_handler(CTRL_C_EVENT, &threads);
    assert!(reply.handled && reply.deliveries.is_empty());
    assert_eq!(threadpool_timer_callback(&threads, 14), None);
    threads.register(7);
    threads.register(8);
    let to = |thread, signal| Delivery { thread, signal };
    let reply = ctrl_c_handler(CTRL_C_EVENT, &threads);
    assert!(reply.handled);
    assert_eq!(reply.deliveries, vec![to(7, SIGINT), to(8, SIGINT)]);
    let reply = ctrl_c_handler(1, &threads);
    assert!(!reply.handled && reply.deliveries.is_empty());
    assert_eq!(threadpool_timer_callback(&threads, 14), Some(to(7, 14)));
}

#[test]
fn threads_are_known_while_they_run() {
    let mut threads = ActiveThreads::new();
    assert_eq!(threads.first(), None);
    threads.register(7);
    threads.register(8);
    assert_eq!(threads.first(), Some(7));
    threads.unregister(7);
    assert_eq!(threads.first(), Some(8));
    threads.unregister(8);
    assert_eq!(threads.first(), None);
    assert!(ensure_tls_index(63));
    assert!(!ensure_tls_index(64));
    assert_eq!(get_tls_ptr(u32::MAX, 5), None);
    assert_eq!(get_tls_ptr(3, 0), None);
    assert_eq!(get_tls_ptr(3, 5), Some(5));
}

#[test]
fn segment_bases_are_registers() {
    let mut base = ThreadFsBase { base: 0 };
    let fs = ArchSpecificRegister::FsBase;
    assert_eq!(base.set_arch_specific_register(fs, 9, true), None);
    assert_eq!(base.get_arch_specific_register(fs), Ok(9));
    assert_eq!(
        base.set_arch_specific_register(fs, 10, false),
        Some(ArchSpecificError::RegisterUnpermittedValue)
    );
    let gs = ArchSpecificRegister::GsBase;
    assert_eq!(
        base.set_arch_specific_register(gs, 10, true),
        Some(ArchSpecificError::RegisterReserved)
    );
    assert_eq!(
        base.get_arch_specific_register(gs),
        Err(ArchSpecificError::RegisterReserved)
    );
    assert_eq!(
        base.get_arch_specific_register(ArchSpecificRegister::TpidrEl0),
        Err(ArchSpecificError::RegisterUnsupported)
    );
}

#[test]
fn allocations_leave_room_for_alignment() {
    assert_eq!(alloc_size(1, 8), 0x2000);
    assert_eq!(alloc_size(0x2001, 8), 0x4000);
    assert_eq!(alloc_size(0x100, 0x8000), 0x1_0000);
    assert_eq!(alloc_size(0, 1), 0x2000);
}

#[test]
fn random_bytes_fill_the_buffer() {
    let mut buf = [0u8; 64];
    assert!(fill_bytes_crng(&mut buf));
    assert!(buf.iter().any(|b| *b != 0));
    assert!(fill_bytes_crng(&mut []));
}
