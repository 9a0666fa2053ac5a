//! The macOS platform, on a host whose memory is simulated.

use std::collections::BTreeMap;

use litebox::flags::MemoryRegionPermissions;
use litebox::macos::allocate::{AllocAction, AllocEvent, Allocation};
use litebox::macos::context::{
    copy_signal_context, fatal_address, fatal_exit_code, restore_signal_context, GuestVectorState,
    MachineContext, PtRegs, NO_SYSCALL, PSR_DIT_BIT, PSR_NZCV_MASK, PSR_SSBS_BIT, SAFE_USER_PSTATE,
};
use litebox::macos::install::{
    with_signal_alt_stack, InstallAction, InstallEvent, InstallFault, Installer,
};
use litebox::macos::memory::{
    DeallocAction, Deallocation, MacosUserland, Update, UpdateAction, UpdateEvent,
};
use litebox::macos::pages::{
    allocation_error, is_page_aligned, permission_update_error, prot_flags, wx, PageSet, EACCES,
    EBUSY, EEXIST, ENOMEM, ENOTSUP, EPERM, PAGE_SIZE, PROT_EXEC, PROT_READ, PROT_WRITE,
    TASK_ADDR_MAX, TASK_ADDR_MIN,
};
use litebox::macos::remap::{Remap, RemapAction, RemapEvent};
use litebox::macos::signals::{
    exception_class, gate_interruption, host_signals, is_application_signal,
    is_synchronous_memory_fault, next_signal_handler, Disposition, Forwarding, GateInterruption,
    GateResult, GuestExit, HostSignal, SignalAction, SignalEvent, SignalFailure, SignalHandler,
    BRK64, DATA_ABORT_LOWER_EL, INSTRUCTION_ABORT_LOWER_EL, SIGBUS, SIGILL, SIGSEGV, SIGTRAP,
};
use litebox::macos::sync::{Instant, RawMutex, SystemTime};
use litebox::macos::thread::{GuestRun, RunAction, RunFailure, ThreadHandle};
use litebox::macos::tls::{
    GuestTlsKeys, KeyAction, KeyCreator, KeyEvent, NestedEntry, SlotAction, SlotCheck, SlotEvent,
    SlotFault, TlsBlock, SIGUSR1, SIGUSR2, TLS_SLOT_COUNT,
};
use litebox::mm::ranges::AddrRange;
use litebox::page_mgmt::{
    AllocationError, DeallocationError, FixedAddressBehavior, PermissionUpdateError, RemapError,
};
use litebox::platform::{
    ArchSpecificError, ArchSpecificRegister, ImmediatelyWokenUp, UnblockedOrTimedOut, WakePlan,
};
use litebox::shim::entry::EntryReason;

const MIN: usize = TASK_ADDR_MIN as usize;

fn perms(read: bool, write: bool, execute: bool) -> MemoryRegionPermissions {
    MemoryRegionPermissions {
        read,
        write,
        execute,
        shared: false,
    }
}

fn rw() -> MemoryRegionPermissions {
    perms(true, true, false)
}

fn pages(start: usize, n: usize) -> AddrRange {
    AddrRange::new(start, start + n * PAGE_SIZE)
}

struct HostPage {
    prot: i32,
    first: u8,
    /// The most that the page may be given.
    max: i32,
}

/// A host with its memory, by page.
struct Host {
    memory: BTreeMap<usize, HostPage>,
    platform: MacosUserland,
    invalidated: Vec<(usize, usize)>,
    protections: Vec<i32>,
}

impl Host {
    fn new() -> Self {
        Host {
            memory: BTreeMap::new(),
            platform: MacosUserland::new(PAGE_SIZE as i64).unwrap(),
            invalidated: Vec::new(),
            protections: Vec::new(),
        }
    }

    fn map(&mut self, start: usize, len: usize, prot: i32) {
        for page in (start..start + len).step_by(PAGE_SIZE) {
            self.memory.insert(
                page,
                HostPage {
                    prot,
                    first: 0,
                    max: 7,
                },
            );
        }
    }

    fn unmap(&mut self, start: usize, len: usize) {
        for page in (start..start + len).step_by(PAGE_SIZE) {
            self.memory.remove(&page);
        }
    }

    fn is_free(&self, start: usize, len: usize) -> bool {
        (start..start + len)
            .step_by(PAGE_SIZE)
            .all(|p| !self.memory.contains_key(&p))
    }

    fn find(&self, hint: usize, len: usize) -> usize {
        let mut at = if hint == 0 { 0x2_0000_0000 } else { hint };
        while !self.is_free(at, len) {
            at += PAGE_SIZE;
        }
        at
    }

    fn allocate_pages(
        &mut self,
        range: AddrRange,
        permissions: MemoryRegionPermissions,
        behavior: FixedAddressBehavior,
    ) -> Result<usize, AllocationError> {
        let (mut a, mut action) =
            Allocation::start(range, permissions, behavior, &self.platform.pages);
        loop {
            let event = match action {
                AllocAction::MapHint { hint, len, prot } => {
                    let at = self.find(hint, len);
                    self.map(at, len, prot);
                    AllocEvent::Mapped(Ok(at))
                }
                AllocAction::Unmap { addr, len } => {
                    self.unmap(addr, len);
                    AllocEvent::Unmapped
                }
                AllocAction::Reserve { page } => {
                    if self.is_free(page, PAGE_SIZE) {
                        self.map(page, PAGE_SIZE, 0);
                        AllocEvent::Reserved(0)
                    } else {
                        AllocEvent::Reserved(3)
                    }
                }
                AllocAction::MapFixed { start, len, prot } => {
                    self.map(start, len, prot);
                    AllocEvent::Mapped(Ok(start))
                }
                AllocAction::Finish(result) => return result,
            };
            assert!(a.is_answered_by(event));
            action = a.step(event, &mut self.platform.pages);
        }
    }

    fn deallocate_pages(&mut self, range: AddrRange) -> Result<(), DeallocationError> {
        let (mut d, mut action) = Deallocation::start(range, &self.platform.pages);
        loop {
            match action {
                DeallocAction::Unmap { page } => {
                    self.unmap(page, PAGE_SIZE);
                    action = d.step(true, &mut self.platform.pages);
                }
                DeallocAction::Finish(None) => return Ok(()),
                DeallocAction::Finish(Some(e)) => return Err(e),
            }
        }
    }

    fn update_permissions(
        &mut self,
        range: AddrRange,
        permissions: MemoryRegionPermissions,
    ) -> Result<(), PermissionUpdateError> {
        let first = Update::start(range, permissions, &self.platform.pages);
        let mut u = first.update;
        let mut action = first.action;
        loop {
            let event = match action {
                UpdateAction::Protect { start, len, prot } => {
                    self.protections.push(prot);
                    let mut error = None;
                    for page in (start..start + len).step_by(PAGE_SIZE) {
                        let p = self.memory.get_mut(&page).unwrap();
                        if prot & !p.max != 0 {
                            error = Some(EACCES);
                        } else {
                            p.prot = prot;
                        }
                    }
                    UpdateEvent::Protected(error)
                }
                UpdateAction::Invalidate { start, len } => {
                    for page in (start..start + len).step_by(PAGE_SIZE) {
                        assert!(self.memory[&page].prot & PROT_READ != 0);
                    }
                    self.invalidated.push((start, len));
                    UpdateEvent::Invalidated
                }
                UpdateAction::Finish(None) => return Ok(()),
                UpdateAction::Finish(Some(e)) => return Err(e),
            };
            assert!(u.is_answered_by(event));
            action = u.step(event);
        }
    }

    fn remap_pages(
        &mut self,
        old: AddrRange,
        new: AddrRange,
        permissions: MemoryRegionPermissions,
    ) -> Result<usize, RemapError> {
        let first = Remap::start(old, new, permissions, &self.platform.pages);
        let mut r = first.remap;
        let mut action = first.action;
        loop {
            let event = match action {
                RemapAction::Allocate {
                    range,
                    permissions,
                    behavior,
                } => RemapEvent::Allocated(self.allocate_pages(range, permissions, behavior)),
                RemapAction::Update { range, permissions } => {
                    RemapEvent::Updated(self.update_permissions(range, permissions).err())
                }
                RemapAction::CopyBytes { from, to, len } => {
                    for offset in (0..len).step_by(PAGE_SIZE) {
                        let source = &self.memory[&(from + offset)];
                        assert!(source.prot & PROT_READ != 0);
                        let byte = source.first;
                        let target = self.memory.get_mut(&(to + offset)).unwrap();
                        assert!(target.prot & PROT_WRITE != 0);
                        target.first = byte;
                    }
                    RemapEvent::Copied
                }
                RemapAction::Deallocate { range } => {
                    RemapEvent::Deallocated(self.deallocate_pages(range).is_ok())
                }
                RemapAction::Finish(result) => return result,
            };
            assert!(r.is_answered_by(event));
            action = r.step(event);
        }
    }

    fn read(&self, page: usize) -> Option<u8> {
        self.memory
            .get(&page)
            .filter(|p| p.prot & PROT_READ != 0)
            .map(|p| p.first)
    }

    fn write(&mut self, page: usize, value: u8) -> Option<()> {
        let p = self.memory.get_mut(&page)?;
        if p.prot & PROT_WRITE == 0 {
            return None;
        }
        p.first = value;
        Some(())
    }
}

#[test]
fn native_pages_preserve_neighbors_and_reject_collisions() {
    let mut p = Host::new();
    let base = p
        .allocate_pages(pages(MIN, 2), rw(), FixedAddressBehavior::Hint)
        .unwrap();
    assert_eq!(base % PAGE_SIZE, 0);
    assert_eq!(p.read(base), Some(0));
    assert_eq!(p.write(base + PAGE_SIZE, 0x5a), Some(()));
    assert!(matches!(
        p.allocate_pages(pages(base, 1), rw(), FixedAddressBehavior::NoReplace),
        Err(AllocationError::AddressInUse)
    ));
    p.allocate_pages(pages(base, 1), rw(), FixedAddressBehavior::Replace)
        .unwrap();
    assert_eq!(p.read(base + PAGE_SIZE), Some(0x5a));
    p.update_permissions(pages(base, 1), perms(true, false, false))
        .unwrap();
    assert_eq!(p.write(base, 1), None);
    assert_eq!(p.write(base + PAGE_SIZE, 0x6b), Some(()));
    p.deallocate_pages(pages(base, 1)).unwrap();
    assert_eq!(p.read(base), None);
    assert_eq!(p.read(base + PAGE_SIZE), Some(0x6b));
    p.deallocate_pages(pages(base + PAGE_SIZE, 1)).unwrap();
}

#[test]
fn fixed_mappings_never_replace_host_memory() {
    let mut p = Host::new();
    let host = 0x3_0000_0000;
    p.map(host, PAGE_SIZE, PROT_READ | PROT_WRITE);
    p.write(host, 0x42).unwrap();
    for behavior in [
        FixedAddressBehavior::NoReplace,
        FixedAddressBehavior::Replace,
    ] {
        assert!(matches!(
            p.allocate_pages(pages(host, 1), rw(), behavior),
            Err(AllocationError::AddressInUseByPlatform)
        ));
    }
    p.deallocate_pages(pages(host, 1)).unwrap();
    assert_eq!(p.read(host), Some(0x42));
}

#[test]
fn a_failed_reservation_is_rolled_back() {
    let mut p = Host::new();
    let start = 0x3_0000_0000;
    p.map(start + 2 * PAGE_SIZE, PAGE_SIZE, PROT_READ);
    assert_eq!(
        p.allocate_pages(pages(start, 4), rw(), FixedAddressBehavior::NoReplace),
        Err(AllocationError::AddressInUseByPlatform)
    );
    assert!(p.is_free(start, 2 * PAGE_SIZE));
    assert!(!p.is_free(start + 2 * PAGE_SIZE, PAGE_SIZE));
    assert!(p.is_free(start + 3 * PAGE_SIZE, PAGE_SIZE));
}

#[test]
fn permission_denials_are_not_reported_as_missing_pages() {
    let mut p = Host::new();
    let start = p
        .allocate_pages(pages(MIN, 1), rw(), FixedAddressBehavior::Hint)
        .unwrap();
    let range = pages(start, 1);
    assert!(matches!(
        p.allocate_pages(range, perms(true, true, true), FixedAddressBehavior::Replace),
        Err(AllocationError::PermissionDenied)
    ));
    assert!(matches!(
        p.update_permissions(range, perms(true, true, true)),
        Err(PermissionUpdateError::PermissionDenied)
    ));
    p.memory.get_mut(&start).unwrap().max = PROT_READ;
    assert!(matches!(
        p.update_permissions(range, rw()),
        Err(PermissionUpdateError::PermissionDenied)
    ));
}

#[test]
fn executable_protection_after_prot_none() {
    let mut p = Host::new();
    let start = p
        .allocate_pages(pages(MIN, 1), rw(), FixedAddressBehavior::Hint)
        .unwrap();
    let range = pages(start, 1);
    assert_eq!(p.write(start, 42), Some(()));
    for permissions in [perms(true, false, true), perms(false, false, true)] {
        p.update_permissions(range, perms(false, false, false))
            .unwrap();
        p.protections.clear();
        p.update_permissions(range, permissions).unwrap();
        assert_eq!(p.protections, vec![PROT_READ, prot_flags(permissions)]);
        assert_eq!(p.memory[&start].first, 42);
        assert!(p.memory[&start].prot & PROT_EXEC != 0);
    }
    assert_eq!(p.invalidated.len(), 2);
}

#[test]
fn executable_remap_preserves_code_without_wx() {
    let mut p = Host::new();
    let rx = perms(true, false, true);
    let source = p
        .allocate_pages(pages(MIN, 1), rw(), FixedAddressBehavior::Hint)
        .unwrap();
    assert_eq!(p.write(source, 42), Some(()));
    p.update_permissions(pages(source, 1), rx).unwrap();
    let target = p
        .allocate_pages(pages(MIN, 2), rw(), FixedAddressBehavior::Hint)
        .unwrap();
    p.deallocate_pages(pages(target, 2)).unwrap();
    p.map(target, 2 * PAGE_SIZE, 0);
    p.protections.clear();
    let remapped = p
        .remap_pages(pages(source, 1), pages(target, 2), rx)
        .unwrap();
    assert_ne!(remapped, target);
    assert_eq!(p.memory[&remapped].first, 42);
    assert_eq!(p.memory[&remapped].prot, PROT_READ | PROT_EXEC);
    assert!(p
        .protections
        .iter()
        .all(|prot| prot & (PROT_WRITE | PROT_EXEC) != PROT_WRITE | PROT_EXEC));
    assert!(p.is_free(source, PAGE_SIZE));
    p.deallocate_pages(pages(remapped, 2)).unwrap();
}

#[test]
fn moves_are_refused_for_what_is_wrong_with_them() {
    let mut p = Host::new();
    let start = p
        .allocate_pages(pages(MIN, 2), rw(), FixedAddressBehavior::Hint)
        .unwrap();
    let far = 0x5_0000_0000;
    let odd = AddrRange::new(start, start + 1);
    assert_eq!(
        p.remap_pages(odd, pages(far, 3), rw()),
        Err(RemapError::Unaligned)
    );
    assert_eq!(
        p.remap_pages(pages(start, 2), pages(start + PAGE_SIZE, 3), rw()),
        Err(RemapError::Overlapping)
    );
    assert_eq!(
        p.remap_pages(pages(start, 2), pages(far, 2), rw()),
        Err(RemapError::OutOfMemory)
    );
    assert_eq!(
        p.remap_pages(pages(far, 1), pages(start, 2), rw()),
        Err(RemapError::AlreadyUnallocated)
    );
}

#[test]
fn a_move_that_cannot_read_gives_the_new_pages_back() {
    let mut p = Host::new();
    let none = perms(false, false, false);
    let start = p
        .allocate_pages(pages(MIN, 1), none, FixedAddressBehavior::Hint)
        .unwrap();
    p.memory.get_mut(&start).unwrap().max = 0;
    let far = 0x5_0000_0000;
    assert_eq!(
        p.remap_pages(pages(start, 1), pages(far, 2), none),
        Err(RemapError::PermissionDenied)
    );
    assert!(p.is_free(far, 2 * PAGE_SIZE));
    assert!(!p.is_free(start, PAGE_SIZE));
}

#[test]
fn requests_outside_the_task_are_refused() {
    let mut p = Host::new();
    let hint = FixedAddressBehavior::Hint;
    assert_eq!(
        p.allocate_pages(AddrRange::new(MIN + 1, MIN + PAGE_SIZE), rw(), hint),
        Err(AllocationError::Unaligned)
    );
    assert_eq!(
        p.allocate_pages(pages(MIN - PAGE_SIZE, 1), rw(), hint),
        Err(AllocationError::BelowMinAddress)
    );
    assert_eq!(
        p.allocate_pages(pages(TASK_ADDR_MAX as usize, 1), rw(), hint),
        Err(AllocationError::AboveMaxAddress)
    );
    assert_eq!(
        p.deallocate_pages(AddrRange::new(MIN, MIN)),
        Err(DeallocationError::Unaligned)
    );
    assert_eq!(
        p.update_permissions(pages(MIN, 1), rw()),
        Err(PermissionUpdateError::Unallocated)
    );
    assert_eq!(
        p.update_permissions(AddrRange::new(1, 2), rw()),
        Err(PermissionUpdateError::Unaligned)
    );
    assert!(MacosUserland::new(4096).is_none());
}

#[test]
fn hints_are_tried_twice() {
    let set = PageSet::new();
    let hint = FixedAddressBehavior::Hint;
    let (mut a, action) = Allocation::start(pages(MIN, 1), rw(), hint, &set);
    assert_eq!(
        action,
        AllocAction::MapHint {
            hint: MIN,
            len: PAGE_SIZE,
            prot: PROT_READ | PROT_WRITE
        }
    );
    let mut set = set;
    // What lies below the task is given back.
    assert_eq!(
        a.step(AllocEvent::Mapped(Ok(PAGE_SIZE)), &mut set),
        AllocAction::Unmap {
            addr: PAGE_SIZE,
            len: PAGE_SIZE
        }
    );
    assert_eq!(
        a.step(AllocEvent::Unmapped, &mut set),
        AllocAction::MapHint {
            hint: 0,
            len: PAGE_SIZE,
            prot: PROT_READ | PROT_WRITE
        }
    );
    assert_eq!(
        a.step(AllocEvent::Mapped(Err(EEXIST)), &mut set),
        AllocAction::Finish(Err(AllocationError::AddressInUse))
    );
}

#[test]
fn unmapping_that_fails_is_reported() {
    let mut p = Host::new();
    let start = p
        .allocate_pages(pages(MIN, 2), rw(), FixedAddressBehavior::Hint)
        .unwrap();
    let (mut d, action) = Deallocation::start(pages(start, 2), &p.platform.pages);
    assert_eq!(action, DeallocAction::Unmap { page: start });
    assert_eq!(
        d.step(true, &mut p.platform.pages),
        DeallocAction::Unmap {
            page: start + PAGE_SIZE
        }
    );
    assert_eq!(
        d.step(false, &mut p.platform.pages),
        DeallocAction::Finish(Some(DeallocationError::AlreadyUnallocated))
    );
    assert!(!p.platform.pages.contains(start));
    assert!(p.platform.pages.contains(start + PAGE_SIZE));
}

#[test]
fn error_numbers_and_protection_bits_are_those_of_the_host() {
    assert_eq!((PROT_READ, PROT_WRITE, PROT_EXEC), (libc::PROT_READ, libc::PROT_WRITE, libc::PROT_EXEC));
    assert_eq!(
        (EPERM, ENOMEM, EACCES, EBUSY, EEXIST),
        (libc::EPERM, libc::ENOMEM, libc::EACCES, libc::EBUSY, libc::EEXIST)
    );
    assert_eq!(allocation_error(EACCES), AllocationError::PermissionDenied);
    assert_eq!(allocation_error(EPERM), AllocationError::PermissionDenied);
    assert_eq!(allocation_error(EEXIST), AllocationError::AddressInUse);
    assert_eq!(allocation_error(5), AllocationError::OutOfMemory);
    assert_eq!(
        permission_update_error(EPERM),
        PermissionUpdateError::PermissionDenied
    );
    assert_eq!(
        permission_update_error(ENOMEM),
        PermissionUpdateError::OutOfMemory
    );
    assert_eq!(
        permission_update_error(5),
        PermissionUpdateError::PlatformFailure
    );
    assert_eq!(prot_flags(perms(true, true, true)), 7);
    assert_eq!(prot_flags(perms(false, false, false)), 0);
    assert!(wx(perms(false, true, true)));
    assert!(!wx(perms(true, false, true)));
    assert!(is_page_aligned(&pages(MIN, 1)));
    assert!(!is_page_aligned(&AddrRange::new(MIN, MIN)));
}

fn zero_context() -> MachineContext {
    MachineContext {
        x: [0; 29],
        fp: 0,
        lr: 0,
        sp: 0,
        pc: 0,
        cpsr: 0,
        v: [0; 32],
        fpsr: 0,
        fpcr: 0,
    }
}

fn zero_regs() -> PtRegs {
    PtRegs {
        regs: [0; 31],
        sp: 0,
        pc: 0,
        pstate: 0,
        orig_x0: 0,
        syscallno: 0,
    }
}

#[test]
fn pstate_capture_and_restore_preserve_only_user_bits() {
    let mut tls = zero_tls();
    let mut vector = GuestVectorState {
        registers: [0; 32],
        fpsr: 0,
        fpcr: 0,
    };
    let mut mc = zero_context();
    let mut regs = zero_regs();
    for (index, value) in mc.x.iter_mut().enumerate() {
        *value = 0x1000 + index as u64;
    }
    mc.fp = 0x2000;
    mc.lr = 0x3000;
    mc.sp = 0x4000;
    mc.pc = 0x5000;
    for (index, value) in mc.v.iter_mut().enumerate() {
        *value = 0x6000 + index as u128;
    }
    mc.fpsr = 0x7000;
    mc.fpcr = 0x8000;
    let input_mc = mc;
    for bits in [
        0,
        PSR_NZCV_MASK,
        PSR_SSBS_BIT,
        PSR_DIT_BIT,
        SAFE_USER_PSTATE,
    ] {
        mc = input_mc;
        tls.set_guest_x18(0x1818);
        mc.cpsr = (bits | !SAFE_USER_PSTATE) as u32;
        copy_signal_context(&mut regs, &mut vector, &mc, tls.get_guest_x18());
        assert_eq!(regs.regs[..18], (0x1000..0x1012).collect::<Vec<_>>());
        assert_eq!(regs.regs[18], 0x1818);
        assert_eq!(regs.regs[19..29], (0x1013..0x101d).collect::<Vec<_>>());
        assert_eq!((regs.regs[29], regs.regs[30]), (0x2000, 0x3000));
        assert_eq!((regs.sp, regs.pc), (0x4000, 0x5000));
        assert_eq!(regs.pstate, bits);
        assert_eq!(vector.registers, mc.v);
        assert_eq!((vector.fpsr, vector.fpcr), (0x7000, 0x8000));
        assert_eq!((regs.orig_x0, regs.syscallno), (0x1000, NO_SYSCALL));

        regs.regs = core::array::from_fn(|index| 0x9000 + index);
        regs.sp = 0xa000;
        regs.pc = 0xb000;
        regs.pstate = bits | !SAFE_USER_PSTATE;
        let restored_vector = GuestVectorState {
            registers: core::array::from_fn(|index| 0xc000 + index as u128),
            fpsr: 0xd000,
            fpcr: 0xe000,
        };
        let x18 = restore_signal_context(&regs, &restored_vector, &mut mc);
        tls.set_guest_x18(x18);
        assert_eq!(tls.get_guest_x18(), 0x9012);
        for (index, value) in mc.x.iter().enumerate() {
            if index != 18 {
                assert_eq!(*value, 0x9000 + index as u64);
            }
        }
        assert_eq!((mc.fp, mc.lr), (0x901d, 0x901e));
        assert_eq!((mc.sp, mc.pc), (0xa000, 0xb000));
        assert_eq!(u64::from(mc.cpsr), bits);
        assert_eq!(mc.v, restored_vector.registers);
        assert_eq!((mc.fpsr, mc.fpcr), (0xd000, 0xe000));
    }
}

#[test]
fn syscalls_are_taken_from_the_frame() {
    let mut regs = zero_regs();
    regs.regs[0] = 7;
    regs.regs[8] = 0x1_0000_0000 + 64;
    regs.sp = usize::MAX - 7;
    regs.take_syscall(&[0x16, 0x9999, 0], 32);
    assert_eq!((regs.regs[16], regs.pc, regs.sp), (0x16, 0x9999, 24));
    assert_eq!((regs.syscallno, regs.orig_x0), (64, 7));
    assert_eq!(regs.regs[0], (-38isize) as usize);
    let mut regs = zero_regs();
    regs.regs[8] = 0xffff_ffff;
    regs.take_syscall(&[0, 0, 0], 32);
    assert_eq!(regs.syscallno, -1);
    let mut mc = zero_context();
    mc.set_signal_return(0x1000, 0x2000);
    assert_eq!((mc.pc, mc.sp, mc.fp), (0x1000, 0x2000, 0x2010));
}

#[test]
fn fatal_addresses_are_sixteen_digits() {
    assert_eq!(&fatal_address(0x12ab), b"00000000000012ab\n");
    assert_eq!(&fatal_address(u64::MAX), b"ffffffffffffffff\n");
    assert_eq!(fatal_exit_code(), 134);
}

fn zero_tls() -> TlsBlock {
    TlsBlock {
        platform_tls: 0,
        guest_thread_pointer: 0,
        guest_x18: 0,
        active: 0,
        current_thread: 0,
        in_guest: 0,
        vector_state: 0,
    }
}

#[test]
fn guests_do_not_nest() {
    let mut tls = zero_tls();
    tls.set_guest_thread_pointer(0x1234);
    assert_eq!(tls.begin_guest(0x100, 0x200), None);
    assert_eq!(tls.get_guest_thread_pointer(), 0);
    assert_eq!(tls.begin_guest(0x300, 0x400), Some(NestedEntry));
    assert_eq!((tls.active, tls.current_thread), (0x100, 0x200));
    tls.in_guest = 1;
    tls.end_guest();
    assert_eq!((tls.active, tls.current_thread, tls.in_guest), (0, 0, 0));
    assert_eq!(tls.replace_platform_tls(9), 0);
    assert_eq!(tls.replace_platform_tls(0), 9);
}

#[test]
fn only_the_thread_pointer_is_a_register() {
    let mut tls = zero_tls();
    let tp = ArchSpecificRegister::TpidrEl0;
    assert_eq!(tls.set_arch_specific_register(tp, 5, true), None);
    assert_eq!(tls.get_arch_specific_register(tp), Ok(5));
    assert_eq!(
        tls.set_arch_specific_register(tp, 6, false),
        Some(ArchSpecificError::RegisterUnpermittedValue)
    );
    assert_eq!(
        tls.set_arch_specific_register(ArchSpecificRegister::FsBase, 6, true),
        Some(ArchSpecificError::RegisterUnsupported)
    );
    assert_eq!(
        tls.get_arch_specific_register(ArchSpecificRegister::GsBase),
        Err(ArchSpecificError::RegisterUnsupported)
    );
    assert_eq!(tls.guest_thread_pointer, 5);
}

/// Creates keys from the numbers that a host gives; returns the deleted ones.
fn create_keys(
    numbers: &[u64],
    gates_fit: bool,
    defaults: [bool; 2],
) -> (Result<GuestTlsKeys, i32>, Vec<u64>) {
    let (mut creator, mut action) = KeyCreator::start();
    let mut next = 0;
    let mut deleted = Vec::new();
    loop {
        let event = match action {
            KeyAction::Create { drops_vector_state } => {
                assert_eq!(drops_vector_state, next == 6);
                next += 1;
                KeyEvent::Created(numbers.get(next - 1).copied().ok_or(ENOMEM))
            }
            KeyAction::Delete { key } => {
                deleted.push(key);
                KeyEvent::Deleted
            }
            KeyAction::CheckGates { .. } => KeyEvent::GatesFit(gates_fit),
            KeyAction::Query { signal } => {
                KeyEvent::IsDefault(Ok(if signal == SIGUSR1 { defaults[0] } else { defaults[1] }))
            }
            KeyAction::Finish { error } => {
                return match error {
                    Some(e) => (Err(e), deleted),
                    None => (Ok(creator.into_keys().unwrap()), deleted),
                };
            }
        };
        assert!(creator.is_answered_by(event));
        action = creator.step(event);
    }
}

#[test]
fn keys_have_to_follow_each_other() {
    let good: Vec<u64> = (300..307).collect();
    let (keys, deleted) = create_keys(&good, true, [true, true]);
    let keys = keys.unwrap();
    assert!(deleted.is_empty());
    assert_eq!(keys.interrupt_signal(), SIGUSR1);
    assert_eq!(keys.tls_block_offset(), 2400);
    assert_eq!(keys.guest_thread_pointer_offset(), 2408);
    assert_eq!(keys.guest_thread_pointer_address(0x1000), 0x1000 + 2408);
    assert_eq!(keys.tls_address(0x1000, 48), 0x1000 + 2448);
    let (keys, _) = create_keys(&good, true, [false, true]);
    assert_eq!(keys.unwrap().interrupt_signal, SIGUSR2);
    let (keys, deleted) = create_keys(&good, true, [false, false]);
    assert_eq!((keys.unwrap_err(), deleted), (EBUSY, good.clone()));
    let (keys, deleted) = create_keys(&good, false, [true, true]);
    assert_eq!((keys.unwrap_err(), deleted), (ENOTSUP, good.clone()));
    let (keys, deleted) = create_keys(&good[..3], true, [true, true]);
    assert_eq!((keys.unwrap_err(), deleted), (ENOMEM, good[..3].to_vec()));
    let mut gap = good.clone();
    gap[6] = 400;
    let (keys, deleted) = create_keys(&gap, true, [true, true]);
    assert_eq!((keys.unwrap_err(), deleted), (ENOTSUP, gap));
    let high: Vec<u64> = (9000..9007).collect();
    let (keys, _) = create_keys(&high, true, [true, true]);
    assert_eq!(keys.unwrap_err(), ENOTSUP);
}

#[test]
fn slots_are_checked_and_restored() {
    let first = SlotCheck::start();
    let mut check = first.check;
    let mut action = first.action;
    for i in 0..TLS_SLOT_COUNT {
        assert_eq!(
            action,
            SlotAction::Mark {
                index: i,
                sentinel: 0x1234 + i
            }
        );
        assert_eq!(check.step(SlotEvent::Done(0)), SlotAction::Read { index: i });
        assert_eq!(
            check.step(SlotEvent::Value(Some(0x1234 + i))),
            SlotAction::Restore { index: i }
        );
        action = check.step(SlotEvent::Done(0));
    }
    assert_eq!(action, SlotAction::LookForVectorState);
    assert_eq!(
        check.step(SlotEvent::Found(false)),
        SlotAction::AddVectorState
    );
    assert_eq!(check.step(SlotEvent::Done(0)), SlotAction::Finish(None));
    let mut check = SlotCheck::start().check;
    check.step(SlotEvent::Done(0));
    check.step(SlotEvent::Value(None));
    assert_eq!(
        check.step(SlotEvent::Done(0)),
        SlotAction::Finish(Some(SlotFault::UnsupportedLayout))
    );
    let mut check = SlotCheck::start().check;
    assert!(check.is_answered_by(SlotEvent::Done(7)));
    assert_eq!(
        check.step(SlotEvent::Done(7)),
        SlotAction::Finish(Some(SlotFault::Host(7)))
    );
}

fn esr(class: u8) -> u64 {
    u64::from(class) << 26
}

fn signal(signal: i32, code: i32, class: u8, pc: usize) -> HostSignal {
    HostSignal {
        signal,
        code,
        esr: esr(class),
        pc,
        far: 0x77,
        sp: 0x8000,
        interrupt_signal: SIGUSR1,
        active: true,
        in_guest: true,
        switch_pc: 0x100,
        syscall_pc: 0x200,
    }
}

#[test]
fn signals_are_classified() {
    assert_eq!(exception_class(esr(0x3c) | 0x123), 0x3c);
    assert!(is_application_signal(0x1_0001) && is_application_signal(0x1_0002));
    assert!(!is_application_signal(1));
    assert!(is_synchronous_memory_fault(SIGSEGV, 1, esr(0x24)));
    assert!(is_synchronous_memory_fault(SIGBUS, 3, esr(0x21)));
    assert!(!is_synchronous_memory_fault(SIGBUS, 4, esr(0x24)));
    assert!(!is_synchronous_memory_fault(SIGSEGV, 1, esr(0x3c)));
    assert!(!is_synchronous_memory_fault(SIGILL, 1, esr(0x24)));
    assert_eq!(
        gate_interruption(SIGSEGV, 2, esr(0x25)),
        GateInterruption::Synchronous
    );
    assert_eq!(
        gate_interruption(SIGTRAP, 1, esr(BRK64)),
        GateInterruption::Breakpoint
    );
    assert_eq!(
        gate_interruption(SIGUSR1, 0, 0),
        GateInterruption::Asynchronous
    );
    assert_eq!(
        host_signals(SIGUSR2),
        [SIGTRAP, SIGSEGV, SIGBUS, SIGILL, SIGUSR2]
    );
}

#[test]
fn faults_recover_where_code_is_prepared_for_them() {
    let fault = signal(SIGSEGV, 1, 0x25, 0x4000);
    let first = SignalHandler::exception_signal_handler(fault);
    assert_eq!(first.action, SignalAction::FindFixup { pc: 0x4000 });
    let mut h = first.handler;
    assert!(h.is_answered_by(SignalEvent::Fixup(None)));
    assert_eq!(
        h.step(SignalEvent::Fixup(Some(0x9000))),
        SignalAction::JumpTo { pc: 0x9000 }
    );
    let mut h = first.handler;
    assert_eq!(
        h.step(SignalEvent::Fixup(None)),
        SignalAction::Canonicalize(GateInterruption::Synchronous)
    );
    let exit = h.step(SignalEvent::Gate(GateResult::NotGate));
    let SignalAction::ReturnToHost(GuestExit::Exception(info)) = exit else {
        panic!("no exception");
    };
    assert_eq!(info.exception, DATA_ABORT_LOWER_EL);
    assert_eq!((info.fault_address, info.kernel_mode), (0x77, false));
}

#[test]
fn a_breakpoint_of_the_switch_enters_the_guest_unless_it_is_interrupted() {
    let mut s = signal(SIGTRAP, 1, BRK64, 0x100);
    s.in_guest = false;
    for (asked, expected) in [
        (false, SignalAction::EnterGuest),
        (true, SignalAction::ReturnToHost(GuestExit::Interrupt)),
    ] {
        let first = SignalHandler::exception_signal_handler(s);
        assert_eq!(first.action, SignalAction::CheckInterrupted);
        let mut h = first.handler;
        assert_eq!(h.step(SignalEvent::Interrupted(asked)), expected);
    }
}

#[test]
fn a_breakpoint_of_a_syscall_needs_its_frame() {
    let first = SignalHandler::exception_signal_handler(signal(SIGTRAP, 1, BRK64, 0x200));
    assert_eq!(
        first.action,
        SignalAction::ReadFrame {
            addr: 0x8000,
            len: 24
        }
    );
    let mut h = first.handler;
    assert_eq!(h.step(SignalEvent::Frame(true)), SignalAction::TakeSyscall);
    let mut h = first.handler;
    assert_eq!(
        h.step(SignalEvent::Frame(false)),
        SignalAction::Fatal(SignalFailure::UnreadableFrame)
    );
    assert_eq!(
        SignalFailure::UnreadableFrame.message(),
        "unreadable SVC gate frame"
    );
}

#[test]
fn signals_that_do_not_concern_the_guest_go_elsewhere() {
    let sent = signal(SIGTRAP, 0x1_0001, BRK64, 0x100);
    assert_eq!(
        SignalHandler::exception_signal_handler(sent).action,
        SignalAction::Forward
    );
    let mut outside = signal(SIGILL, 1, 0, 0x4000);
    outside.active = false;
    assert_eq!(
        SignalHandler::exception_signal_handler(outside).action,
        SignalAction::Forward
    );
    outside.signal = SIGUSR1;
    assert_eq!(
        SignalHandler::exception_signal_handler(outside).action,
        SignalAction::Ignore
    );
}

#[test]
fn gates_decide_how_an_interruption_ends() {
    let s = signal(SIGUSR1, 0x1_0001, 0, 0x4000);
    let first = SignalHandler::exception_signal_handler(s);
    assert_eq!(
        first.action,
        SignalAction::Canonicalize(GateInterruption::Asynchronous)
    );
    for (result, expected) in [
        (
            GateResult::Canonicalized,
            SignalAction::ReturnToHost(GuestExit::Interrupt),
        ),
        (GateResult::ResumeGuest, SignalAction::CheckInterrupted),
        (
            GateResult::InvalidRuntimeState,
            SignalAction::Fatal(SignalFailure::InvalidGateState),
        ),
        (
            GateResult::PreserveSavedContext,
            SignalAction::Fatal(SignalFailure::UnexpectedRecovery),
        ),
    ] {
        let mut h = first.handler;
        assert_eq!(h.step(SignalEvent::Gate(result)), expected);
    }
    for (signal_number, code, class, expected) in [
        (SIGILL, 1, 0, INSTRUCTION_ABORT_LOWER_EL),
        (SIGTRAP, 1, 0x10, BRK64),
        (SIGBUS, 1, 0x20, INSTRUCTION_ABORT_LOWER_EL),
        (SIGBUS, 9, 0x20, DATA_ABORT_LOWER_EL),
    ] {
        let s = signal(signal_number, code, class, 0x4000);
        let first = SignalHandler::exception_signal_handler(s);
        let mut h = first.handler;
        if let SignalAction::FindFixup { .. } = first.action {
            h.step(SignalEvent::Fixup(None));
        }
        let SignalAction::ReturnToHost(GuestExit::Exception(info)) =
            h.step(SignalEvent::Gate(GateResult::NotGate))
        else {
            panic!("no exception");
        };
        assert_eq!(info.exception, expected);
    }
}

#[test]
fn exits_lead_to_the_shim() {
    assert_eq!(
        GuestExit::Interrupt.exit_handler(),
        (EntryReason::Interrupt, true)
    );
    assert_eq!(
        GuestExit::Syscall.exit_handler(),
        (EntryReason::Syscall, false)
    );
}

#[test]
fn signals_are_handed_on_as_they_were_handled() {
    assert_eq!(next_signal_handler(None), Forwarding::Missing);
    assert_eq!(
        next_signal_handler(Some(Disposition::Default)),
        Forwarding::RaiseDefault
    );
    assert_eq!(
        next_signal_handler(Some(Disposition::Ignored)),
        Forwarding::Nothing
    );
    assert_eq!(
        next_signal_handler(Some(Disposition::Handler { with_info: true })),
        Forwarding::CallWithInfo
    );
    assert_eq!(
        next_signal_handler(Some(Disposition::Handler { with_info: false })),
        Forwarding::Call
    );
}

/// Installs handlers; the install at `fails_at` fails. Returns what is
/// installed in the end.
fn install(fails_at: usize, interrupt_is_free: bool) -> (Option<InstallFault>, Vec<i32>) {
    let first = Installer::register_exception_handlers(SIGUSR1, false);
    let mut installer = first.installer;
    let mut action = first.action;
    let mut installed: Vec<i32> = Vec::new();
    loop {
        let event = match action {
            InstallAction::Query { .. } => InstallEvent::Queried(None),
            InstallAction::Install { signal } => {
                if installed.len() == fails_at {
                    InstallEvent::Installed(Err(22))
                } else {
                    installed.push(signal);
                    InstallEvent::Installed(Ok(signal != SIGUSR1 || interrupt_is_free))
                }
            }
            InstallAction::PutBack { signal } | InstallAction::Restore { signal } => {
                installed.retain(|s| *s != signal);
                InstallEvent::Restored
            }
            InstallAction::Finish(fault) => return (fault, installed),
        };
        assert!(installer.is_answered_by(event));
        action = installer.step(event);
    }
}

#[test]
fn handlers_are_installed_all_or_none() {
    let (fault, installed) = install(9, true);
    assert_eq!(fault, None);
    assert_eq!(installed, host_signals(SIGUSR1).to_vec());
    let (fault, installed) = install(3, true);
    assert_eq!(fault, Some(InstallFault::Host(22)));
    assert!(installed.is_empty());
    let (fault, installed) = install(9, false);
    assert_eq!(fault, Some(InstallFault::InterruptInUse));
    assert!(installed.is_empty());
    assert_eq!(
        InstallFault::InterruptInUse.message(),
        Some("interrupt signal already has a host handler")
    );
    assert_eq!(InstallFault::Host(1).message(), None);
    let again = Installer::register_exception_handlers(SIGUSR1, true);
    assert_eq!(again.action, InstallAction::Finish(None));
}

#[test]
fn signal_stacks_have_a_guard_page() {
    let stack = with_signal_alt_stack(0x20000);
    assert_eq!(stack.stack_size, 0x40000);
    assert_eq!(stack.mapping_size, 0x44000);
    assert_eq!(with_signal_alt_stack(0x20001).stack_size, 0x44000);
}

#[test]
fn time_is_counted_in_nanoseconds() {
    let early = Instant { nanos: 5 };
    let late = early.checked_add(10).unwrap();
    assert_eq!(late.nanos, 15);
    assert_eq!(late.checked_duration_since(&early), Some(10));
    assert_eq!(early.checked_duration_since(&late), None);
    assert_eq!(early.checked_add(u128::MAX), None);
    let epoch = SystemTime::unix_epoch();
    let before = SystemTime { nanos: -3 };
    assert_eq!(epoch.duration_since(&before), Ok(3));
    assert_eq!(before.duration_since(&epoch), Err(3));
}

#[test]
fn a_changed_value_is_not_waited_for() {
    let mutex = RawMutex::new();
    assert_eq!(mutex.block(0), None);
    assert_eq!(mutex.block(1), Some(ImmediatelyWokenUp));
    assert_eq!(RawMutex::wake_many(10), WakePlan::Each(10));
    assert_eq!(RawMutex::wake_many(i32::MAX as usize), WakePlan::All);
    assert_eq!(RawMutex::wake_many(10).reported(), 0);
    assert_eq!(
        RawMutex::wait_outcome(true),
        UnblockedOrTimedOut::TimedOut
    );
    assert_eq!(
        RawMutex::wait_outcome(false),
        UnblockedOrTimedOut::Unblocked
    );
}

#[test]
fn threads_are_signalled_while_they_run_a_guest() {
    let mut thread = ThreadHandle::new(4);
    let plan = thread.interrupt();
    assert!(thread.interrupted);
    assert_eq!((plan.signal, plan.wake), (Some(4), false));
    thread.update_waker(true);
    thread.retire();
    let plan = thread.interrupt();
    assert_eq!((plan.signal, plan.wake), (None, true));
}

/// Runs a guest; the actions at the places in `failing` fail. Returns all
/// actions.
fn run_guest(active: bool, failing: &[RunAction]) -> Vec<RunAction> {
    let first = GuestRun::run_thread(active, with_signal_alt_stack(0x2_0000));
    let mut run = first.run;
    let mut actions = vec![first.action];
    loop {
        let action = actions[actions.len() - 1];
        match action {
            RunAction::Finish | RunAction::Fatal(_) | RunAction::Abort => return actions,
            _ => actions.push(run.step(!failing.contains(&action))),
        }
    }
}

#[test]
fn guests_leave_their_thread_as_it_was() {
    let map = RunAction::MapStack { len: 0x4_4000 };
    let guard = RunAction::GuardStack { len: 0x4000 };
    let install = RunAction::InstallStack {
        offset: 0x4000,
        size: 0x4_0000,
    };
    let unmap = RunAction::UnmapStack { len: 0x4_4000 };
    assert_eq!(
        run_guest(false, &[]),
        vec![
            RunAction::CheckSlots,
            RunAction::Register,
            RunAction::UnblockSignals,
            map,
            guard,
            install,
            RunAction::RunGuest,
            RunAction::RestoreStack,
            unmap,
            RunAction::RestoreMask,
            RunAction::Unregister,
            RunAction::Finish,
        ]
    );
    assert_eq!(
        run_guest(true, &[]),
        vec![RunAction::Fatal(RunFailure::Nested)]
    );
    let end = |failing: &[RunAction], count: usize| {
        let actions = run_guest(false, failing);
        actions[actions.len() - count..].to_vec()
    };
    assert_eq!(
        end(&[RunAction::CheckSlots], 1),
        vec![RunAction::Fatal(RunFailure::Slots)]
    );
    assert_eq!(
        end(&[RunAction::UnblockSignals], 2),
        vec![
            RunAction::Unregister,
            RunAction::Fatal(RunFailure::UnblockSignals)
        ]
    );
    assert_eq!(
        end(&[map], 3),
        vec![
            RunAction::RestoreMask,
            RunAction::Unregister,
            RunAction::Fatal(RunFailure::MapStack)
        ]
    );
    for (failing, failure) in [
        (guard, RunFailure::GuardStack),
        (install, RunFailure::InstallStack),
        (RunAction::RestoreStack, RunFailure::RestoreStack),
        (unmap, RunFailure::UnmapStack),
    ] {
        assert_eq!(
            end(&[failing], 4),
            vec![
                unmap,
                RunAction::RestoreMask,
                RunAction::Unregister,
                RunAction::Fatal(failure)
            ]
        );
    }
    assert_eq!(
        end(&[RunAction::RestoreMask], 2),
        vec![
            RunAction::Unregister,
            RunAction::Fatal(RunFailure::RestoreMask)
        ]
    );
    assert_eq!(end(&[guard, unmap], 1), vec![RunAction::Abort]);
}
