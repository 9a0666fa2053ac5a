//! The registers of a guest on Windows, and how it is entered and left.

use vstd::prelude::*;

use crate::shim::entry::{ContinueOperation, PAGE_FAULT};
use crate::windows::thread::TlsState;

verus! {

/// Registers of a guest.
#[derive(Clone, Copy, Debug, PartialEq, Eq, Structural)]
pub struct PtRegs {
    pub r15: usize,
    pub r14: usize,
    pub r13: usize,
    pub r12: usize,
    pub rbp: usize,
    pub rbx: usize,
    pub r11: usize,
    pub r10: usize,
    pub r9: usize,
    pub r8: usize,
    pub rax: usize,
    pub rcx: usize,
    pub rdx: usize,
    pub rsi: usize,
    pub rdi: usize,
    pub orig_rax: usize,
    pub rip: usize,
    pub cs: usize,
    pub eflags: usize,
    pub rsp: usize,
    pub ss: usize,
}

/// Registers of a thread, as the host keeps them.
#[derive(Clone, Copy, Debug, PartialEq, Eq, Structural)]
pub struct HostContext {
    pub r15: u64,
    pub r14: u64,
    pub r13: u64,
    pub r12: u64,
    pub rbp: u64,
    pub rbx: u64,
    pub r11: u64,
    pub r10: u64,
    pub r9: u64,
    pub r8: u64,
    pub rax: u64,
    pub rcx: u64,
    pub rdx: u64,
    pub rsi: u64,
    pub rdi: u64,
    pub rip: u64,
    pub rsp: u64,
    pub eflags: u32,
}

/// Where the vector registers of a guest are kept.
#[derive(Clone, Copy, Debug, PartialEq, Eq, Structural)]
pub enum GuestXstateFormat {
    /// In an area as the processor saves it.
    Native,
    /// In a context of the host.
    Windows,
}

/// Whether the registers of a guest are those of its thread. Its segments stay
/// as they were.
pub open spec fn saves(regs: PtRegs, before: PtRegs, context: HostContext) -> bool {
    &&& regs.r15 == context.r15 as usize
    &&& regs.r14 == context.r14 as usize
    &&& regs.r13 == context.r13 as usize
    &&& regs.r12 == context.r12 as usize
    &&& regs.rbp == context.rbp as usize
    &&& regs.rbx == context.rbx as usize
    &&& regs.r11 == context.r11 as usize
    &&& regs.r10 == context.r10 as usize
    &&& regs.r9 == context.r9 as usize
    &&& regs.r8 == context.r8 as usize
    &&& regs.rax == context.rax as usize
    &&& regs.rcx == context.rcx as usize
    &&& regs.rdx == context.rdx as usize
    &&& regs.rsi == context.rsi as usize
    &&& regs.rdi == context.rdi as usize
    &&& regs.orig_rax == context.rax as usize
    &&& regs.rip == context.rip as usize
    &&& regs.eflags == context.eflags as usize
    &&& regs.rsp == context.rsp as usize
    &&& regs.cs == before.cs
    &&& regs.ss == before.ss
}

/// Takes the registers of a guest from its thread. Its vector registers are
/// then in a context of the host.
pub fn save_guest_context(guest: &mut PtRegs, context: &HostContext) -> (format: GuestXstateFormat)
    ensures
        saves(*final(guest), *old(guest), *context),
        format is Windows,
{
    guest.r15 = context.r15 as usize;
    guest.r14 = context.r14 as usize;
    guest.r13 = context.r13 as usize;
    guest.r12 = context.r12 as usize;
    guest.rbp = context.rbp as usize;
    guest.rbx = context.rbx as usize;
    guest.r11 = context.r11 as usize;
    guest.r10 = context.r10 as usize;
    guest.r9 = context.r9 as usize;
    guest.r8 = context.r8 as usize;
    guest.rax = context.rax as usize;
    guest.rcx = context.rcx as usize;
    guest.rdx = context.rdx as usize;
    guest.rsi = context.rsi as usize;
    guest.rdi = context.rdi as usize;
    guest.orig_rax = context.rax as usize;
    guest.rip = context.rip as usize;
    guest.eflags = context.eflags as usize;
    guest.rsp = context.rsp as usize;
    GuestXstateFormat::Windows
}

/// Whether the registers of a thread are those of its guest.
pub open spec fn continues(context: HostContext, regs: PtRegs) -> bool {
    &&& context.r15 == regs.r15 as u64
    &&& context.r14 == regs.r14 as u64
    &&& context.r13 == regs.r13 as u64
    &&& context.r12 == regs.r12 as u64
    &&& context.rbp == regs.rbp as u64
    &&& context.rbx == regs.rbx as u64
    &&& context.r11 == regs.r11 as u64
    &&& context.r10 == regs.r10 as u64
    &&& context.r9 == regs.r9 as u64
    &&& context.r8 == regs.r8 as u64
    &&& context.rax == regs.rax as u64
    &&& context.rcx == regs.rcx as u64
    &&& context.rdx == regs.rdx as u64
    &&& context.rsi == regs.rsi as u64
    &&& context.rdi == regs.rdi as u64
    &&& context.rip == regs.rip as u64
    &&& context.rsp == regs.rsp as u64
    &&& context.eflags == regs.eflags as u32
}

/// The registers with which a guest goes on.
pub fn continue_context(regs: &PtRegs) -> (context: HostContext)
    ensures
        continues(context, *regs),
{
    HostContext {
        r15: regs.r15 as u64,
        r14: regs.r14 as u64,
        r13: regs.r13 as u64,
        r12: regs.r12 as u64,
        rbp: regs.rbp as u64,
        rbx: regs.rbx as u64,
        r11: regs.r11 as u64,
        r10: regs.r10 as u64,
        r9: regs.r9 as u64,
        r8: regs.r8 as u64,
        rax: regs.rax as u64,
        rcx: regs.rcx as u64,
        rdx: regs.rdx as u64,
        rsi: regs.rsi as u64,
        rdi: regs.rdi as u64,
        rip: regs.rip as u64,
        rsp: regs.rsp as u64,
        eflags: regs.eflags as u32,
    }
}

/// A guest that is stopped and resumed finds its registers as they were.
pub proof fn stopping_a_guest_loses_nothing(
    context: HostContext,
    before: PtRegs,
    regs: PtRegs,
    resumed: HostContext,
)
    requires
        usize::MAX == u64::MAX,
        saves(regs, before, context),
        continues(resumed, regs),
    ensures
        resumed == context,
        regs.orig_rax == regs.rax,
        regs.cs == before.cs,
        regs.ss == before.ss,
{
}

/// A guest that is resumed and stopped again has the registers that it was given
/// in every place in which it had them.
pub proof fn resuming_a_guest_loses_nothing(
    regs: PtRegs,
    context: HostContext,
    later: PtRegs,
)
    requires
        usize::MAX == u64::MAX,
        regs.eflags <= u32::MAX,
        continues(context, regs),
        saves(later, regs, context),
    ensures
        later == (PtRegs { orig_rax: regs.rax, ..regs }),
        context.rip == regs.rip,
        context.rsp == regs.rsp,
        context.rax == regs.rax,
{
}

/// How a guest is entered.
#[derive(Clone, Copy, Debug, PartialEq, Eq, Structural)]
pub enum ResumePath {
    /// By loading its registers, which loses the one that holds the address.
    LoadRegisters,
    /// By way of the host, which loads all.
    Continue,
}

/// How a guest is entered: quickly where the register that is lost holds the
/// address anyway, and the vector registers are as the processor saved them.
pub open spec fn path_of(format: GuestXstateFormat, regs: PtRegs) -> ResumePath {
    if format is Native && regs.rcx == regs.rip {
        ResumePath::LoadRegisters
    } else {
        ResumePath::Continue
    }
}

/// What is done to enter a guest, once the base of its segment is restored.
#[derive(Clone, Copy, Debug, PartialEq, Eq, Structural)]
pub struct GuestEntry {
    pub path: ResumePath,
    /// The registers that the host loads, where it is to load them.
    pub context: Option<HostContext>,
    /// Whether the vector registers that the processor saved are put to those.
    pub restores_vectors: bool,
    /// Whether the guest is entered. Where it is to be interrupted, the
    /// interrupt callback is.
    pub enters: bool,
}

/// What is done to enter a guest. Its thread counts as being in the guest
/// before it is seen whether the guest is to be interrupted, so that no
/// interrupt is missed.
pub fn switch_to_guest(tls: &mut TlsState, regs: &PtRegs) -> (entry: GuestEntry)
    requires
        !old(tls).is_in_guest,
    ensures
        entry.path == path_of(old(tls).guest_xstate_format, *regs),
        entry.context is Some == entry.path is Continue,
        entry.context matches Some(context) ==> continues(context, *regs),
        entry.restores_vectors == (entry.path is Continue && old(tls).guest_xstate_format
            is Native),
        entry.enters == !old(tls).interrupt,
        old(tls).guest_xstate_format is Windows ==> entry.path is Continue
            && !entry.restores_vectors,
        entry.path is LoadRegisters ==> regs.rcx == regs.rip && !entry.restores_vectors,
        final(tls).is_in_guest,
        *final(tls) == (TlsState {
            is_in_guest: true,
            guest_xstate_format: match entry.path {
                ResumePath::LoadRegisters => GuestXstateFormat::Native,
                ResumePath::Continue => GuestXstateFormat::Windows,
            },
            ..*old(tls)
        }),
{
    let native = matches!(tls.guest_xstate_format, GuestXstateFormat::Native);
    let enters = !tls.interrupt;
    tls.is_in_guest = true;
    if native && regs.rcx == regs.rip {
        return GuestEntry {
            path: ResumePath::LoadRegisters,
            context: None,
            restores_vectors: false,
            enters,
        };
    }
    tls.guest_xstate_format = GuestXstateFormat::Windows;
    GuestEntry {
        path: ResumePath::Continue,
        context: Some(continue_context(regs)),
        restores_vectors: native,
        enters,
    }
}

/// The register that is lost where a guest is entered quickly: it then holds
/// the address at which the guest goes on.
pub open spec fn rcx_on_entry(path: ResumePath, regs: PtRegs) -> usize {
    match path {
        ResumePath::LoadRegisters => regs.rip,
        ResumePath::Continue => regs.rcx,
    }
}

/// However a guest is entered, it finds the value that its register had.
pub proof fn entering_keeps_registers(format: GuestXstateFormat, regs: PtRegs)
    ensures
        rcx_on_entry(path_of(format, regs), regs) == regs.rcx,
{
}

/// Vector registers that are in a context of the host are loaded by the host,
/// and so is a register that entering quickly would lose. Nothing else takes the
/// slower way.
pub proof fn only_the_host_loads_its_contexts(format: GuestXstateFormat, regs: PtRegs)
    ensures
        format is Windows ==> path_of(format, regs) is Continue,
        regs.rcx != regs.rip ==> path_of(format, regs) is Continue,
        path_of(format, regs) is Continue ==> format is Windows || regs.rcx != regs.rip,
{
}

/// Exceptions of the host.
pub const EXCEPTION_ACCESS_VIOLATION: i32 = -1_073_741_819;

pub const EXCEPTION_ILLEGAL_INSTRUCTION: i32 = -1_073_741_795;

pub const EXCEPTION_INT_DIVIDE_BY_ZERO: i32 = -1_073_741_676;

pub const EXCEPTION_BREAKPOINT: i32 = -2_147_483_645;

/// Exceptions of the processor.
pub const DIVIDE_ERROR: u8 = 0;

pub const BREAKPOINT: u8 = 3;

pub const INVALID_OPCODE: u8 = 6;

pub const GENERAL_PROTECTION_FAULT: u8 = 13;

/// An exception as the shim hears of it.
#[derive(Clone, Copy, Debug, PartialEq, Eq, Structural)]
pub struct ExceptionInfo {
    pub exception: u8,
    pub error_code: u32,
    pub cr2: usize,
    pub kernel_mode: bool,
}

/// The exception of the processor that an exception of the host stands for, if
/// it is known. Of an access violation the host tells whether it was a read,
/// and its address; one without an address is a fault of protection.
pub open spec fn exception_of(code: i32, flag: usize, address: usize) -> Option<ExceptionInfo> {
    let plain = |exception: u8|
        ExceptionInfo { exception, error_code: 0, cr2: 0, kernel_mode: false };
    if code == EXCEPTION_ACCESS_VIOLATION {
        if flag == 0 && address == usize::MAX {
            Some(plain(GENERAL_PROTECTION_FAULT))
        } else {
            Some(
                ExceptionInfo {
                    exception: PAGE_FAULT,
                    error_code: if flag == 0 {
                        4
                    } else {
                        6
                    },
                    cr2: address,
                    kernel_mode: false,
                },
            )
        }
    } else if code == EXCEPTION_ILLEGAL_INSTRUCTION {
        Some(plain(INVALID_OPCODE))
    } else if code == EXCEPTION_BREAKPOINT {
        Some(plain(BREAKPOINT))
    } else if code == EXCEPTION_INT_DIVIDE_BY_ZERO {
        Some(plain(DIVIDE_ERROR))
    } else {
        None
    }
}

/// The exception of the processor that an exception of the host stands for.
pub fn exception_handler(code: i32, flag: usize, address: usize) -> (info: Option<ExceptionInfo>)
    ensures
        info == exception_of(code, flag, address),
{
    let (exception, error_code, cr2): (u8, u32, usize) = if code == EXCEPTION_ACCESS_VIOLATION {
        if flag == 0 && address == usize::MAX {
            (GENERAL_PROTECTION_FAULT, 0, 0)
        } else if flag == 0 {
            (PAGE_FAULT, 4, address)
        } else {
            (PAGE_FAULT, 6, address)
        }
    } else if code == EXCEPTION_ILLEGAL_INSTRUCTION {
        (INVALID_OPCODE, 0, 0)
    } else if code == EXCEPTION_BREAKPOINT {
        (BREAKPOINT, 0, 0)
    } else if code == EXCEPTION_INT_DIVIDE_BY_ZERO {
        (DIVIDE_ERROR, 0, 0)
    } else {
        return None;
    };
    Some(ExceptionInfo { exception, error_code, cr2, kernel_mode: false })
}

/// Every access violation that becomes a page fault carries the address that the
/// host reported, for reads and writes alike. All of them become page faults but
/// for reads that have no address. The error code is that of an access from
/// outside the kernel, with the bit for writing where it was no read.
pub proof fn page_faults_carry_their_address(code: i32, flag: usize, address: usize)
    ensures
        exception_of(code, flag, address) matches Some(info) ==> (info.exception == PAGE_FAULT
            ==> {
            &&& code == EXCEPTION_ACCESS_VIOLATION
            &&& info.cr2 == address
            &&& (info.error_code / 2) % 2 == 1 <==> flag != 0
            &&& (info.error_code / 4) % 2 == 1
            &&& info.error_code % 2 == 0
            &&& info.error_code < 8
        }),
        code == EXCEPTION_ACCESS_VIOLATION ==> {
            &&& exception_of(code, flag, address) matches Some(info)
            &&& info.exception == PAGE_FAULT || (info.exception == GENERAL_PROTECTION_FAULT
                && flag == 0 && address == usize::MAX)
            &&& flag == 0 && address == usize::MAX ==> info.exception == GENERAL_PROTECTION_FAULT
        },
{
}

/// A read and a write of one address are told apart by the bit for writing alone.
pub proof fn reads_and_writes_fault_alike(flag: usize, address: usize)
    requires
        flag != 0,
        address != usize::MAX,
    ensures
        ({
            let read = exception_of(EXCEPTION_ACCESS_VIOLATION, 0, address);
            let write = exception_of(EXCEPTION_ACCESS_VIOLATION, flag, address);
            &&& read is Some && write is Some
            &&& write->0 == ExceptionInfo {
                error_code: (read->0.error_code + 2) as u32,
                ..read->0
            }
        }),
{
}

/// The shim hears of an exception under the number that the processor has for
/// it. Two exceptions of the host are never taken for one another, and one that
/// is no page fault has neither an address nor an error code.
pub proof fn exceptions_are_told_apart(
    code: i32,
    flag: usize,
    address: usize,
    other: i32,
    other_flag: usize,
    other_address: usize,
)
    ensures
        exception_of(code, flag, address) matches Some(a) ==> {
            &&& !a.kernel_mode
            &&& a.exception != PAGE_FAULT ==> a.cr2 == 0 && a.error_code == 0
            &&& a.exception == INVALID_OPCODE <==> code == EXCEPTION_ILLEGAL_INSTRUCTION
            &&& a.exception == BREAKPOINT <==> code == EXCEPTION_BREAKPOINT
            &&& a.exception == DIVIDE_ERROR <==> code == EXCEPTION_INT_DIVIDE_BY_ZERO
            &&& exception_of(other, other_flag, other_address) matches Some(b) ==> (a.exception
                == b.exception ==> code == other)
        },
        exception_of(code, flag, address) is None <==> code != EXCEPTION_ACCESS_VIOLATION && code
            != EXCEPTION_ILLEGAL_INSTRUCTION && code != EXCEPTION_BREAKPOINT && code
            != EXCEPTION_INT_DIVIDE_BY_ZERO,
{
}

/// Size of the host's record of an exception.
pub const EXCEPTION_RECORD_SIZE: usize = 152;

/// What is done with an exception of the host.
#[derive(Clone, Copy, Debug, PartialEq, Eq, Structural)]
pub enum VectoredAction {
    /// Let other handlers see it.
    ContinueSearch,
    /// Look for code that recovers from a fault at the instruction.
    FindFixup { ip: usize },
    /// Go on at that code.
    JumpTo { ip: usize },
    /// Save the registers of the guest and go to the interrupt callback, which
    /// restores the base of its segment.
    Interrupt,
    /// Save the registers of the guest, put the record of the exception on the
    /// host's stack at `rdx`, and go to the exception callback with these
    /// registers.
    HandleException { rsp: usize, rbp: usize, rcx: usize, rdx: usize },
}

/// An exception of the host, and the thread that it stopped.
#[derive(Clone, Copy, Debug, PartialEq, Eq, Structural)]
pub struct HostException {
    pub code: i32,
    pub ip: usize,
    /// Whether the thread is managed, and whether it is in its guest.
    pub managed: bool,
    pub in_guest: bool,
    /// The stack of the host, the word on its top, and the frame that goes
    /// with it.
    pub host_sp: usize,
    pub host_top: usize,
    pub host_bp: usize,
    /// The base of the guest's segment, as it is and as it should be.
    pub fs_base: usize,
    pub wanted_fs_base: usize,
}

impl HostException {
    /// A thread that is in its guest has left an aligned stack, with room for a
    /// record.
    pub open spec fn wf(self) -> bool {
        self.managed && self.in_guest ==> self.host_sp >= EXCEPTION_RECORD_SIZE && self.host_sp
            % 8 == 0
    }

    /// What is done with the exception first.
    pub open spec fn first(self) -> VectoredAction {
        if !self.managed {
            VectoredAction::ContinueSearch
        } else if !self.in_guest {
            if self.code == EXCEPTION_ACCESS_VIOLATION {
                VectoredAction::FindFixup { ip: self.ip }
            } else {
                VectoredAction::ContinueSearch
            }
        } else if self.code == EXCEPTION_ACCESS_VIOLATION && self.fs_base == 0
            && self.wanted_fs_base != 0 {
            VectoredAction::Interrupt
        } else {
            let record = self.host_sp - EXCEPTION_RECORD_SIZE;
            VectoredAction::HandleException {
                rsp: (record - record % 16) as usize,
                rbp: self.host_bp,
                rcx: self.host_top,
                rdx: record as usize,
            }
        }
    }

    /// What is done with the exception first. A thread that is stopped in its
    /// guest has left it.
    pub fn vectored_exception_handler(&mut self) -> (action: VectoredAction)
        requires
            old(self).wf(),
        ensures
            action == old(self).first(),
            action is HandleException || action is Interrupt ==> old(self).in_guest,
            action is HandleException || action is Interrupt ==> !final(self).in_guest,
            *final(self) == if old(self).managed {
                (HostException { in_guest: false, ..*old(self) })
            } else {
                *old(self)
            },
    {
        if !self.managed {
            return VectoredAction::ContinueSearch;
        }
        if !self.in_guest {
            return if self.code == EXCEPTION_ACCESS_VIOLATION {
                VectoredAction::FindFixup { ip: self.ip }
            } else {
                VectoredAction::ContinueSearch
            };
        }
        self.in_guest = false;
        if self.code == EXCEPTION_ACCESS_VIOLATION && self.fs_base == 0 && self.wanted_fs_base
            != 0 {
            return VectoredAction::Interrupt;
        }
        let record: usize = self.host_sp - EXCEPTION_RECORD_SIZE;
        VectoredAction::HandleException {
            rsp: record - record % 16,
            rbp: self.host_bp,
            rcx: self.host_top,
            rdx: record,
        }
    }

    /// What is done once it is known whether there is code that recovers.
    pub fn after_fixup(fixup: Option<usize>) -> (action: VectoredAction)
        ensures
            action == match fixup {
                Some(ip) => (VectoredAction::JumpTo { ip }),
                None => VectoredAction::ContinueSearch,
            },
    {
        match fixup {
            Some(ip) => VectoredAction::JumpTo { ip },
            None => VectoredAction::ContinueSearch,
        }
    }
}

/// The stack on which an exception is handled is aligned and lies below the
/// record, which is aligned too and lies below what the host has on its stack.
pub proof fn record_is_kept_off_the_stack(e: HostException)
    requires
        e.wf(),
    ensures
        e.first() matches VectoredAction::HandleException { rsp, rdx, .. } ==> rsp <= rdx && rsp
            % 16 == 0 && rdx % 8 == 0 && rdx + EXCEPTION_RECORD_SIZE == e.host_sp,
{
    if e.managed && e.in_guest {
        let record = e.host_sp - EXCEPTION_RECORD_SIZE;
        aligned_below(record);
        assert(record % 8 == 0);
    }
}

/// What is left of a number without its rest is a multiple.
proof fn aligned_below(x: int)
    ensures
        (x - x % 16) % 16 == 0,
{
    vstd::arithmetic::div_mod::lemma_fundamental_div_mod(x, 16);
    vstd::arithmetic::div_mod::lemma_mod_multiples_basic(x / 16, 16);
}

/// Exceptions outside a guest are left to the code that they happened in: the
/// thread goes on where that code can recover, or other handlers see them. A
/// guest's exceptions always reach the shim, with the host's own stack and frame,
/// but for the one that only shows that the base of its segment was lost.
pub proof fn guest_exceptions_reach_the_shim(e: HostException)
    requires
        e.wf(),
    ensures
        e.managed && e.in_guest <==> e.first() is HandleException || e.first() is Interrupt,
        e.first() matches VectoredAction::FindFixup { ip } ==> ip == e.ip && e.code
            == EXCEPTION_ACCESS_VIOLATION,
        e.managed && !e.in_guest && e.code == EXCEPTION_ACCESS_VIOLATION ==> e.first() is FindFixup,
        e.first() is Interrupt ==> e.code == EXCEPTION_ACCESS_VIOLATION && e.fs_base
            != e.wanted_fs_base && e.fs_base == 0,
        e.first() is HandleException && e.code == EXCEPTION_ACCESS_VIOLATION && e.fs_base == 0
            ==> e.wanted_fs_base == 0,
        e.first() matches VectoredAction::HandleException { rbp, rcx, .. } ==> rbp == e.host_bp
            && rcx == e.host_top,
        !(e.first() is JumpTo),
{
}

/// Whether the shim hears of an interrupt: not where the thread was only sent
/// to the callback to have the base of its segment restored.
pub fn interrupt_handler(interrupted: bool) -> (operation: Option<ContinueOperation>)
    ensures
        operation == if interrupted {
            None
        } else {
            Some(ContinueOperation::Resume)
        },
{
    if interrupted {
        None
    } else {
        Some(ContinueOperation::Resume)
    }
}

} // verus!
