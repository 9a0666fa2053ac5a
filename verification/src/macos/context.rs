//! The registers of a guest, as a signal of the host finds and leaves them.

use vstd::prelude::*;

use crate::arith::wrap_add;

verus! {

/// Condition flags.
pub const PSR_NZCV_MASK: u64 = 0xf000_0000;

/// Whether speculative stores are safe.
pub const PSR_SSBS_BIT: u64 = 0x1000;

/// Whether timing does not depend on data.
pub const PSR_DIT_BIT: u64 = 0x100_0000;

/// The bits of the processor state that a guest may have as it likes.
pub const SAFE_USER_PSTATE: u64 = 0xf100_1000;

/// The number of a syscall that is none.
pub const NO_SYSCALL: i32 = -1;

/// Registers of a guest.
#[derive(Clone, Copy, Debug, PartialEq, Eq)]
pub struct PtRegs {
    pub regs: [usize; 31],
    pub sp: usize,
    pub pc: usize,
    pub pstate: u64,
    pub orig_x0: usize,
    pub syscallno: i32,
}

/// Vector registers of a guest.
#[derive(Clone, Copy, Debug, PartialEq, Eq)]
pub struct GuestVectorState {
    pub registers: [u128; 32],
    pub fpsr: u32,
    pub fpcr: u32,
}

/// Registers of a thread, as the host keeps them while a signal is handled.
#[derive(Clone, Copy, Debug, PartialEq, Eq)]
pub struct MachineContext {
    pub x: [u64; 29],
    pub fp: u64,
    pub lr: u64,
    pub sp: u64,
    pub pc: u64,
    pub cpsr: u32,
    pub v: [u128; 32],
    pub fpsr: u32,
    pub fpcr: u32,
}

/// Whether the registers of a guest are those of its thread, but for x18, which
/// the host has for itself, and without what a guest may not have of the
/// processor state.
pub open spec fn captures(
    regs: PtRegs,
    vector: GuestVectorState,
    mc: MachineContext,
    x18: usize,
) -> bool {
    &&& forall|i: int| 0 <= i < 29 && i != 18 ==> #[trigger] regs.regs@[i] == mc.x@[i] as usize
    &&& regs.regs@[18] == x18
    &&& regs.regs@[29] == mc.fp as usize
    &&& regs.regs@[30] == mc.lr as usize
    &&& regs.sp == mc.sp as usize
    &&& regs.pc == mc.pc as usize
    &&& regs.pstate == mc.cpsr as u64 & SAFE_USER_PSTATE
    &&& regs.orig_x0 == regs.regs@[0]
    &&& regs.syscallno == NO_SYSCALL
    &&& vector.registers@ == mc.v@
    &&& vector.fpsr == mc.fpsr
    &&& vector.fpcr == mc.fpcr
}

/// Whether the registers of a thread are those of its guest, but for x18, which
/// stays, and without what a guest may not have of the processor state.
pub open spec fn restores(
    mc: MachineContext,
    before: MachineContext,
    regs: PtRegs,
    vector: GuestVectorState,
) -> bool {
    &&& forall|i: int| 0 <= i < 29 && i != 18 ==> #[trigger] mc.x@[i] == regs.regs@[i] as u64
    &&& mc.x@[18] == before.x@[18]
    &&& mc.fp == regs.regs@[29] as u64
    &&& mc.lr == regs.regs@[30] as u64
    &&& mc.sp == regs.sp as u64
    &&& mc.pc == regs.pc as u64
    &&& mc.cpsr == (regs.pstate & SAFE_USER_PSTATE) as u32
    &&& mc.v@ == vector.registers@
    &&& mc.fpsr == vector.fpsr
    &&& mc.fpcr == vector.fpcr
}

/// Takes the registers of a guest from its thread.
pub fn copy_signal_context(
    regs: &mut PtRegs,
    vector: &mut GuestVectorState,
    mc: &MachineContext,
    x18: usize,
)
    ensures
        captures(*final(regs), *final(vector), *mc, x18),
{
    let mut i: usize = 0;
    while i < 29
        invariant
            i <= 29,
            forall|k: int| 0 <= k < i ==> #[trigger] regs.regs@[k] == mc.x@[k] as usize,
        decreases 29 - i,
    {
        regs.regs[i] = mc.x[i] as usize;
        i += 1;
    }
    regs.regs[18] = x18;
    regs.regs[29] = mc.fp as usize;
    regs.regs[30] = mc.lr as usize;
    regs.sp = mc.sp as usize;
    regs.pc = mc.pc as usize;
    regs.pstate = mc.cpsr as u64 & SAFE_USER_PSTATE;
    regs.orig_x0 = regs.regs[0];
    regs.syscallno = NO_SYSCALL;
    vector.registers = mc.v;
    vector.fpsr = mc.fpsr;
    vector.fpcr = mc.fpcr;
}

/// Gives a thread the registers of its guest. Returns x18 of the guest, which
/// has a slot of its own.
pub fn restore_signal_context(
    regs: &PtRegs,
    vector: &GuestVectorState,
    mc: &mut MachineContext,
) -> (x18: usize)
    ensures
        x18 == regs.regs@[18],
        restores(*final(mc), *old(mc), *regs, *vector),
{
    let mut i: usize = 0;
    while i < 29
        invariant
            i <= 29,
            forall|k: int| 0 <= k < i && k != 18 ==> #[trigger] mc.x@[k] == regs.regs@[k] as u64,
            mc.x@[18] == old(mc).x@[18],
        decreases 29 - i,
    {
        if i != 18 {
            mc.x[i] = regs.regs[i] as u64;
        }
        i += 1;
    }
    mc.fp = regs.regs[29] as u64;
    mc.lr = regs.regs[30] as u64;
    mc.sp = regs.sp as u64;
    mc.pc = regs.pc as u64;
    mc.cpsr = (regs.pstate & SAFE_USER_PSTATE) as u32;
    mc.v = vector.registers;
    mc.fpsr = vector.fpsr;
    mc.fpcr = vector.fpcr;
    regs.regs[18]
}

/// A guest that is stopped and resumed finds its registers as they were. Of the
/// processor state only the bits that a guest may have are left.
pub proof fn stopping_a_guest_loses_nothing(
    mc: MachineContext,
    regs: PtRegs,
    vector: GuestVectorState,
    x18: usize,
    resumed: MachineContext,
)
    requires
        usize::MAX == u64::MAX,
        captures(regs, vector, mc, x18),
        restores(resumed, mc, regs, vector),
    ensures
        resumed.x@ =~= mc.x@,
        resumed.fp == mc.fp,
        resumed.lr == mc.lr,
        resumed.sp == mc.sp,
        resumed.pc == mc.pc,
        resumed.cpsr == mc.cpsr & (SAFE_USER_PSTATE as u32),
        resumed.v@ == mc.v@,
        resumed.fpsr == mc.fpsr,
        resumed.fpcr == mc.fpcr,
        regs.regs@[18] == x18,
{
    let c = mc.cpsr;
    assert((((c as u64) & 0xf100_1000u64) & 0xf100_1000u64) as u32 == c & 0xf100_1000u32)
        by (bit_vector);
    assert forall|i: int| 0 <= i < 29 implies #[trigger] resumed.x@[i] == mc.x@[i] by {
        if i != 18 {
            assert(regs.regs@[i] == mc.x@[i] as usize);
        }
    }
}

/// A guest never runs with more of the processor state than it may have.
pub proof fn guests_run_with_safe_state(
    mc: MachineContext,
    before: MachineContext,
    regs: PtRegs,
    vector: GuestVectorState,
)
    requires
        restores(mc, before, regs, vector),
    ensures
        mc.cpsr & !(SAFE_USER_PSTATE as u32) == 0,
{
    let p = regs.pstate;
    assert(((p & 0xf100_1000u64) as u32) & !0xf100_1000u32 == 0) by (bit_vector);
}

/// The number with the 32 bits of `x` in two's complement.
pub open spec fn signed32(x: int) -> int {
    if x <= i32::MAX {
        x
    } else {
        x - 0x1_0000_0000
    }
}

impl PtRegs {
    /// Whether a syscall was taken from the frame that the guest's code left on
    /// the stack: its scratch register, the address it goes on at, and one that
    /// is not needed. Until it is carried out its result says that there is no
    /// such syscall.
    pub open spec fn takes_syscall(
        self,
        before: PtRegs,
        frame: Seq<usize>,
        frame_size: usize,
    ) -> bool {
        &&& forall|i: int|
            0 <= i < 31 && i != 0 && i != 16 ==> #[trigger] self.regs@[i] == before.regs@[i]
        &&& self.regs@[16] == frame[0]
        &&& self.pc == frame[1]
        &&& self.sp == wrap_add(before.sp, frame_size)
        &&& self.syscallno == signed32(before.regs@[8] as int % 0x1_0000_0000)
        &&& self.orig_x0 == before.regs@[0]
        &&& self.regs@[0] == usize::MAX - 37
        &&& self.pstate == before.pstate
    }

    /// Takes a syscall from the frame that the guest's code left on the stack.
    pub fn take_syscall(&mut self, frame: &[usize; 3], frame_size: usize)
        ensures
            final(self).takes_syscall(*old(self), frame@, frame_size),
    {
        self.regs[16] = frame[0];
        self.pc = frame[1];
        self.sp = self.sp.wrapping_add(frame_size);
        let low: u64 = self.regs[8] as u64 % 0x1_0000_0000;
        self.syscallno = if low <= i32::MAX as u64 {
            low as i32
        } else {
            -((u32::MAX as u64 - low) as i32) - 1
        };
        self.orig_x0 = self.regs[0];
        self.regs[0] = usize::MAX - 37;
    }
}

/// A guest that is resumed and stopped again has the registers that it was given,
/// in every place in which it had them, and counts as being in no syscall.
pub proof fn resuming_a_guest_loses_nothing(
    regs: PtRegs,
    vector: GuestVectorState,
    before: MachineContext,
    mc: MachineContext,
    later: PtRegs,
    later_vector: GuestVectorState,
)
    requires
        usize::MAX == u64::MAX,
        restores(mc, before, regs, vector),
        captures(later, later_vector, mc, regs.regs@[18]),
    ensures
        later.regs@ =~= regs.regs@,
        later.sp == regs.sp,
        later.pc == regs.pc,
        later.orig_x0 == regs.regs@[0],
        later.syscallno == -1,
        later_vector.registers@ == vector.registers@,
        later_vector.fpsr == vector.fpsr,
        later_vector.fpcr == vector.fpcr,
        mc.pc == regs.pc,
        mc.sp == regs.sp,
        mc.x@[18] == before.x@[18],
{
    assert forall|i: int| 0 <= i < 31 implies #[trigger] later.regs@[i] == regs.regs@[i] by {
        if i < 29 && i != 18 {
            assert(mc.x@[i] == regs.regs@[i] as u64);
        }
    }
}

/// A syscall is taken whole: its number is the one in the eighth register, all
/// its arguments are as the guest left them, the first beside the result, the
/// guest goes on behind the call with its scratch register and its stack as they
/// were before the frame was made, and until it is carried out its result is that
/// there is no such syscall.
pub proof fn syscalls_are_taken_whole(
    before: PtRegs,
    after: PtRegs,
    frame: Seq<usize>,
    frame_size: usize,
    i: int,
)
    requires
        after.takes_syscall(before, frame, frame_size),
        1 <= i <= 7,
    ensures
        after.regs@[i] == before.regs@[i],
        after.orig_x0 == before.regs@[0],
        after.regs@[0] + 38 == usize::MAX + 1,
        after.regs@[8] == before.regs@[8],
        before.regs@[8] <= i32::MAX ==> after.syscallno == before.regs@[8],
        (before.regs@[8] - after.syscallno) % 0x1_0000_0000 == 0,
        after.regs@[16] == frame[0],
        after.pc == frame[1],
        before.sp + frame_size <= usize::MAX ==> after.sp == before.sp + frame_size,
{
}

impl MachineContext {
    /// Sends the thread back to the host's code at `callback`, on the host's
    /// stack.
    pub fn set_signal_return(&mut self, callback: u64, host_sp: u64)
        requires
            host_sp + 16 <= u64::MAX,
        ensures
            *final(self) == (MachineContext {
                pc: callback,
                sp: host_sp,
                fp: (host_sp + 16) as u64,
                ..*old(self)
            }),
    {
        self.pc = callback;
        self.sp = host_sp;
        self.fp = host_sp + 16;
    }
}

/// The digit of a value below sixteen.
pub open spec fn hex_byte(d: int) -> u8 {
    if d < 10 {
        (0x30 + d) as u8
    } else {
        (0x61 + d - 10) as u8
    }
}

/// Sixteen to the power of `n`.
pub open spec fn pow16(n: nat) -> int
    decreases n,
{
    if n == 0 {
        1
    } else {
        16 * pow16((n - 1) as nat)
    }
}

/// The address in sixteen hexadecimal digits and a line feed, as it follows a
/// message that the process has to stop.
pub fn fatal_address(pc: u64) -> (text: [u8; 17])
    ensures
        text@.len() == 17,
        forall|i: int|
            0 <= i < 16 ==> #[trigger] text@[i] == hex_byte(
                pc as int / pow16((15 - i) as nat) % 16,
            ),
        text@[16] == 0x0a,
{
    let mut text: [u8; 17] = [0x0a; 17];
    let mut rest: u64 = pc;
    let mut i: usize = 16;
    proof {
        assert(pow16(0) == 1);
    }
    while i > 0
        invariant
            i <= 16,
            text@.len() == 17,
            text@[16] == 0x0a,
            rest == pc as int / pow16((16 - i) as nat),
            pow16((16 - i) as nat) > 0,
            forall|k: int|
                i <= k < 16 ==> #[trigger] text@[k] == hex_byte(
                    pc as int / pow16((15 - k) as nat) % 16,
                ),
        decreases i,
    {
        let d: u8 = (rest % 16) as u8;
        let ghost p = pow16((16 - i) as nat);
        text[i - 1] = if d < 10 {
            0x30 + d
        } else {
            0x61 + (d - 10)
        };
        proof {
            assert(text@[i - 1] == hex_byte(pc as int / pow16((15 - (i - 1)) as nat) % 16));
            assert(pow16((17 - i) as nat) == 16 * p);
            vstd::arithmetic::div_mod::lemma_div_denominator(pc as int, p, 16);
            assert(p * 16 == 16 * p) by (nonlinear_arith);
        }
        rest = rest / 16;
        i = i - 1;
    }
    text
}

/// The exit code of a process that has to stop.
pub fn fatal_exit_code() -> (code: i32)
    ensures
        code == 128 + crate::macos::signals::SIGABRT,
{
    128 + crate::macos::signals::SIGABRT
}

} // verus!
