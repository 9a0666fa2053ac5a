//! Variables of a processor that assembly code reaches by their offset.

use vstd::prelude::*;

use crate::arith::{ceil_to, ceil_to_is_least_multiple};
use crate::shim::entry::Exception;

verus! {

/// Size of a pointer-sized variable.
pub const WORD: usize = 8;

/// Variables of a processor. They lie one after the other in this order, each
/// aligned to its size, at the start of a page.
#[derive(Clone, Copy, Debug, PartialEq, Eq, Structural)]
pub struct PerCpuVariablesAsm {
    /// Initial kernel stack pointer, to which the stack is reset on a switch.
    pub kernel_stack_ptr: usize,
    /// Stack pointer for double faults.
    pub double_fault_stack_ptr: usize,
    /// Stack pointer for exceptions.
    pub exception_stack_ptr: usize,
    /// Return address of a switch that was called.
    pub vtl_return_addr: usize,
    /// Scratch pad.
    pub scratch: usize,
    /// Flags of the user at the entry of a syscall.
    pub user_rflags: usize,
    /// Address past the state of the normal world.
    pub vtl0_state_top_addr: usize,
    /// Current kernel stack pointer.
    pub cur_kernel_stack_ptr: usize,
    /// Current kernel base pointer.
    pub cur_kernel_base_ptr: usize,
    /// Address past the user's context.
    pub user_context_top_addr: usize,
    /// Address of the area for the vector state of the normal world.
    pub vtl0_xsave_area_addr: usize,
    /// Lower half of the mask of that area.
    pub vtl0_xsave_mask_lo: u32,
    /// Upper half of the mask of that area.
    pub vtl0_xsave_mask_hi: u32,
    /// Address of the area for the vector state of the kernel.
    pub vtl1_kernel_xsave_area_addr: usize,
    /// Address of the area for the vector state of the user.
    pub vtl1_user_xsave_area_addr: usize,
    /// Lower half of the mask of both areas.
    pub vtl1_xsave_mask_lo: u32,
    /// Upper half of the mask of both areas.
    pub vtl1_xsave_mask_hi: u32,
    /// Whether the kernel's vector state was saved, and restored after that.
    pub vtl1_kernel_xsaved: u8,
    /// Whether the user's vector state was saved, and restored after that.
    pub vtl1_user_xsaved: u8,
    /// Number of the last exception.
    pub exception_trapno: u8,
    /// Whether user code runs, or is being served.
    pub is_in_user: u8,
}

/// The sizes of the variables, in order.
pub open spec fn field_sizes() -> Seq<int> {
    seq![
        8int,
        8int,
        8int,
        8int,
        8int,
        8int,
        8int,
        8int,
        8int,
        8int,
        8int,
        4int,
        4int,
        8int,
        8int,
        4int,
        4int,
        1int,
        1int,
        1int,
        1int,
    ]
}

/// Where a variable lies: behind the one before it, aligned to its own size.
pub open spec fn field_offset(i: int) -> int
    decreases i,
{
    if i <= 0 {
        0
    } else {
        ceil_to(field_offset(i - 1) + field_sizes()[i - 1], field_sizes()[i])
    }
}

/// The offsets of all variables.
pub proof fn field_offsets()
    ensures
        field_offset(0) == 0,
        field_offset(1) == 8,
        field_offset(2) == 16,
        field_offset(3) == 24,
        field_offset(4) == 32,
        field_offset(5) == 40,
        field_offset(6) == 48,
        field_offset(7) == 56,
        field_offset(8) == 64,
        field_offset(9) == 72,
        field_offset(10) == 80,
        field_offset(11) == 88,
        field_offset(12) == 92,
        field_offset(13) == 96,
        field_offset(14) == 104,
        field_offset(15) == 112,
        field_offset(16) == 116,
        field_offset(17) == 120,
        field_offset(18) == 121,
        field_offset(19) == 122,
        field_offset(20) == 123,
{
    reveal_with_fuel(field_offset, 2);
    assert(field_offset(0) == 0);
    assert(ceil_to(8, 8) == 8);
    assert(field_offset(1) == 8);
    assert(ceil_to(16, 8) == 16);
    assert(field_offset(2) == 16);
    assert(ceil_to(24, 8) == 24);
    assert(field_offset(3) == 24);
    assert(ceil_to(32, 8) == 32);
    assert(field_offset(4) == 32);
    assert(ceil_to(40, 8) == 40);
    assert(field_offset(5) == 40);
    assert(ceil_to(48, 8) == 48);
    assert(field_offset(6) == 48);
    assert(ceil_to(56, 8) == 56);
    assert(field_offset(7) == 56);
    assert(ceil_to(64, 8) == 64);
    assert(field_offset(8) == 64);
    assert(ceil_to(72, 8) == 72);
    assert(field_offset(9) == 72);
    assert(ceil_to(80, 8) == 80);
    assert(field_offset(10) == 80);
    assert(ceil_to(88, 4) == 88);
    assert(field_offset(11) == 88);
    assert(ceil_to(92, 4) == 92);
    assert(field_offset(12) == 92);
    assert(ceil_to(96, 8) == 96);
    assert(field_offset(13) == 96);
    assert(ceil_to(104, 8) == 104);
    assert(field_offset(14) == 104);
    assert(ceil_to(112, 4) == 112);
    assert(field_offset(15) == 112);
    assert(ceil_to(116, 4) == 116);
    assert(field_offset(16) == 116);
    assert(ceil_to(120, 1) == 120);
    assert(field_offset(17) == 120);
    assert(ceil_to(121, 1) == 121);
    assert(field_offset(18) == 121);
    assert(ceil_to(122, 1) == 122);
    assert(field_offset(19) == 122);
    assert(ceil_to(123, 1) == 123);
    assert(field_offset(20) == 123);
}

/// The variables do not overlap, and all lie within the first 124 bytes of
/// their page.
pub proof fn fields_do_not_overlap(i: int, j: int)
    requires
        0 <= i < j < 21,
    ensures
        0 <= field_offset(i),
        field_offset(i) + field_sizes()[i] <= field_offset(j),
        field_offset(j) + field_sizes()[j] <= 124,
        field_offset(j) % field_sizes()[j] == 0,
{
    field_offsets();
    ceil_to_is_least_multiple(field_offset(j - 1) + field_sizes()[j - 1], field_sizes()[j]);
}

impl PerCpuVariablesAsm {
    /// All variables zero.
    pub open spec fn blank() -> PerCpuVariablesAsm {
        PerCpuVariablesAsm {
            kernel_stack_ptr: 0,
            double_fault_stack_ptr: 0,
            exception_stack_ptr: 0,
            vtl_return_addr: 0,
            scratch: 0,
            user_rflags: 0,
            vtl0_state_top_addr: 0,
            cur_kernel_stack_ptr: 0,
            cur_kernel_base_ptr: 0,
            user_context_top_addr: 0,
            vtl0_xsave_area_addr: 0,
            vtl0_xsave_mask_lo: 0,
            vtl0_xsave_mask_hi: 0,
            vtl1_kernel_xsave_area_addr: 0,
            vtl1_user_xsave_area_addr: 0,
            vtl1_xsave_mask_lo: 0,
            vtl1_xsave_mask_hi: 0,
            vtl1_kernel_xsaved: 0,
            vtl1_user_xsaved: 0,
            exception_trapno: 0,
            is_in_user: 0,
        }
    }

    /// All variables zero.
    pub fn zeroed() -> (vars: PerCpuVariablesAsm)
        ensures
            vars == PerCpuVariablesAsm::blank(),
    {
        PerCpuVariablesAsm {
            kernel_stack_ptr: 0,
            double_fault_stack_ptr: 0,
            exception_stack_ptr: 0,
            vtl_return_addr: 0,
            scratch: 0,
            user_rflags: 0,
            vtl0_state_top_addr: 0,
            cur_kernel_stack_ptr: 0,
            cur_kernel_base_ptr: 0,
            user_context_top_addr: 0,
            vtl0_xsave_area_addr: 0,
            vtl0_xsave_mask_lo: 0,
            vtl0_xsave_mask_hi: 0,
            vtl1_kernel_xsave_area_addr: 0,
            vtl1_user_xsave_area_addr: 0,
            vtl1_xsave_mask_lo: 0,
            vtl1_xsave_mask_hi: 0,
            vtl1_kernel_xsaved: 0,
            vtl1_user_xsaved: 0,
            exception_trapno: 0,
            is_in_user: 0,
        }
    }

    /// Sets the initial kernel stack pointer.
    pub fn set_kernel_stack_ptr(&mut self, sp: usize)
        ensures
            *final(self) == (PerCpuVariablesAsm { kernel_stack_ptr: sp, ..*old(self) }),
    {
        self.kernel_stack_ptr = sp;
    }

    /// Sets the stack pointer for double faults.
    pub fn set_double_fault_stack_ptr(&mut self, sp: usize)
        ensures
            *final(self) == (PerCpuVariablesAsm { double_fault_stack_ptr: sp, ..*old(self) }),
    {
        self.double_fault_stack_ptr = sp;
    }

    /// The stack pointer for double faults.
    pub fn get_double_fault_stack_ptr(&self) -> (value: usize)
        ensures
            value == self.double_fault_stack_ptr,
    {
        self.double_fault_stack_ptr
    }

    /// Sets the stack pointer for exceptions.
    pub fn set_exception_stack_ptr(&mut self, sp: usize)
        ensures
            *final(self) == (PerCpuVariablesAsm { exception_stack_ptr: sp, ..*old(self) }),
    {
        self.exception_stack_ptr = sp;
    }

    /// The stack pointer for exceptions.
    pub fn get_exception_stack_ptr(&self) -> (value: usize)
        ensures
            value == self.exception_stack_ptr,
    {
        self.exception_stack_ptr
    }

    /// Sets the return address of a switch.
    pub fn set_vtl_return_addr(&mut self, addr: usize)
        ensures
            *final(self) == (PerCpuVariablesAsm { vtl_return_addr: addr, ..*old(self) }),
    {
        self.vtl_return_addr = addr;
    }

    /// The return address of a switch.
    pub fn get_vtl_return_addr(&self) -> (value: usize)
        ensures
            value == self.vtl_return_addr,
    {
        self.vtl_return_addr
    }

    /// Sets the address past the state of the normal world.
    pub fn set_vtl0_state_top_addr(&mut self, addr: usize)
        ensures
            *final(self) == (PerCpuVariablesAsm { vtl0_state_top_addr: addr, ..*old(self) }),
    {
        self.vtl0_state_top_addr = addr;
    }

    /// Sets the address of the area of the normal world.
    pub fn set_vtl0_xsave_area_addr(&mut self, addr: usize)
        ensures
            *final(self) == (PerCpuVariablesAsm { vtl0_xsave_area_addr: addr, ..*old(self) }),
    {
        self.vtl0_xsave_area_addr = addr;
    }

    /// The mask of the areas of the normal world.
    pub open spec fn vtl0_mask(self) -> int {
        self.vtl0_xsave_mask_hi * 0x1_0000_0000 + self.vtl0_xsave_mask_lo
    }

    /// Sets the mask of the areas of the normal world, in two halves.
    pub fn set_vtl0_xsave_mask(&mut self, mask: u64)
        ensures
            final(self).vtl0_mask() == mask,
            *final(self) == (PerCpuVariablesAsm {
                vtl0_xsave_mask_lo: (mask as int % 0x1_0000_0000) as u32,
                vtl0_xsave_mask_hi: (mask as int / 0x1_0000_0000) as u32,
                ..*old(self)
            }),
    {
        self.vtl0_xsave_mask_lo = (mask % 0x1_0000_0000) as u32;
        self.vtl0_xsave_mask_hi = (mask / 0x1_0000_0000) as u32;
    }

    /// Sets the address of the kernel's area.
    pub fn set_vtl1_kernel_xsave_area_addr(&mut self, addr: usize)
        ensures
            *final(self) == (PerCpuVariablesAsm {
                vtl1_kernel_xsave_area_addr: addr,
                ..*old(self)
            }),
    {
        self.vtl1_kernel_xsave_area_addr = addr;
    }

    /// Sets the address of the user's area.
    pub fn set_vtl1_user_xsave_area_addr(&mut self, addr: usize)
        ensures
            *final(self) == (PerCpuVariablesAsm { vtl1_user_xsave_area_addr: addr, ..*old(self) }),
    {
        self.vtl1_user_xsave_area_addr = addr;
    }

    /// The mask of the areas of the secure world.
    pub open spec fn vtl1_mask(self) -> int {
        self.vtl1_xsave_mask_hi * 0x1_0000_0000 + self.vtl1_xsave_mask_lo
    }

    /// Sets the mask of the areas of the secure world, in two halves.
    pub fn set_vtl1_xsave_mask(&mut self, mask: u64)
        ensures
            final(self).vtl1_mask() == mask,
            *final(self) == (PerCpuVariablesAsm {
                vtl1_xsave_mask_lo: (mask as int % 0x1_0000_0000) as u32,
                vtl1_xsave_mask_hi: (mask as int / 0x1_0000_0000) as u32,
                ..*old(self)
            }),
    {
        self.vtl1_xsave_mask_lo = (mask % 0x1_0000_0000) as u32;
        self.vtl1_xsave_mask_hi = (mask / 0x1_0000_0000) as u32;
    }

    /// The offset of `kernel_stack_ptr`.
    pub fn kernel_stack_ptr_offset() -> (offset: usize)
        ensures
            offset == field_offset(0),
            offset == 0,
    {
        proof {
            field_offsets();
        }
        0
    }

    /// The offset of `double_fault_stack_ptr`.
    pub fn double_fault_stack_ptr_offset() -> (offset: usize)
        ensures
            offset == field_offset(1),
            offset == 8,
    {
        proof {
            field_offsets();
        }
        8
    }

    /// The offset of `exception_stack_ptr`.
    pub fn exception_stack_ptr_offset() -> (offset: usize)
        ensures
            offset == field_offset(2),
            offset == 16,
    {
        proof {
            field_offsets();
        }
        16
    }

    /// The offset of `vtl_return_addr`.
    pub fn vtl_return_addr_offset() -> (offset: usize)
        ensures
            offset == field_offset(3),
            offset == 24,
    {
        proof {
            field_offsets();
        }
        24
    }

    /// The offset of `scratch`.
    pub fn scratch_offset() -> (offset: usize)
        ensures
            offset == field_offset(4),
            offset == 32,
    {
        proof {
            field_offsets();
        }
        32
    }

    /// The offset of `user_rflags`.
    pub fn user_rflags_offset() -> (offset: usize)
        ensures
            offset == field_offset(5),
            offset == 40,
    {
        proof {
            field_offsets();
        }
        40
    }

    /// The offset of `vtl0_state_top_addr`.
    pub fn vtl0_state_top_addr_offset() -> (offset: usize)
        ensures
            offset == field_offset(6),
            offset == 48,
    {
        proof {
            field_offsets();
        }
        48
    }

    /// The offset of `cur_kernel_stack_ptr`.
    pub fn cur_kernel_stack_ptr_offset() -> (offset: usize)
        ensures
            offset == field_offset(7),
            offset == 56,
    {
        proof {
            field_offsets();
        }
        56
    }

    /// The offset of `cur_kernel_base_ptr`.
    pub fn cur_kernel_base_ptr_offset() -> (offset: usize)
        ensures
            offset == field_offset(8),
            offset == 64,
    {
        proof {
            field_offsets();
        }
        64
    }

    /// The offset of `user_context_top_addr`.
    pub fn user_context_top_addr_offset() -> (offset: usize)
        ensures
            offset == field_offset(9),
            offset == 72,
    {
        proof {
            field_offsets();
        }
        72
    }

    /// The offset of `vtl0_xsave_area_addr`.
    pub fn vtl0_xsave_area_addr_offset() -> (offset: usize)
        ensures
            offset == field_offset(10),
            offset == 80,
    {
        proof {
            field_offsets();
        }
        80
    }

    /// The offset of `vtl0_xsave_mask_lo`.
    pub fn vtl0_xsave_mask_lo_offset() -> (offset: usize)
        ensures
            offset == field_offset(11),
            offset == 88,
    {
        proof {
            field_offsets();
        }
        88
    }

    /// The offset of `vtl0_xsave_mask_hi`.
    pub fn vtl0_xsave_mask_hi_offset() -> (offset: usize)
        ensures
            offset == field_offset(12),
            offset == 92,
    {
        proof {
            field_offsets();
        }
        92
    }

    /// The offset of `vtl1_kernel_xsave_area_addr`.
    pub fn vtl1_kernel_xsave_area_addr_offset() -> (offset: usize)
        ensures
            offset == field_offset(13),
            offset == 96,
    {
        proof {
            field_offsets();
        }
        96
    }

    /// The offset of `vtl1_user_xsave_area_addr`.
    pub fn vtl1_user_xsave_area_addr_offset() -> (offset: usize)
        ensures
            offset == field_offset(14),
            offset == 104,
    {
        proof {
            field_offsets();
        }
        104
    }

    /// The offset of `vtl1_xsave_mask_lo`.
    pub fn vtl1_xsave_mask_lo_offset() -> (offset: usize)
        ensures
            offset == field_offset(15),
            offset == 112,
    {
        proof {
            field_offsets();
        }
        112
    }

    /// The offset of `vtl1_xsave_mask_hi`.
    pub fn vtl1_xsave_mask_hi_offset() -> (offset: usize)
        ensures
            offset == field_offset(16),
            offset == 116,
    {
        proof {
            field_offsets();
        }
        116
    }

    /// The offset of `vtl1_kernel_xsaved`.
    pub fn vtl1_kernel_xsaved_offset() -> (offset: usize)
        ensures
            offset == field_offset(17),
            offset == 120,
    {
        proof {
            field_offsets();
        }
        120
    }

    /// The offset of `vtl1_user_xsaved`.
    pub fn vtl1_user_xsaved_offset() -> (offset: usize)
        ensures
            offset == field_offset(18),
            offset == 121,
    {
        proof {
            field_offsets();
        }
        121
    }

    /// The offset of `exception_trapno`.
    pub fn exception_trapno_offset() -> (offset: usize)
        ensures
            offset == field_offset(19),
            offset == 122,
    {
        proof {
            field_offsets();
        }
        122
    }

    /// The offset of `is_in_user`.
    pub fn is_in_user_offset() -> (offset: usize)
        ensures
            offset == field_offset(20),
            offset == 123,
    {
        proof {
            field_offsets();
        }
        123
    }

    /// The last exception.
    pub fn get_exception(&self) -> (exception: Exception)
        ensures
            exception == (Exception { vector: self.exception_trapno }),
    {
        Exception { vector: self.exception_trapno }
    }

    /// The address past the user's context.
    pub fn get_user_context_top_addr(&self) -> (value: usize)
        ensures
            value == self.user_context_top_addr,
    {
        self.user_context_top_addr
    }

    /// Forgets that vector state was saved: nothing is restored before it is
    /// saved again.
    pub fn reset_vtl1_xsaved(&mut self)
        ensures
            *final(self) == (PerCpuVariablesAsm {
                vtl1_kernel_xsaved: 0,
                vtl1_user_xsaved: 0,
                ..*old(self)
            }),
    {
        self.vtl1_kernel_xsaved = 0;
        self.vtl1_user_xsaved = 0;
    }
}

} // verus!
