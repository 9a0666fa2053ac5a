//! Variables, stacks and communication pages of a processor.

use vstd::prelude::*;
use vstd::string::StringExecFns;

use crate::arith::PAGE_SIZE;
use crate::lvbs::asm_variables::PerCpuVariablesAsm;
use crate::text::{decimal, decimal_digits};

verus! {

pub const DOUBLE_FAULT_STACK_SIZE: usize = 2 * PAGE_SIZE;

pub const EXCEPTION_STACK_SIZE: usize = PAGE_SIZE;

pub const KERNEL_STACK_SIZE: usize = 32 * PAGE_SIZE;

/// Offsets in the block of a processor: the assembly variables come first, then
/// the stacks, each pair with a page between that cannot be touched, then the
/// pages that are shared with the hypervisor, then the state of the normal
/// world.
pub const DOUBLE_FAULT_STACK: usize = PAGE_SIZE;

pub const EXCEPTION_STACK: usize = DOUBLE_FAULT_STACK + DOUBLE_FAULT_STACK_SIZE + PAGE_SIZE;

pub const KERNEL_STACK: usize = EXCEPTION_STACK + EXCEPTION_STACK_SIZE;

pub const HV_VP_ASSIST_PAGE: usize = KERNEL_STACK + KERNEL_STACK_SIZE + PAGE_SIZE;

pub const HV_SIMP_PAGE: usize = HV_VP_ASSIST_PAGE + PAGE_SIZE;

pub const HVCALL_INPUT: usize = HV_SIMP_PAGE + PAGE_SIZE;

pub const HVCALL_OUTPUT: usize = HVCALL_INPUT + PAGE_SIZE;

pub const VTL0_STATE: usize = HVCALL_OUTPUT + PAGE_SIZE;

/// Alignment of an area for vector state.
pub const XSAVE_ALIGNMENT: usize = 64;

/// The vector state that the secure world saves: that of the old
/// floating-point unit and of the basic vector registers.
pub const VTL1_XSAVE_MASK: u64 = 3;

/// Size of an area of the secure world.
pub const VTL1_XSAVE_AREA_SIZE: usize = 576;

/// Alignment of a stack pointer.
pub const STACK_ALIGNMENT: usize = 16;

/// The block of a processor at `base`.
#[derive(Clone, Copy, Debug, PartialEq, Eq, Structural)]
pub struct CpuBlock {
    pub base: u64,
}

impl CpuBlock {
    /// The block starts on a page and lies within the address space.
    pub open spec fn wf(self) -> bool {
        &&& self.base % 4096 == 0
        &&& self.base + VTL0_STATE + PAGE_SIZE <= u64::MAX
    }

    /// The last byte of the kernel stack.
    pub fn kernel_stack_top(&self) -> (top: u64)
        requires
            self.wf(),
        ensures
            top == self.base + KERNEL_STACK + KERNEL_STACK_SIZE - 1,
    {
        self.base + (KERNEL_STACK as u64 + (KERNEL_STACK_SIZE as u64 - 1))
    }

    /// The last byte of the stack for double faults.
    pub fn double_fault_stack_top(&self) -> (top: u64)
        requires
            self.wf(),
        ensures
            top == self.base + DOUBLE_FAULT_STACK + DOUBLE_FAULT_STACK_SIZE - 1,
    {
        self.base + (DOUBLE_FAULT_STACK as u64 + (DOUBLE_FAULT_STACK_SIZE as u64 - 1))
    }

    /// The last byte of the stack for exceptions.
    pub fn exception_stack_top(&self) -> (top: u64)
        requires
            self.wf(),
        ensures
            top == self.base + EXCEPTION_STACK + EXCEPTION_STACK_SIZE - 1,
    {
        self.base + (EXCEPTION_STACK as u64 + (EXCEPTION_STACK_SIZE as u64 - 1))
    }

    /// The address of the page by which the hypervisor assists the processor.
    pub fn hv_vp_assist_page_as_u64(&self) -> (page: u64)
        requires
            self.wf(),
        ensures
            page == self.base + HV_VP_ASSIST_PAGE,
            page % 4096 == 0,
    {
        self.base + HV_VP_ASSIST_PAGE as u64
    }

    /// The address of the page for the hypervisor's messages.
    pub fn hv_simp_page_as_u64(&self) -> (page: u64)
        requires
            self.wf(),
        ensures
            page == self.base + HV_SIMP_PAGE,
            page % 4096 == 0,
    {
        self.base + HV_SIMP_PAGE as u64
    }
}

/// The pages that are shared with the hypervisor start on pages.
pub proof fn shared_pages_are_aligned()
    ensures
        HV_VP_ASSIST_PAGE % PAGE_SIZE == 0,
        HV_SIMP_PAGE % PAGE_SIZE == 0,
        HVCALL_INPUT % PAGE_SIZE == 0,
        HVCALL_OUTPUT % PAGE_SIZE == 0,
{
}

/// The highest aligned stack pointer that does not lie past `top`.
pub open spec fn stack_pointer(top: int) -> int {
    top - top % 16
}

/// Sets the stack pointers of a processor, and where the state of its normal
/// world, of so many bytes, ends.
pub fn init_per_cpu_variables(vars: &mut PerCpuVariablesAsm, block: CpuBlock, state_size: usize)
    requires
        block.wf(),
        block.base + VTL0_STATE + state_size <= usize::MAX,
    ensures
        *final(vars) == (PerCpuVariablesAsm {
            kernel_stack_ptr: stack_pointer(
                block.base + KERNEL_STACK + KERNEL_STACK_SIZE - 1,
            ) as usize,
            double_fault_stack_ptr: stack_pointer(
                block.base + DOUBLE_FAULT_STACK + DOUBLE_FAULT_STACK_SIZE - 1,
            ) as usize,
            exception_stack_ptr: stack_pointer(
                block.base + EXCEPTION_STACK + EXCEPTION_STACK_SIZE - 1,
            ) as usize,
            vtl0_state_top_addr: (block.base + VTL0_STATE + state_size) as usize,
            ..*old(vars)
        }),
{
    let kernel_top: usize = block.kernel_stack_top() as usize;
    let double_fault_top: usize = block.double_fault_stack_top() as usize;
    let exception_top: usize = block.exception_stack_top() as usize;
    vars.set_kernel_stack_ptr(kernel_top - kernel_top % STACK_ALIGNMENT);
    vars.set_double_fault_stack_ptr(double_fault_top - double_fault_top % STACK_ALIGNMENT);
    vars.set_exception_stack_ptr(exception_top - exception_top % STACK_ALIGNMENT);
    vars.set_vtl0_state_top_addr(block.base as usize + VTL0_STATE + state_size);
}

/// Each stack pointer is aligned and lies within its own stack, near its top.
pub proof fn stack_pointers_stay_in_their_stacks(block: CpuBlock, start: int, size: int)
    requires
        block.wf(),
        (start == KERNEL_STACK && size == KERNEL_STACK_SIZE) || (start == DOUBLE_FAULT_STACK
            && size == DOUBLE_FAULT_STACK_SIZE) || (start == EXCEPTION_STACK && size
            == EXCEPTION_STACK_SIZE),
    ensures
        ({
            let sp = stack_pointer(block.base + start + size - 1);
            &&& sp % 16 == 0
            &&& block.base + start <= sp < block.base + start + size
            &&& block.base + start + size - sp <= 16
        }),
{
}

/// Why the variables of a processor cannot be found.
#[derive(Clone, Copy, Debug, PartialEq, Eq, Structural)]
pub enum GsFault {
    NotSet,
    NotCanonical,
}

impl GsFault {
    /// The fault in words.
    pub open spec fn text(self) -> Seq<char> {
        match self {
            GsFault::NotSet => "GSBASE not set. Call allocate_per_cpu_variables() first"@,
            GsFault::NotCanonical => "GS contains a non-canonical address"@,
        }
    }

    /// The fault in words.
    pub fn message(self) -> (message: &'static str)
        ensures
            message@ == self.text(),
    {
        match self {
            GsFault::NotSet => "GSBASE not set. Call allocate_per_cpu_variables() first",
            GsFault::NotCanonical => "GS contains a non-canonical address",
        }
    }
}

/// Whether the upper bits of an address are all copies of bit 47.
pub open spec fn canonical(addr: u64) -> bool {
    addr < 0x8000_0000_0000 || addr >= 0xffff_8000_0000_0000
}

/// Calls `x86_64::VirtAddr::try_new`. Claims that it accepts an address exactly
/// where bits 48 to 63 are copies of bit 47.
#[verifier::external_body]
fn is_canonical(addr: u64) -> (valid: bool)
    ensures
        valid == canonical(addr),
{
    x86_64::VirtAddr::try_new(addr).is_ok()
}

/// The address of the variables of a processor, from its segment base.
pub fn get_per_cpu_variables_ptr(gsbase: u64) -> (address: Result<u64, GsFault>)
    ensures
        address == if gsbase == 0 {
            Err::<u64, GsFault>(GsFault::NotSet)
        } else if !canonical(gsbase) {
            Err(GsFault::NotCanonical)
        } else {
            Ok(gsbase)
        },
        address matches Ok(a) ==> a == gsbase && a != 0 && (a < 0x8000_0000_0000 || a
            >= 0xffff_8000_0000_0000),
{
    if gsbase == 0 {
        Err(GsFault::NotSet)
    } else if !is_canonical(gsbase) {
        Err(GsFault::NotCanonical)
    } else {
        Ok(gsbase)
    }
}

/// The state of the normal world.
#[derive(Clone, Copy, Debug, PartialEq, Eq)]
pub struct VtlState {
    /// The register by which the secure world returns a value.
    pub r8: u64,
    /// The other registers.
    pub others: [u64; 16],
}

/// How many message slots there are.
pub const HV_SYNIC_SINT_COUNT: usize = 16;

/// A message of the hypervisor.
#[derive(Clone, Copy, Debug, PartialEq, Eq)]
pub struct HvMessage {
    /// Zero if there is none.
    pub message_type: u32,
    pub flags: u32,
    pub sender: u64,
    pub payload: [u64; 30],
}

impl HvMessage {
    /// Whether all of the message is zero.
    pub open spec fn is_blank(self) -> bool {
        &&& self.message_type == 0
        &&& self.flags == 0
        &&& self.sender == 0
        &&& forall|i: int| 0 <= i < 30 ==> #[trigger] self.payload@[i] == 0
    }
}

/// The number of a processor whose number is not known yet.
pub const VP_INDEX_UNKNOWN: u32 = 0xffff_ffff;

/// The number of a processor goes past those that are provided for.
#[derive(Clone, Copy, Debug, PartialEq, Eq, Structural)]
pub struct VpIndexFault {
    pub vp_index: u32,
}

impl VpIndexFault {
    /// The fault in words.
    pub fn message(self) -> (message: String)
        ensures
            message@ == "VP index "@ + decimal_digits(self.vp_index as nat)
                + " exceeds the configured processor mask"@,
    {
        let mut text = String::from_str("VP index ");
        text.append(decimal(self.vp_index as u64).as_str());
        text.append(" exceeds the configured processor mask");
        text
    }
}

/// The number of a processor: the one that is known, or else the lower half of
/// what its register holds, if it is one of `max_cores`.
pub open spec fn vp_index_of(known: u32, register: u64, max_cores: u32) -> Result<
    u32,
    VpIndexFault,
> {
    let read = (register as int % 0x1_0000_0000) as u32;
    if known != VP_INDEX_UNKNOWN {
        Ok(known)
    } else if read < max_cores {
        Ok(read)
    } else {
        Err(VpIndexFault { vp_index: read })
    }
}

/// Variables of a processor, with page tables of type `Table`.
#[derive(Debug)]
pub struct PerCpuVariables<Table> {
    /// Variables that assembly code reaches.
    pub words: PerCpuVariablesAsm,
    pub vtl0_state: VtlState,
    pub messages: [HvMessage; 16],
    pub vp_index: u32,
    pub preemption_timer_enabled: bool,
    pub preemption_armed: bool,
    pub preemption_timeout_killed_user: bool,
    /// The page table that is loaded, by its number; `None` for the base one.
    pub active_page_table: Option<(usize, Table)>,
}

impl<Table> PerCpuVariables<Table> {
    /// Variables of a processor that has just started: all zero, its number
    /// not known.
    pub fn allocate_per_cpu_variables() -> (vars: PerCpuVariables<Table>)
        ensures
            vars.words == PerCpuVariablesAsm::blank(),
            vars.vtl0_state.r8 == 0,
            forall|i: int| 0 <= i < 16 ==> #[trigger] vars.vtl0_state.others@[i] == 0,
            vars.vp_index == VP_INDEX_UNKNOWN,
            !vars.preemption_timer_enabled,
            !vars.preemption_armed,
            !vars.preemption_timeout_killed_user,
            vars.active_page_table is None,
            forall|i: int| 0 <= i < 16 ==> (#[trigger] vars.messages@[i]).is_blank(),
    {
        let none = HvMessage { message_type: 0, flags: 0, sender: 0, payload: [0; 30] };
        PerCpuVariables {
            words: PerCpuVariablesAsm::zeroed(),
            vtl0_state: VtlState { r8: 0, others: [0; 16] },
            messages: [none; 16],
            vp_index: VP_INDEX_UNKNOWN,
            preemption_timer_enabled: false,
            preemption_armed: false,
            preemption_timeout_killed_user: false,
            active_page_table: None,
        }
    }

    /// Sets the value that the normal world finds on return.
    pub fn set_vtl_return_value(&mut self, value: u64)
        ensures
            *final(self) == (PerCpuVariables {
                vtl0_state: VtlState { r8: value, ..old(self).vtl0_state },
                ..*old(self)
            }),
    {
        self.vtl0_state.r8 = value;
    }

    /// The number of the processor: the one that is known, or else the lower
    /// half of what its register holds, which is then known. There are
    /// `max_cores` numbers.
    pub fn vp_index(&mut self, register: u64, max_cores: u32) -> (index: Result<u32, VpIndexFault>)
        ensures
            index == vp_index_of(old(self).vp_index, register, max_cores),
            *final(self) == (PerCpuVariables {
                vp_index: match index {
                    Ok(n) => n,
                    Err(_) => old(self).vp_index,
                },
                ..*old(self)
            }),
    {
        if self.vp_index != VP_INDEX_UNKNOWN {
            return Ok(self.vp_index);
        }
        let read: u32 = (register % 0x1_0000_0000) as u32;
        if read < max_cores {
            self.vp_index = read;
            Ok(read)
        } else {
            Err(VpIndexFault { vp_index: read })
        }
    }

    /// Takes the message from a slot, which is then free.
    pub fn take_sint_message(&mut self, slot: usize) -> (message: HvMessage)
        requires
            slot < HV_SYNIC_SINT_COUNT,
        ensures
            message == old(self).messages@[slot as int],
            final(self).messages@ == old(self).messages@.update(
                slot as int,
                (HvMessage { message_type: 0, ..message }),
            ),
            *final(self) == (PerCpuVariables { messages: final(self).messages, ..*old(self) }),
    {
        let message = self.messages[slot];
        self.messages[slot] = HvMessage { message_type: 0, ..message };
        message
    }

    /// The page table that is loaded, if it has the number.
    pub fn active_page_table(&self, id: usize) -> (table: Option<&Table>)
        ensures
            match self.active_page_table {
                Some((own, loaded)) => if own == id {
                    table == Some(&loaded)
                } else {
                    table is None
                },
                None => table is None,
            },
    {
        match &self.active_page_table {
            Some((own, table)) => if *own == id {
                Some(table)
            } else {
                None
            },
            None => None,
        }
    }

    /// Sets the page table that is loaded. Returns the one that was.
    pub fn replace_active_page_table(&mut self, table: Option<(usize, Table)>) -> (previous: Option<
        (usize, Table),
    >)
        ensures
            previous == old(self).active_page_table,
            *final(self) == (PerCpuVariables { active_page_table: table, ..*old(self) }),
    {
        let mut other = table;
        core::mem::swap(&mut self.active_page_table, &mut other);
        other
    }
}

/// The number of a processor does not change once it was asked for, whatever
/// its register holds later.
pub proof fn vp_index_is_stable(known: u32, register: u64, later: u64, max_cores: u32)
    requires
        vp_index_of(known, register, max_cores) is Ok,
    ensures
        ({
            let first = vp_index_of(known, register, max_cores);
            vp_index_of(first->Ok_0, later, max_cores) == first
        }),
{
}

/// A processor that does not know its number yet has the one in the lower half of
/// its register, which has to be one of those provided for; the upper half does
/// not count. One that does keeps it.
pub proof fn vp_index_is_that_of_the_register(known: u32, low: u32, high: u32, max_cores: u32)
    ensures
        ({
            let register = (high * 0x1_0000_0000 + low) as u64;
            let index = vp_index_of(known, register, max_cores);
            &&& known == VP_INDEX_UNKNOWN ==> (index is Ok <==> low < max_cores)
            &&& known == VP_INDEX_UNKNOWN && low < max_cores ==> index == Ok::<u32, VpIndexFault>(
                low,
            )
            &&& index matches Err(fault) ==> fault.vp_index == low && known == VP_INDEX_UNKNOWN
            &&& known != VP_INDEX_UNKNOWN ==> index == Ok::<u32, VpIndexFault>(known)
        }),
{
}

} // verus!
