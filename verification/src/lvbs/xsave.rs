//! Areas in which the vector state of the normal and the secure world is saved.

use vstd::prelude::*;

use crate::lvbs::asm_variables::PerCpuVariablesAsm;
use crate::lvbs::per_cpu::{VTL1_XSAVE_AREA_SIZE, VTL1_XSAVE_MASK, XSAVE_ALIGNMENT};

verus! {

/// Memory that is aligned as the processor needs it for vector state.
#[verifier::external_body]
#[derive(Debug)]
pub struct AlignedArea {
    bytes: aligned_vec::AVec<u8, aligned_vec::ConstAlign<64>>,
}

/// What an area holds.
pub uninterp spec fn area_bytes(area: AlignedArea) -> Seq<u8>;

/// Calls `aligned_vec::AVec::__from_elem`, which is what `aligned_vec::avec!`
/// stands for. Claims that the area holds `len` zeros. The call needs a length
/// that can be allocated with its alignment.
#[verifier::external_body]
fn zeroed_area(len: usize) -> (area: AlignedArea)
    requires
        len <= max_area(),
    ensures
        area_bytes(area) == Seq::new(len as nat, |i: int| 0u8),
{
    AlignedArea { bytes: aligned_vec::AVec::__from_elem(0, 0u8, len) }
}

/// An area that is never given back, and where it is.
#[derive(Clone, Copy, Debug)]
pub struct PlacedArea {
    /// What it held when it was allocated, before the processor saves to it.
    pub bytes: &'static [u8],
    pub address: usize,
}

impl PlacedArea {
    /// The area is aligned, not at zero, and within the address space.
    pub open spec fn wf(self) -> bool {
        &&& self.address as int % XSAVE_ALIGNMENT as int == 0
        &&& self.address != 0
        &&& self.end() <= usize::MAX
    }

    /// The address past the area.
    pub open spec fn end(self) -> int {
        self.address + self.bytes@.len()
    }

    /// Whether the two areas share no byte.
    pub open spec fn is_apart_from(self, other: PlacedArea) -> bool {
        self.end() <= other.address || other.end() <= self.address
    }
}

/// The areas of a processor.
#[derive(Clone, Copy, Debug)]
pub struct XsaveAreas {
    pub vtl0: PlacedArea,
    pub vtl1_kernel: PlacedArea,
    pub vtl1_user: PlacedArea,
}

impl XsaveAreas {
    /// The areas are aligned, and no two of them share a byte.
    pub open spec fn wf(self) -> bool {
        &&& self.vtl0.wf()
        &&& self.vtl1_kernel.wf()
        &&& self.vtl1_user.wf()
        &&& self.vtl0.is_apart_from(self.vtl1_kernel)
        &&& self.vtl0.is_apart_from(self.vtl1_user)
        &&& self.vtl1_kernel.is_apart_from(self.vtl1_user)
    }
}

/// Calls `aligned_vec::AVec::into_boxed_slice` and leaks the box, then takes the
/// address with `as_ptr`. Claims that each area holds what it held before, that
/// its address is aligned to 64 bytes and not zero, and that the areas, all
/// owned at once when they are handed over, lie within the address space and
/// share no byte. Where they are otherwise is not said, as it differs from one
/// allocation to the next.
#[verifier::external_body]
fn leak_areas(
    vtl0: AlignedArea,
    vtl1_kernel: AlignedArea,
    vtl1_user: AlignedArea,
) -> (areas: XsaveAreas)
    ensures
        areas.vtl0.bytes@ == area_bytes(vtl0),
        areas.vtl1_kernel.bytes@ == area_bytes(vtl1_kernel),
        areas.vtl1_user.bytes@ == area_bytes(vtl1_user),
        areas.wf(),
{
    let vtl0: &'static [u8] = Box::leak(Box::new(vtl0.bytes.into_boxed_slice()));
    let kernel: &'static [u8] = Box::leak(Box::new(vtl1_kernel.bytes.into_boxed_slice()));
    let user: &'static [u8] = Box::leak(Box::new(vtl1_user.bytes.into_boxed_slice()));
    XsaveAreas {
        vtl0: PlacedArea { bytes: vtl0, address: vtl0.as_ptr().addr() },
        vtl1_kernel: PlacedArea { bytes: kernel, address: kernel.as_ptr().addr() },
        vtl1_user: PlacedArea { bytes: user, address: user.as_ptr().addr() },
    }
}

/// What the processor says of saving vector state.
#[derive(Clone, Copy, Debug, PartialEq, Eq, Structural)]
pub struct XsaveQuery {
    /// Whether it can save vector state, if it says so.
    pub has_xsave: Option<bool>,
    /// How many bytes the enabled state takes, if it says so.
    pub enabled_size: Option<u32>,
}

/// Calls `raw_cpuid::CpuId::get_feature_info` and `FeatureInfo::has_xsave`.
/// Claims nothing: the answer is that of the processor at hand.
#[verifier::external_body]
fn feature_has_xsave() -> (answer: Option<bool>) {
    raw_cpuid::CpuId::new().get_feature_info().map(|info| info.has_xsave())
}

/// Calls `raw_cpuid::CpuId::get_extended_state_info` and
/// `ExtendedStateInfo::xsave_area_size_enabled_features`. Claims nothing: the
/// answer is that of the processor at hand.
#[verifier::external_body]
fn enabled_area_size() -> (answer: Option<u32>) {
    raw_cpuid::CpuId::new().get_extended_state_info().map(
        |info| info.xsave_area_size_enabled_features(),
    )
}

/// Why the size of an area cannot be told.
#[derive(Clone, Copy, Debug, PartialEq, Eq, Structural)]
pub enum XsaveQueryFault {
    NoFeatureInfo,
    NotSupported,
    NoStateInfo,
    /// An area of that size cannot be allocated.
    TooLarge,
}

impl XsaveQueryFault {
    /// The fault in words.
    pub open spec fn text(self) -> Seq<char> {
        match self {
            XsaveQueryFault::NoFeatureInfo => "Failed to get cpuid feature info"@,
            XsaveQueryFault::NotSupported => "XSAVE is not supported"@,
            XsaveQueryFault::NoStateInfo => "Failed to get cpuid extended state info"@,
            XsaveQueryFault::TooLarge => "capacity overflow"@,
        }
    }

    /// The fault in words.
    pub fn message(self) -> (message: &'static str)
        ensures
            message@ == self.text(),
    {
        match self {
            XsaveQueryFault::NoFeatureInfo => "Failed to get cpuid feature info",
            XsaveQueryFault::NotSupported => "XSAVE is not supported",
            XsaveQueryFault::NoStateInfo => "Failed to get cpuid extended state info",
            XsaveQueryFault::TooLarge => "capacity overflow",
        }
    }
}

impl XsaveQuery {
    /// The size of an area for the enabled state, from what the processor says.
    pub open spec fn told(self) -> Result<usize, XsaveQueryFault> {
        match (self.has_xsave, self.enabled_size) {
            (None, _) => Err(XsaveQueryFault::NoFeatureInfo),
            (Some(false), _) => Err(XsaveQueryFault::NotSupported),
            (Some(true), None) => Err(XsaveQueryFault::NoStateInfo),
            (Some(true), Some(n)) => Ok(n as usize),
        }
    }

    /// The size of an area for the enabled state, from what the processor says.
    pub fn area_size(self) -> (size: Result<usize, XsaveQueryFault>)
        ensures
            size == self.told(),
    {
        match self.has_xsave {
            None => Err(XsaveQueryFault::NoFeatureInfo),
            Some(false) => Err(XsaveQueryFault::NotSupported),
            Some(true) => match self.enabled_size {
                None => Err(XsaveQueryFault::NoStateInfo),
                Some(n) => Ok(n as usize),
            },
        }
    }
}

/// The size of an area for the state that is enabled on the processor at hand:
/// what follows from its answers, whatever these are.
pub fn get_xsave_area_size() -> (size: Result<usize, XsaveQueryFault>)
    ensures
        exists|query: XsaveQuery| size == #[trigger] query.told(),
        size matches Ok(n) ==> n <= u32::MAX,
{
    let query = XsaveQuery {
        has_xsave: feature_has_xsave(),
        enabled_size: enabled_area_size(),
    };
    query.area_size()
}

/// Whether the normal world saves all that the secure world does.
pub open spec fn covers_vtl1(vtl0_mask: u64) -> bool {
    VTL1_XSAVE_MASK & !vtl0_mask == 0
}

/// Whether the normal world saves all that the secure world does. The areas of
/// a processor can be allocated only then.
pub fn mask_covers_vtl1(vtl0_mask: u64) -> (covered: bool)
    ensures
        covered == covers_vtl1(vtl0_mask),
{
    VTL1_XSAVE_MASK & !vtl0_mask == 0
}

/// The most that can be allocated with the alignment of an area.
pub open spec fn max_area() -> int {
    isize::MAX - 63
}

/// The variables of a processor, with where its areas are and what is saved in
/// them.
pub open spec fn with_areas(
    before: PerCpuVariablesAsm,
    areas: XsaveAreas,
    vtl0_mask: u64,
) -> PerCpuVariablesAsm {
    PerCpuVariablesAsm {
        vtl0_xsave_area_addr: areas.vtl0.address,
        vtl0_xsave_mask_lo: (vtl0_mask as int % 0x1_0000_0000) as u32,
        vtl0_xsave_mask_hi: (vtl0_mask as int / 0x1_0000_0000) as u32,
        vtl1_kernel_xsave_area_addr: areas.vtl1_kernel.address,
        vtl1_user_xsave_area_addr: areas.vtl1_user.address,
        vtl1_xsave_mask_lo: VTL1_XSAVE_MASK as u32,
        vtl1_xsave_mask_hi: 0,
        ..before
    }
}

/// Sets down where the areas of a processor are and what is saved in them.
pub fn note_areas(vars: &mut PerCpuVariablesAsm, areas: &XsaveAreas, vtl0_mask: u64)
    ensures
        *final(vars) == with_areas(*old(vars), *areas, vtl0_mask),
        final(vars).vtl0_mask() == vtl0_mask,
        final(vars).vtl1_mask() == VTL1_XSAVE_MASK,
{
    vars.set_vtl0_xsave_area_addr(areas.vtl0.address);
    vars.set_vtl0_xsave_mask(vtl0_mask);
    vars.set_vtl1_kernel_xsave_area_addr(areas.vtl1_kernel.address);
    vars.set_vtl1_user_xsave_area_addr(areas.vtl1_user.address);
    vars.set_vtl1_xsave_mask(VTL1_XSAVE_MASK);
}

/// Whether the areas, all zero and apart from each other, are those of a
/// processor whose variables were `before`: they say where each area is and
/// what is saved in it. Nothing else has changed.
pub open spec fn has_areas(
    vars: PerCpuVariablesAsm,
    before: PerCpuVariablesAsm,
    areas: XsaveAreas,
    vtl0_mask: u64,
    vtl0_size: int,
) -> bool {
    &&& areas.wf()
    &&& areas.vtl0.bytes@ == Seq::new(vtl0_size as nat, |i: int| 0u8)
    &&& areas.vtl1_kernel.bytes@ == Seq::new(VTL1_XSAVE_AREA_SIZE as nat, |i: int| 0u8)
    &&& areas.vtl1_user.bytes@ == Seq::new(VTL1_XSAVE_AREA_SIZE as nat, |i: int| 0u8)
    &&& vars.vtl0_xsave_area_addr == areas.vtl0.address
    &&& vars.vtl1_kernel_xsave_area_addr == areas.vtl1_kernel.address
    &&& vars.vtl1_user_xsave_area_addr == areas.vtl1_user.address
    &&& vars.vtl0_mask() == vtl0_mask
    &&& vars.vtl1_mask() == VTL1_XSAVE_MASK
    &&& vars == with_areas(before, areas, vtl0_mask)
}

/// Allocates the areas of a processor that needs so many bytes for the enabled
/// state, and sets down where they are and what is saved in them. They are
/// never given back.
pub fn allocate_areas(
    vars: &mut PerCpuVariablesAsm,
    vtl0_mask: u64,
    vtl0_size: usize,
) -> (areas: XsaveAreas)
    requires
        old(vars).vtl1_kernel_xsave_area_addr == 0,
        covers_vtl1(vtl0_mask),
        vtl0_size <= max_area(),
    ensures
        has_areas(*final(vars), *old(vars), areas, vtl0_mask, vtl0_size as int),
{
    let vtl0 = zeroed_area(vtl0_size);
    let vtl1_kernel = zeroed_area(VTL1_XSAVE_AREA_SIZE);
    let vtl1_user = zeroed_area(VTL1_XSAVE_AREA_SIZE);
    let areas = leak_areas(vtl0, vtl1_kernel, vtl1_user);
    note_areas(vars, &areas, vtl0_mask);
    areas
}

/// The areas of a processor cannot be allocated once more: its variables say
/// that they are there.
pub proof fn areas_are_allocated_once(
    vars: PerCpuVariablesAsm,
    before: PerCpuVariablesAsm,
    areas: XsaveAreas,
    vtl0_mask: u64,
    vtl0_size: int,
)
    requires
        has_areas(vars, before, areas, vtl0_mask, vtl0_size),
    ensures
        vars.vtl1_kernel_xsave_area_addr != 0,
{
}

/// Whether this is what comes of allocating the areas of a processor that told
/// the size, or why it did not: its fault is passed on, and nothing changes
/// where an area cannot be allocated.
pub open spec fn allocates(
    areas: Result<XsaveAreas, XsaveQueryFault>,
    vars: PerCpuVariablesAsm,
    before: PerCpuVariablesAsm,
    vtl0_mask: u64,
    told: Result<usize, XsaveQueryFault>,
) -> bool {
    match told {
        Ok(size) => if size <= max_area() {
            areas matches Ok(a) && has_areas(vars, before, a, vtl0_mask, size as int)
        } else {
            areas matches Err(fault) && fault is TooLarge && vars == before
        },
        Err(e) => areas matches Err(fault) && fault == e && vars == before,
    }
}

/// Allocates the areas of a processor that told the size for the enabled state,
/// or why it did not.
pub fn allocate_told(
    vars: &mut PerCpuVariablesAsm,
    vtl0_mask: u64,
    told: Result<usize, XsaveQueryFault>,
) -> (areas: Result<XsaveAreas, XsaveQueryFault>)
    requires
        old(vars).vtl1_kernel_xsave_area_addr == 0,
        covers_vtl1(vtl0_mask),
    ensures
        allocates(areas, *final(vars), *old(vars), vtl0_mask, told),
{
    match told {
        Ok(size) => {
            if size > isize::MAX as usize - 63 {
                return Err(XsaveQueryFault::TooLarge);
            }
            Ok(allocate_areas(vars, vtl0_mask, size))
        },
        Err(fault) => Err(fault),
    }
}

/// Allocates the areas of the processor at hand, unless it cannot tell how many
/// bytes the enabled state takes.
pub fn allocate_xsave_area(vars: &mut PerCpuVariablesAsm, vtl0_mask: u64) -> (areas: Result<
    XsaveAreas,
    XsaveQueryFault,
>)
    requires
        old(vars).vtl1_kernel_xsave_area_addr == 0,
        covers_vtl1(vtl0_mask),
    ensures
        exists|query: XsaveQuery|
            allocates(areas, *final(vars), *old(vars), vtl0_mask, #[trigger] query.told()),
{
    let told = get_xsave_area_size();
    allocate_told(vars, vtl0_mask, told)
}

/// The size of an area is what the processor tells, and is known only of one that
/// says that it can save vector state.
pub proof fn sizes_come_from_the_processor(query: XsaveQuery)
    ensures
        query.told() matches Ok(n) ==> query.has_xsave == Some(true) && (
        query.enabled_size matches Some(size) && n == size),
        query.told() is Ok <==> query.has_xsave == Some(true) && query.enabled_size is Some,
        query.told() matches Err(fault) ==> match fault {
            XsaveQueryFault::NoFeatureInfo => query.has_xsave is None,
            XsaveQueryFault::NotSupported => query.has_xsave == Some(false),
            XsaveQueryFault::NoStateInfo => query.has_xsave == Some(true)
                && query.enabled_size is None,
            XsaveQueryFault::TooLarge => false,
        },
{
}

/// The variables of a processor lead to three areas that are aligned, apart from
/// each other, and blank, the one for the normal world large enough for the state
/// that is enabled. None of its other variables changes.
pub proof fn variables_lead_to_the_areas(
    vars: PerCpuVariablesAsm,
    before: PerCpuVariablesAsm,
    areas: XsaveAreas,
    vtl0_mask: u64,
    vtl0_size: int,
    i: int,
)
    requires
        has_areas(vars, before, areas, vtl0_mask, vtl0_size),
        0 <= i < vtl0_size,
    ensures
        vars.vtl0_xsave_area_addr % 64 == 0,
        vars.vtl1_kernel_xsave_area_addr % 64 == 0,
        vars.vtl1_user_xsave_area_addr % 64 == 0,
        vars.vtl0_xsave_area_addr != vars.vtl1_kernel_xsave_area_addr,
        vars.vtl0_xsave_area_addr != vars.vtl1_user_xsave_area_addr,
        vars.vtl1_kernel_xsave_area_addr != vars.vtl1_user_xsave_area_addr,
        areas.vtl0.bytes@.len() == vtl0_size,
        areas.vtl0.bytes@[i] == 0,
        vars.vtl0_xsave_mask_hi * 0x1_0000_0000 + vars.vtl0_xsave_mask_lo == vtl0_mask,
        vars.kernel_stack_ptr == before.kernel_stack_ptr,
        vars.double_fault_stack_ptr == before.double_fault_stack_ptr,
        vars.exception_stack_ptr == before.exception_stack_ptr,
        vars.vtl_return_addr == before.vtl_return_addr,
        vars.vtl0_state_top_addr == before.vtl0_state_top_addr,
{
    assert(areas.vtl1_kernel.bytes@.len() == VTL1_XSAVE_AREA_SIZE);
    assert(areas.vtl1_user.bytes@.len() == VTL1_XSAVE_AREA_SIZE);
}

/// The mask of enabled vector state, from the two halves in which the
/// processor gives it.
pub fn xcr0(eax: u32, edx: u32) -> (mask: u64)
    ensures
        mask == edx * 0x1_0000_0000 + eax,
{
    edx as u64 * 0x1_0000_0000 + eax as u64
}

} // verus!
