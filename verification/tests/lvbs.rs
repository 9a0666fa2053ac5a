//! Variables of a processor and the areas for its vector state.

use litebox::lvbs::asm_variables::PerCpuVariablesAsm;
use litebox::lvbs::per_cpu::{
    get_per_cpu_variables_ptr, init_per_cpu_variables, CpuBlock, GsFault, HvMessage,
    PerCpuVariables, VpIndexFault, DOUBLE_FAULT_STACK, EXCEPTION_STACK, HVCALL_INPUT,
    HVCALL_OUTPUT, HV_SIMP_PAGE, HV_VP_ASSIST_PAGE, KERNEL_STACK, KERNEL_STACK_SIZE,
    VP_INDEX_UNKNOWN, VTL0_STATE, VTL1_XSAVE_AREA_SIZE, VTL1_XSAVE_MASK,
};
use litebox::lvbs::xsave::{
    allocate_areas, allocate_told, allocate_xsave_area, get_xsave_area_size, mask_covers_vtl1,
    note_areas, xcr0, PlacedArea, XsaveAreas, XsaveQuery, XsaveQueryFault,
};

#[test]
fn variables_lie_where_assembly_code_expects_them() {
    let offsets = [
        PerCpuVariablesAsm::kernel_stack_ptr_offset(),
        PerCpuVariablesAsm::double_fault_stack_ptr_offset(),
        PerCpuVariablesAsm::exception_stack_ptr_offset(),
        PerCpuVariablesAsm::vtl_return_addr_offset(),
        PerCpuVariablesAsm::scratch_offset(),
        PerCpuVariablesAsm::user_rflags_offset(),
        PerCpuVariablesAsm::vtl0_state_top_addr_offset(),
        PerCpuVariablesAsm::cur_kernel_stack_ptr_offset(),
        PerCpuVariablesAsm::cur_kernel_base_ptr_offset(),
        PerCpuVariablesAsm::user_context_top_addr_offset(),
        PerCpuVariablesAsm::vtl0_xsave_area_addr_offset(),
        PerCpuVariablesAsm::vtl0_xsave_mask_lo_offset(),
        PerCpuVariablesAsm::vtl0_xsave_mask_hi_offset(),
        PerCpuVariablesAsm::vtl1_kernel_xsave_area_addr_offset(),
        PerCpuVariablesAsm::vtl1_user_xsave_area_addr_offset(),
        PerCpuVariablesAsm::vtl1_xsave_mask_lo_offset(),
        PerCpuVariablesAsm::vtl1_xsave_mask_hi_offset(),
        PerCpuVariablesAsm::vtl1_kernel_xsaved_offset(),
        PerCpuVariablesAsm::vtl1_user_xsaved_offset(),
        PerCpuVariablesAsm::exception_trapno_offset(),
        PerCpuVariablesAsm::is_in_user_offset(),
    ];
    assert_eq!(
        offsets,
        [
            0, 8, 16, 24, 32, 40, 48, 56, 64, 72, 80, 88, 92, 96, 104, 112, 116, 120, 121, 122, 123
        ]
    );
}

#[test]
fn variables_are_set_one_by_one() {
    let mut vars = PerCpuVariablesAsm::zeroed();
    vars.set_kernel_stack_ptr(1);
    vars.set_double_fault_stack_ptr(2);
    vars.set_exception_stack_ptr(3);
    vars.set_vtl_return_addr(4);
    vars.set_vtl0_state_top_addr(5);
    vars.set_vtl0_xsave_area_addr(6);
    vars.set_vtl0_xsave_mask(0x1_0000_0002);
    vars.set_vtl1_kernel_xsave_area_addr(7);
    vars.set_vtl1_user_xsave_area_addr(8);
    vars.set_vtl1_xsave_mask(0x3_0000_0004);
    assert_eq!(vars.kernel_stack_ptr, 1);
    assert_eq!(vars.get_double_fault_stack_ptr(), 2);
    assert_eq!(vars.get_exception_stack_ptr(), 3);
    assert_eq!(vars.get_vtl_return_addr(), 4);
    assert_eq!(vars.vtl0_state_top_addr, 5);
    assert_eq!(vars.vtl0_xsave_area_addr, 6);
    assert_eq!((vars.vtl0_xsave_mask_lo, vars.vtl0_xsave_mask_hi), (2, 1));
    assert_eq!(vars.vtl1_kernel_xsave_area_addr, 7);
    assert_eq!(vars.vtl1_user_xsave_area_addr, 8);
    assert_eq!((vars.vtl1_xsave_mask_lo, vars.vtl1_xsave_mask_hi), (4, 3));
    vars.vtl1_kernel_xsaved = 2;
    vars.vtl1_user_xsaved = 1;
    vars.reset_vtl1_xsaved();
    assert_eq!((vars.vtl1_kernel_xsaved, vars.vtl1_user_xsaved), (0, 0));
    vars.exception_trapno = 14;
    vars.user_context_top_addr = 99;
    assert_eq!(vars.get_exception().vector, 14);
    assert_eq!(vars.get_user_context_top_addr(), 99);
    assert_eq!((vars.scratch, vars.is_in_user), (0, 0));
}

#[test]
fn stack_pointers_are_aligned() {
    let mut vars = PerCpuVariablesAsm::zeroed();
    vars.scratch = 7;
    let block = CpuBlock {
        base: 0xffff_8000_0000_0000,
    };
    init_per_cpu_variables(&mut vars, block, 136);
    let base = block.base as usize;
    assert_eq!(
        vars.kernel_stack_ptr,
        base + KERNEL_STACK + KERNEL_STACK_SIZE - 16
    );
    assert_eq!(
        vars.double_fault_stack_ptr,
        base + DOUBLE_FAULT_STACK + 0x2000 - 16
    );
    assert_eq!(
        vars.exception_stack_ptr,
        base + EXCEPTION_STACK + 0x1000 - 16
    );
    assert_eq!(vars.vtl0_state_top_addr, base + VTL0_STATE + 136);
    assert_eq!(vars.scratch, 7);
    assert_eq!(
        block.hv_vp_assist_page_as_u64(),
        block.base + HV_VP_ASSIST_PAGE as u64
    );
    assert_eq!(block.hv_simp_page_as_u64() % 0x1000, 0);
    assert_eq!(HV_SIMP_PAGE, HV_VP_ASSIST_PAGE + 0x1000);
    assert_eq!(HVCALL_OUTPUT, HVCALL_INPUT + 0x1000);
}

#[test]
fn segment_bases_are_canonical() {
    assert_eq!(get_per_cpu_variables_ptr(0), Err(GsFault::NotSet));
    assert_eq!(
        get_per_cpu_variables_ptr(0x8000_0000_0000),
        Err(GsFault::NotCanonical)
    );
    assert_eq!(
        get_per_cpu_variables_ptr(0xffff_7fff_ffff_ffff),
        Err(GsFault::NotCanonical)
    );
    for base in [1, 0x7fff_ffff_ffff, 0xffff_8000_0000_0000, u64::MAX] {
        assert_eq!(get_per_cpu_variables_ptr(base), Ok(base));
    }
    assert_eq!(
        GsFault::NotCanonical.message(),
        "GS contains a non-canonical address"
    );
}

#[test]
fn processors_keep_their_number() {
    let mut vars: PerCpuVariables<u8> = PerCpuVariables::allocate_per_cpu_variables();
    assert_eq!(vars.vp_index, VP_INDEX_UNKNOWN);
    assert_eq!(
        vars.vp_index(0x5_0000_0040, 64),
        Err(VpIndexFault { vp_index: 64 })
    );
    assert_eq!(vars.vp_index(0x5_0000_0003, 64), Ok(3));
    assert_eq!(vars.vp_index(9, 64), Ok(3));
    assert_eq!(
        VpIndexFault { vp_index: 64 }.message(),
        "VP index 64 exceeds the configured processor mask"
    );
    vars.set_vtl_return_value(77);
    assert_eq!(vars.vtl0_state.r8, 77);
}

#[test]
fn messages_are_taken_from_their_slot() {
    let mut vars: PerCpuVariables<u8> = PerCpuVariables::allocate_per_cpu_variables();
    let message = HvMessage {
        message_type: 5,
        flags: 1,
        sender: 2,
        payload: [3; 30],
    };
    vars.messages[4] = message;
    vars.messages[5] = message;
    assert_eq!(vars.take_sint_message(4), message);
    assert_eq!(vars.messages[4].message_type, 0);
    assert_eq!(vars.messages[5].message_type, 5);
    assert_eq!(vars.take_sint_message(4).message_type, 0);
}

#[test]
fn page_tables_are_known_by_number() {
    let mut vars: PerCpuVariables<u8> = PerCpuVariables::allocate_per_cpu_variables();
    assert_eq!(vars.active_page_table(1), None);
    assert_eq!(vars.replace_active_page_table(Some((1, 10))), None);
    assert_eq!(vars.active_page_table(1), Some(&10));
    assert_eq!(vars.active_page_table(2), None);
    assert_eq!(
        vars.replace_active_page_table(Some((2, 20))),
        Some((1, 10))
    );
    assert_eq!(vars.replace_active_page_table(None), Some((2, 20)));
    assert_eq!(vars.active_page_table(2), None);
}

#[test]
fn areas_are_aligned_and_empty() {
    let mut vars = PerCpuVariablesAsm::zeroed();
    assert!(mask_covers_vtl1(7));
    assert!(!mask_covers_vtl1(5));
    let areas = allocate_areas(&mut vars, 0x1_0000_0007, 832);
    assert_eq!(areas.vtl0.bytes, vec![0u8; 832]);
    assert_eq!(
        areas.vtl1_kernel.bytes,
        vec![0u8; VTL1_XSAVE_AREA_SIZE]
    );
    assert_eq!(areas.vtl1_user.bytes.len(), 576);
    assert_eq!(vars.vtl0_xsave_area_addr, areas.vtl0.bytes.as_ptr().addr());
    assert_eq!(
        vars.vtl1_kernel_xsave_area_addr,
        areas.vtl1_kernel.bytes.as_ptr().addr()
    );
    assert_eq!(
        vars.vtl1_user_xsave_area_addr,
        areas.vtl1_user.bytes.as_ptr().addr()
    );
    assert_eq!(vars.vtl0_xsave_area_addr, areas.vtl0.address);
    assert_eq!(vars.vtl1_kernel_xsave_area_addr, areas.vtl1_kernel.address);
    assert_eq!(vars.vtl1_user_xsave_area_addr, areas.vtl1_user.address);
    let mut places = [
        (vars.vtl0_xsave_area_addr, 832),
        (vars.vtl1_kernel_xsave_area_addr, 576),
        (vars.vtl1_user_xsave_area_addr, 576),
    ];
    places.sort();
    assert!(places[0].0 + places[0].1 <= places[1].0);
    assert!(places[1].0 + places[1].1 <= places[2].0);
    assert!(places.iter().all(|p| p.0 % 64 == 0));
    assert_eq!((vars.vtl0_xsave_mask_lo, vars.vtl0_xsave_mask_hi), (7, 1));
    assert_eq!(
        (vars.vtl1_xsave_mask_lo as u64, vars.vtl1_xsave_mask_hi),
        (VTL1_XSAVE_MASK, 0)
    );
}

#[test]
fn area_sizes_are_those_of_the_processor() {
    let id = raw_cpuid::CpuId::new();
    let has_xsave = id.get_feature_info().map(|i| i.has_xsave());
    let enabled_size = id
        .get_extended_state_info()
        .map(|i| i.xsave_area_size_enabled_features());
    let query = XsaveQuery {
        has_xsave,
        enabled_size,
    };
    assert_eq!(get_xsave_area_size(), query.area_size());
    let mut vars = PerCpuVariablesAsm::zeroed();
    match allocate_xsave_area(&mut vars, 3) {
        Ok(areas) => {
            assert_eq!(Ok(areas.vtl0.bytes.len()), query.area_size());
            assert_eq!(vars.vtl0_xsave_area_addr % 64, 0);
            assert_eq!(vars.vtl0_xsave_mask_lo, 3);
        }
        Err(fault) => {
            assert_eq!(Err(fault), query.area_size());
            assert_eq!(vars, PerCpuVariablesAsm::zeroed());
        }
    }
    let ask = |has_xsave, enabled_size| {
        XsaveQuery {
            has_xsave,
            enabled_size,
        }
        .area_size()
    };
    assert_eq!(ask(None, Some(5)), Err(XsaveQueryFault::NoFeatureInfo));
    assert_eq!(ask(Some(false), Some(5)), Err(XsaveQueryFault::NotSupported));
    assert_eq!(ask(Some(true), None), Err(XsaveQueryFault::NoStateInfo));
    assert_eq!(ask(Some(true), Some(832)), Ok(832));
    assert_eq!(
        XsaveQueryFault::NotSupported.message(),
        "XSAVE is not supported"
    );
    assert_eq!(xcr0(7, 1), 0x1_0000_0007);
}

#[test]
fn areas_are_allocated_for_what_was_told() {
    let mut vars = PerCpuVariablesAsm::zeroed();
    for fault in [
        XsaveQueryFault::NoFeatureInfo,
        XsaveQueryFault::NotSupported,
        XsaveQueryFault::NoStateInfo,
    ] {
        assert_eq!(allocate_told(&mut vars, 7, Err(fault)).unwrap_err(), fault);
    }
    assert_eq!(
        allocate_told(&mut vars, 7, Ok(usize::MAX)).unwrap_err(),
        XsaveQueryFault::TooLarge
    );
    assert_eq!(vars, PerCpuVariablesAsm::zeroed());
    let areas = allocate_told(&mut vars, 7, Ok(832)).unwrap();
    assert_eq!(areas.vtl0.bytes, vec![0u8; 832]);
    assert_eq!(
        vars.vtl0_xsave_area_addr,
        areas.vtl0.bytes.as_ptr().addr()
    );
}

#[test]
fn each_area_goes_to_its_own_variable() {
    let place = |address| PlacedArea {
        bytes: &[],
        address,
    };
    let areas = XsaveAreas {
        vtl0: place(0x40),
        vtl1_kernel: place(0x80),
        vtl1_user: place(0xc0),
    };
    let mut vars = PerCpuVariablesAsm::zeroed();
    note_areas(&mut vars, &areas, 0x2_0000_0003);
    assert_eq!(vars.vtl0_xsave_area_addr, 0x40);
    assert_eq!(vars.vtl1_kernel_xsave_area_addr, 0x80);
    assert_eq!(vars.vtl1_user_xsave_area_addr, 0xc0);
    assert_eq!((vars.vtl0_xsave_mask_lo, vars.vtl0_xsave_mask_hi), (3, 2));
    assert_eq!((vars.vtl1_xsave_mask_lo, vars.vtl1_xsave_mask_hi), (3, 0));
}
