use aarch64_bringup::smp::BootStep;
use aarch64_bringup::smp::CpuNode;
use aarch64_bringup::smp::CpuRoster;
use aarch64_bringup::smp::RosterError;
use aarch64_bringup::smp::cpu_id_list;
use aarch64_bringup::smp::cpu_id_to_idx;
use aarch64_bringup::smp::cpu_idx_to_id;
use aarch64_bringup::smp::init;
use aarch64_bringup::smp::secondary_boot_steps;
use aarch64_bringup::smp::secondary_stack_virt;

#[test]
fn four_reported_cores_fill_a_roster_of_four() {
    let discovered = vec![0x100usize, 0x101, 0x102, 0x103];
    let roster = CpuRoster::build(0x100, &discovered, 4).expect("four cores are enough");
    assert_eq!(roster.len(), 4);
    assert_eq!(cpu_idx_to_id(&roster, 0), 0x100);
    assert_eq!(cpu_idx_to_id(&roster, 1), 0x101);
    assert_eq!(cpu_idx_to_id(&roster, 2), 0x102);
    assert_eq!(cpu_idx_to_id(&roster, 3), 0x103);
}

#[test]
fn boot_core_comes_first_even_when_reported_late() {
    let discovered = vec![0x200usize, 0x201, 0x202];
    let roster = CpuRoster::build(0x201, &discovered, 3).expect("three cores are enough");
    assert_eq!(roster.len(), 3);
    assert_eq!(cpu_idx_to_id(&roster, 0), 0x201);
    assert_eq!(cpu_idx_to_id(&roster, 1), 0x200);
    assert_eq!(cpu_idx_to_id(&roster, 2), 0x202);
}

#[test]
fn index_and_id_translations_invert_each_other() {
    let discovered = vec![7usize, 3, 9, 5];
    let roster = CpuRoster::build(7, &discovered, 4).expect("four cores are enough");
    for id in [7usize, 3, 9, 5] {
        let idx = cpu_id_to_idx(&roster, id);
        assert_eq!(cpu_idx_to_id(&roster, idx), id);
    }
    assert_eq!(cpu_id_to_idx(&roster, 7), 0);
}

#[test]
fn an_empty_report_still_yields_the_boot_core() {
    let discovered: Vec<usize> = Vec::new();
    let roster = CpuRoster::build(3, &discovered, 1).expect("the boot core alone suffices");
    assert_eq!(roster.len(), 1);
    assert_eq!(cpu_idx_to_id(&roster, 0), 3);
    let err = CpuRoster::build(3, &discovered, 2).expect_err("one core is too few");
    assert_eq!(err, RosterError::TooFewCores { found: 1, expected: 2 });
}

#[test]
fn too_few_cores_is_fatal() {
    let discovered = vec![1usize, 2];
    let err = CpuRoster::build(1, &discovered, 4).expect_err("two cores are too few");
    assert_eq!(err, RosterError::TooFewCores { found: 2, expected: 4 });
}

#[test]
fn extra_cores_are_accepted() {
    let discovered = vec![0usize, 1, 2, 3, 4, 5];
    let roster = CpuRoster::build(0, &discovered, 4).expect("six cores exceed four");
    assert_eq!(roster.len(), 6);
}

#[test]
fn the_boot_core_is_not_listed_twice() {
    let discovered = vec![9usize, 8, 9, 7];
    let roster = CpuRoster::build(9, &discovered, 3).expect("three distinct cores");
    assert_eq!(roster.len(), 3);
    assert_eq!(cpu_idx_to_id(&roster, 0), 9);
    assert_eq!(cpu_idx_to_id(&roster, 1), 8);
    assert_eq!(cpu_idx_to_id(&roster, 2), 7);
}

#[test]
fn disabled_firmware_nodes_are_dropped() {
    let nodes = vec![
        CpuNode { disabled: false, id: 0x00 },
        CpuNode { disabled: true, id: 0x01 },
        CpuNode { disabled: false, id: 0x02 },
    ];
    let ids = cpu_id_list(&nodes);
    assert_eq!(ids, vec![0x00usize, 0x02]);
}

#[test]
fn bring_up_records_the_shared_boot_state() {
    let discovered = vec![0usize, 1];
    let state = init(0, &discovered, 2, 0xffff_0000_0000_0000, 0x4000_0000)
        .expect("two cores are enough");
    assert_eq!(state.roster.len(), 2);
    assert_eq!(state.phys_virt_offset, 0xffff_0000_0000_0000);
    assert_eq!(state.boot_pt_root, 0x4000_0000);
}

#[test]
fn bring_up_fails_like_the_roster_does() {
    let discovered = vec![0usize];
    let err = init(0, &discovered, 2, 0, 0).expect_err("one core is too few");
    assert_eq!(err, RosterError::TooFewCores { found: 1, expected: 2 });
}

#[test]
fn the_trampoline_contract_is_ordered() {
    let steps = secondary_boot_steps();
    assert_eq!(
        steps,
        vec![
            BootStep::ReadHardwareCpuId,
            BootStep::InstallStack,
            BootStep::DropToKernelEl,
            BootStep::EnableFloatingPoint,
            BootStep::InstallPageTableRoot,
            BootStep::ConvertStackToVirtual,
            BootStep::CallContinuation,
        ]
    );
}

#[test]
fn the_stack_moves_into_the_virtual_window() {
    assert_eq!(secondary_stack_virt(0x8000_0000, 0x1000_0000_0000), 0x1000_8000_0000);
}
