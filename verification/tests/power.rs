use aarch64_bringup::power::FirmwareCall;
use aarch64_bringup::power::PSCI_CPU_ON;
use aarch64_bringup::power::PSCI_SYSTEM_OFF;
use aarch64_bringup::power::PowerController;
use aarch64_bringup::power::PowerMethod;
use aarch64_bringup::power::cpu_boot;
use aarch64_bringup::power::interpret_power_status;
use aarch64_bringup::power::parse_power_method;
use aarch64_bringup::smp::CpuRoster;

#[test]
fn the_two_convention_strings_parse() {
    assert_eq!(parse_power_method(&b"smc".to_vec()), Some(PowerMethod::SecureMonitorCall));
    assert_eq!(parse_power_method(&b"hvc".to_vec()), Some(PowerMethod::HypervisorCall));
}

#[test]
fn unknown_convention_strings_are_probe_failures() {
    assert_eq!(parse_power_method(&b"psci".to_vec()), None);
    assert_eq!(parse_power_method(&b"".to_vec()), None);
    assert_eq!(parse_power_method(&b"hvC".to_vec()), None);
    assert_eq!(parse_power_method(&b"smcc".to_vec()), None);
}

#[test]
fn a_failed_probe_leaves_the_controller_unusable_until_a_valid_one() {
    let mut power = PowerController::new();
    assert!(!power.probe(&b"mystery".to_vec()));
    assert!(power.probe(&b"smc".to_vec()));
}

#[test]
fn system_off_over_hvc_issues_the_hypervisor_power_off_call() {
    let mut power = PowerController::new();
    assert!(power.probe(&b"hvc".to_vec()));
    let call = power.system_off_call();
    assert_eq!(
        call,
        FirmwareCall {
            method: PowerMethod::HypervisorCall,
            function_id: PSCI_SYSTEM_OFF,
            arg0: 0,
            arg1: 0,
            arg2: 0,
        }
    );
}

#[test]
fn booting_a_roster_index_starts_the_core_behind_it() {
    let discovered = vec![0x100usize, 0x101, 0x102, 0x103];
    let roster = CpuRoster::build(0x100, &discovered, 4).expect("four cores are enough");
    let mut power = PowerController::new();
    assert!(power.probe(&b"smc".to_vec()));
    let call = cpu_boot(&power, &roster, 1, 0x4008_0000, 0x4800_0000);
    assert_eq!(
        call,
        FirmwareCall {
            method: PowerMethod::SecureMonitorCall,
            function_id: PSCI_CPU_ON,
            arg0: 0x101,
            arg1: 0x4008_0000,
            arg2: 0x4800_0000,
        }
    );
}

#[test]
fn the_firmware_status_is_propagated_not_masked() {
    assert_eq!(interpret_power_status(0), Ok(()));
    assert_eq!(interpret_power_status(-2), Err(-2));
    assert_eq!(interpret_power_status(7), Err(7));
}
