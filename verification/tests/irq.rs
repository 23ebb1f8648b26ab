use aarch64_bringup::MAX_IRQ_COUNT;
use aarch64_bringup::irq::ControllerVersion;
use aarch64_bringup::irq::IrqController;
use aarch64_bringup::irq::TriggerMode;
use aarch64_bringup::irq_table::HandlerTable;

fn v2_controller() -> IrqController<u32> {
    let mut c: IrqController<u32> = IrqController::new();
    c.init();
    c.init_current_cpu(0, ControllerVersion::V2, false);
    c
}

fn v3_controller(split_eoi: bool) -> IrqController<u32> {
    let mut c: IrqController<u32> = IrqController::new();
    c.init();
    c.init_current_cpu(0, ControllerVersion::V3, split_eoi);
    c
}

#[test]
fn fresh_table_has_no_handlers() {
    let t: HandlerTable<u32> = HandlerTable::new();
    assert!(t.handler_for(0).is_none());
    assert!(t.handler_for(33).is_none());
    assert!(t.handler_for(MAX_IRQ_COUNT - 1).is_none());
    assert!(t.handler_for(MAX_IRQ_COUNT).is_none());
}

#[test]
fn register_then_unregister_returns_to_no_handler() {
    let mut c = v2_controller();
    let (ok, plan) = c.register(40, 7u32, 0);
    assert!(ok);
    let enable = plan.expect("a successful registration enables the line");
    assert!(enable.enabled);
    assert_eq!(enable.irq, 40);

    let (prev, disable) = c.unregister(40, 0);
    assert_eq!(prev, Some(7u32));
    let disable = disable.expect("an in-range line is disabled");
    assert!(!disable.enabled);
    assert_eq!(disable.irq, 40);

    let after = c.handle(0, 40, 40);
    assert!(after.handler.is_none());
}

#[test]
fn second_register_fails_and_first_handler_stays() {
    let mut c = v2_controller();
    let (ok1, _) = c.register(40, 1u32, 0);
    assert!(ok1);
    let (ok2, plan2) = c.register(40, 2u32, 0);
    assert!(!ok2);
    assert!(plan2.is_none());

    let outcome = c.handle(0, 40, 40);
    assert_eq!(outcome.handler, Some(&1u32));
}

#[test]
fn a_freed_line_can_be_claimed_again() {
    let mut c = v2_controller();
    assert!(c.register(40, 1u32, 0).0);
    assert_eq!(c.unregister(40, 0).0, Some(1u32));
    assert!(c.register(40, 2u32, 0).0);
    assert_eq!(c.handle(0, 40, 40).handler, Some(&2u32));
}

#[test]
fn unregister_without_handler_returns_none_but_disables() {
    let mut c = v2_controller();
    let (prev, disable) = c.unregister(77, 0);
    assert!(prev.is_none());
    let disable = disable.expect("an in-range line is disabled");
    assert!(!disable.enabled);
}

#[test]
fn handle_without_handler_still_owes_eoi() {
    let c = v2_controller();
    let outcome = c.handle(0, 300, 300);
    assert!(outcome.handler.is_none());
    assert!(outcome.eoi);
    assert!(!outcome.deactivate);
}

#[test]
fn handle_in_split_mode_owes_deactivate() {
    let c = v3_controller(true);
    let outcome = c.handle(0, 0, 300);
    assert!(outcome.eoi);
    assert!(outcome.deactivate);
}

#[test]
fn out_of_range_lines_are_rejected() {
    let mut c = v2_controller();
    let (ok, plan) = c.register(MAX_IRQ_COUNT, 9u32, 0);
    assert!(!ok);
    assert!(plan.is_none());
    let (prev, disable) = c.unregister(MAX_IRQ_COUNT, 0);
    assert!(prev.is_none());
    assert!(disable.is_none());
}

#[test]
fn the_last_line_is_usable_and_the_one_past_it_is_not() {
    let mut c = v2_controller();
    let (ok, _) = c.register(MAX_IRQ_COUNT - 1, 8u32, 0);
    assert!(ok);
    assert_eq!(c.handle(0, MAX_IRQ_COUNT - 1, 0).handler, Some(&8u32));
    let (ok, _) = c.register(MAX_IRQ_COUNT, 9u32, 0);
    assert!(!ok);
}

#[test]
fn disjoint_registrations_from_different_cores_are_independent() {
    let mut c = v2_controller();
    c.init_current_cpu(1, ControllerVersion::V2, false);
    let (ok_a, _) = c.register(50, 11u32, 0);
    let (ok_b, _) = c.register(51, 22u32, 1);
    assert!(ok_a);
    assert!(ok_b);
    assert_eq!(c.handle(0, 50, 50).handler, Some(&11u32));
    assert_eq!(c.handle(1, 51, 51).handler, Some(&22u32));
}

#[test]
fn v2_routes_every_operation_through_the_v2_path() {
    let mut c = v2_controller();
    let plan = c.set_enable(64, None, true, 0);
    assert_eq!(plan.version, ControllerVersion::V2);
    let (ok, enable) = c.register(66, 6u32, 0);
    assert!(ok);
    assert_eq!(enable.unwrap().version, ControllerVersion::V2);
    // v2 is externally vectored: the hint decides, not the acknowledge value
    let outcome = c.handle(0, 66, 999);
    assert_eq!(outcome.irq, 66);
    assert_eq!(outcome.handler, Some(&6u32));
}

#[test]
fn v3_resolves_the_line_from_the_acknowledge_value() {
    let mut c = v3_controller(false);
    let (ok, _) = c.register(200, 3u32, 0);
    assert!(ok);
    let outcome = c.handle(0, 0, 200);
    assert_eq!(outcome.irq, 200);
    assert_eq!(outcome.handler, Some(&3u32));
}

#[test]
fn private_lines_stay_on_the_calling_core() {
    let c = v2_controller();
    let plan = c.set_enable(13, Some(TriggerMode::Edge), true, 4);
    assert!(plan.private);
    assert!(!plan.lock_distributor);
    assert_eq!(plan.target_cpu, None);
    assert_eq!(plan.trigger, Some(TriggerMode::Edge));
}

#[test]
fn shared_lines_take_the_lock_and_target_the_calling_core() {
    let c = v3_controller(false);
    let plan = c.set_enable(64, Some(TriggerMode::Level), false, 2);
    assert!(!plan.private);
    assert!(plan.lock_distributor);
    assert_eq!(plan.target_cpu, Some(2));
    assert!(!plan.enabled);
    assert_eq!(plan.version, ControllerVersion::V3);
}
