//! Interrupt-controller and multi-core bring-up control plane for an
//! aarch64 platform layer.
//!
//! The crate verifies the decision logic of the platform layer: the IRQ
//! handler registry, the version-polymorphic interrupt-controller facade,
//! the CPU topology roster, the per-CPU store, the kernel mapping plan and
//! the firmware power-call controller.  Hardware register access, firmware
//! calls and the secondary-core trampoline are performed by an unverified
//! shell around this crate; every function here takes plain values in and
//! hands plain values (or explicit action plans) back.

pub mod fdt;
pub mod irq;
pub mod irq_table;
pub mod paging;
pub mod percpu;
pub mod power;
pub mod smp;

use vstd::prelude::*;

verus! {

/// The maximum number of interrupt lines the controller can route.
pub const MAX_IRQ_COUNT: usize = 1024;

/// Interrupt numbers below this bound are private to a single core
/// (software-generated and private peripheral interrupts); they are
/// configured through the calling core's own CPU interface and need no
/// distributor lock.
pub const PRIVATE_IRQ_BOUND: usize = 32;

/// True for interrupt numbers that belong to the calling core alone.
pub open spec fn spec_irq_is_private(irq: usize) -> bool {
    irq < PRIVATE_IRQ_BOUND
}

/// Decides whether an interrupt line is private to the calling core.
pub fn irq_is_private(irq: usize) -> (r: bool)
    ensures
        r == spec_irq_is_private(irq),
{
    irq < PRIVATE_IRQ_BOUND
}

} // verus!
