//! Version-polymorphic interrupt-controller facade.
//!
//! The controller generation (v2 or v3) is probed once, when a core first
//! initializes its CPU interface, and cached; every later operation
//! routes on the cached discriminant and never re-probes the device.
//! Operations that touch hardware registers return an explicit plan for
//! the unverified shell to carry out: the facade itself decides which
//! register protocol is used, whether the shared distributor lock is
//! taken, and where the interrupt is routed.

use vstd::prelude::*;

use crate::MAX_IRQ_COUNT;
use crate::irq_table::HandlerTable;
use crate::irq_table::spec_register;
use crate::irq_table::spec_unregister;
use crate::spec_irq_is_private;

verus! {

/// The detected interrupt-controller generation, fixed after the probe.
#[derive(Clone, Copy, Debug, PartialEq, Eq, Structural)]
pub enum ControllerVersion {
    V2,
    V3,
}

/// How an interrupt line fires.
#[derive(Clone, Copy, Debug, PartialEq, Eq, Structural)]
pub enum TriggerMode {
    Edge,
    Level,
}

/// The register work one enable/disable decision asks of the shell.
///
/// A private line is configured through the calling core's own CPU
/// interface with no lock; a shared line is configured through the
/// distributor under the shared lock, with its affinity routed to the
/// calling core.
#[derive(Clone, Copy, Debug, PartialEq, Eq, Structural)]
pub struct EnablePlan {
    pub version: ControllerVersion,
    pub irq: usize,
    pub enabled: bool,
    pub trigger: Option<TriggerMode>,
    pub private: bool,
    pub lock_distributor: bool,
    pub target_cpu: Option<usize>,
}

/// The interrupt number a trap must dispatch on: a v3 controller
/// self-reports the true number in its acknowledge value, a v2 controller
/// trusts the externally vectored hint.
pub open spec fn spec_resolved_irq(
    version: ControllerVersion,
    irq_hint: usize,
    ack_value: usize,
) -> usize {
    match version {
        ControllerVersion::V2 => irq_hint,
        ControllerVersion::V3 => ack_value,
    }
}

/// What one trap dispatch asks of the shell.  The shell has already
/// acknowledged the controller (that is where `ack_value` came from);
/// end-of-interrupt is always owed, a separate deactivate step is owed
/// exactly in split priority-drop mode, and the line is never left
/// pending even when no handler is registered.
pub struct HandleOutcome<'a, T> {
    pub irq: usize,
    pub handler: Option<&'a T>,
    pub eoi: bool,
    pub deactivate: bool,
}

/// The facade over the shared distributor and the per-core CPU
/// interfaces, with the cached generation and the handler registry.
pub struct IrqController<T> {
    version: Option<ControllerVersion>,
    distributor_open: bool,
    split_eoi: bool,
    ready_cpus: Vec<usize>,
    table: HandlerTable<T>,
}

impl<T> IrqController<T> {
    /// The cached controller generation, once probed.
    pub closed spec fn version(&self) -> Option<ControllerVersion> {
        self.version
    }

    /// Whether the shared distributor has been opened.
    pub closed spec fn distributor_open(&self) -> bool {
        self.distributor_open
    }

    /// Whether the controller runs in split priority-drop mode, in which
    /// every end-of-interrupt is followed by a separate deactivate step.
    pub closed spec fn split_eoi(&self) -> bool {
        self.split_eoi
    }

    /// Whether the given core has completed its per-core initialization.
    pub closed spec fn cpu_ready(&self, cpu_id: usize) -> bool {
        self.ready_cpus@.contains(cpu_id)
    }

    /// The handler registry, one optional handler per interrupt line.
    pub closed spec fn handlers(&self) -> Seq<Option<T>> {
        self.table@
    }

    /// The registry always holds one slot per interrupt line, and no core
    /// is ready before the generation is cached.
    pub closed spec fn wf(&self) -> bool {
        &&& self.table.wf()
        &&& (self.version is None ==> self.ready_cpus@.len() == 0)
    }

    /// A facade in its uninitialized state: no generation cached, the
    /// distributor closed, no core ready, no handler registered.
    pub fn new() -> (c: Self)
        ensures
            c.wf(),
            c.version() is None,
            !c.distributor_open(),
            !c.split_eoi(),
            forall|cpu: usize| !c.cpu_ready(cpu),
            c.handlers().len() == MAX_IRQ_COUNT,
            forall|i: int| 0 <= i < MAX_IRQ_COUNT ==> c.handlers()[i] is None,
    {
        IrqController {
            version: None,
            distributor_open: false,
            split_eoi: false,
            ready_cpus: Vec::new(),
            table: HandlerTable::new(),
        }
    }

    /// The cached controller generation, for callers that must test the
    /// state machine before dispatching.
    pub fn cached_version(&self) -> (v: Option<ControllerVersion>)
        ensures
            v == self.version(),
    {
        self.version
    }

    /// Whether the shared distributor has been opened.
    pub fn is_distributor_open(&self) -> (r: bool)
        ensures
            r == self.distributor_open(),
    {
        self.distributor_open
    }

    /// Whether the controller runs in split priority-drop mode.
    pub fn is_split_eoi(&self) -> (r: bool)
        ensures
            r == self.split_eoi(),
    {
        self.split_eoi
    }

    /// Whether the given core has completed its per-core initialization.
    pub fn is_cpu_ready(&self, cpu_id: usize) -> (r: bool)
        ensures
            r == self.cpu_ready(cpu_id),
    {
        let n = self.ready_cpus.len();
        let mut i: usize = 0;
        while i < n
            invariant
                n == self.ready_cpus@.len(),
                i <= n,
                forall|j: int| 0 <= j < i ==> self.ready_cpus@[j] != cpu_id,
            decreases n - i,
        {
            if self.ready_cpus[i] == cpu_id {
                return true;
            }
            i = i + 1;
        }
        false
    }

    /// Records that the boot core acquired the controller device and
    /// opened the distributor; the shell leaves the shared lock released
    /// afterward.
    pub fn init(&mut self)
        requires
            old(self).wf(),
        ensures
            final(self).wf(),
            final(self).distributor_open(),
            final(self).version() == old(self).version(),
            final(self).split_eoi() == old(self).split_eoi(),
            final(self).handlers() == old(self).handlers(),
            forall|cpu: usize| final(self).cpu_ready(cpu) == old(self).cpu_ready(cpu),
    {
        self.distributor_open = true;
    }

    /// Per-core initialization, run once after the core's runtime is
    /// otherwise ready.  The first call fixes the probed generation and
    /// the end-of-interrupt mode; the shell initializes the core's CPU
    /// interface registers and stores the per-core handle.  The probe
    /// result may never contradict the cached generation.
    pub fn init_current_cpu(
        &mut self,
        cpu_id: usize,
        probed: ControllerVersion,
        split_eoi_mode: bool,
    )
        requires
            old(self).wf(),
            old(self).distributor_open(),
            match old(self).version() {
                None => true,
                Some(v) => v == probed,
            },
            old(self).version() is Some ==> old(self).split_eoi() == split_eoi_mode,
        ensures
            final(self).wf(),
            final(self).version() == Some(probed),
            final(self).split_eoi() == split_eoi_mode,
            final(self).distributor_open(),
            final(self).cpu_ready(cpu_id),
            forall|cpu: usize|
                old(self).cpu_ready(cpu) ==> final(self).cpu_ready(cpu),
            final(self).handlers() == old(self).handlers(),
    {
        self.version = Some(probed);
        self.split_eoi = split_eoi_mode;
        let ghost prior = self.ready_cpus@;
        self.ready_cpus.push(cpu_id);
        proof {
            assert(self.ready_cpus@[prior.len() as int] == cpu_id);
            assert forall|cpu: usize| prior.contains(cpu) implies self.ready_cpus@.contains(
                cpu,
            ) by {
                let k = choose|k: int| 0 <= k < prior.len() && prior[k] == cpu;
                assert(self.ready_cpus@[k] == cpu);
            }
        }
    }

    /// Decides the register work for enabling or disabling a line, with
    /// an optional trigger-mode change, routed on the cached generation.
    pub fn set_enable(
        &self,
        irq: usize,
        trigger: Option<TriggerMode>,
        enabled: bool,
        calling_cpu: usize,
    ) -> (plan: EnablePlan)
        requires
            self.wf(),
            self.version() is Some,
            irq < MAX_IRQ_COUNT,
        ensures
            Some(plan.version) == self.version(),
            plan.irq == irq,
            plan.enabled == enabled,
            plan.trigger == trigger,
            plan.private == spec_irq_is_private(irq),
            plan.lock_distributor == !spec_irq_is_private(irq),
            plan.target_cpu == if spec_irq_is_private(irq) {
                None::<usize>
            } else {
                Some(calling_cpu)
            },
    {
        let version = match self.version {
            Some(v) => v,
            None => ControllerVersion::V2,  // unreachable: the generation is cached
        };
        let private = crate::irq_is_private(irq);
        EnablePlan {
            version,
            irq,
            enabled,
            trigger,
            private,
            lock_distributor: !private,
            target_cpu: if private {
                None
            } else {
                Some(calling_cpu)
            },
        }
    }

    /// Registers a handler for a line.  Fails, with no side effect, when
    /// the line is out of range or already claimed; on success the line
    /// is claimed and the returned plan enables it, routed to the calling
    /// core.
    pub fn register(&mut self, irq: usize, handler: T, calling_cpu: usize) -> (r: (
        bool,
        Option<EnablePlan>,
    ))
        requires
            old(self).wf(),
            old(self).version() is Some,
        ensures
            final(self).wf(),
            (final(self).handlers(), r.0) == spec_register(old(self).handlers(), irq, handler),
            r.0 == (irq < MAX_IRQ_COUNT && old(self).handlers()[irq as int] is None),
            final(self).version() == old(self).version(),
            final(self).split_eoi() == old(self).split_eoi(),
            final(self).distributor_open() == old(self).distributor_open(),
            forall|cpu: usize| final(self).cpu_ready(cpu) == old(self).cpu_ready(cpu),
            match r.1 {
                Some(plan) => {
                    &&& r.0
                    &&& Some(plan.version) == old(self).version()
                    &&& plan.irq == irq
                    &&& plan.enabled == true
                    &&& plan.trigger is None
                    &&& plan.private == spec_irq_is_private(irq)
                    &&& plan.lock_distributor == !spec_irq_is_private(irq)
                    &&& plan.target_cpu == if spec_irq_is_private(irq) {
                        None::<usize>
                    } else {
                        Some(calling_cpu)
                    }
                },
                None => !r.0,
            },
    {
        if self.table.register_handler(irq, handler) {
            let plan = self.set_enable(irq, None, true, calling_cpu);
            (true, Some(plan))
        } else {
            (false, None)
        }
    }

    /// Unregisters the handler of a line and hands it back, if any.  The
    /// line is disabled first, independently of whether a handler exists;
    /// only an out-of-range line leaves nothing to disable.
    pub fn unregister(&mut self, irq: usize, calling_cpu: usize) -> (r: (
        Option<T>,
        Option<EnablePlan>,
    ))
        requires
            old(self).wf(),
            old(self).version() is Some,
        ensures
            final(self).wf(),
            (final(self).handlers(), r.0) == spec_unregister(old(self).handlers(), irq),
            irq < MAX_IRQ_COUNT ==> final(self).handlers()[irq as int] is None,
            final(self).version() == old(self).version(),
            final(self).split_eoi() == old(self).split_eoi(),
            final(self).distributor_open() == old(self).distributor_open(),
            forall|cpu: usize| final(self).cpu_ready(cpu) == old(self).cpu_ready(cpu),
            match r.1 {
                Some(plan) => {
                    &&& irq < MAX_IRQ_COUNT
                    &&& Some(plan.version) == old(self).version()
                    &&& plan.irq == irq
                    &&& plan.enabled == false
                    &&& plan.trigger is None
                    &&& plan.private == spec_irq_is_private(irq)
                    &&& plan.lock_distributor == !spec_irq_is_private(irq)
                    &&& plan.target_cpu == if spec_irq_is_private(irq) {
                        None::<usize>
                    } else {
                        Some(calling_cpu)
                    }
                },
                None => irq >= MAX_IRQ_COUNT,
            },
    {
        let plan = if irq < MAX_IRQ_COUNT {
            Some(self.set_enable(irq, None, false, calling_cpu))
        } else {
            None
        };
        let prev = self.table.unregister_handler(irq);
        (prev, plan)
    }

    /// Decides one trap dispatch for a core that has completed its
    /// per-core initialization.  The interrupt number is resolved on the
    /// cached generation, the registered handler (if any) is looked up
    /// for the shell to invoke, end-of-interrupt is always owed, and a
    /// separate deactivate step is owed exactly in split priority-drop
    /// mode.  A line with no handler is reported, not failed.
    pub fn handle(&self, calling_cpu: usize, irq_hint: usize, ack_value: usize) -> (r:
        HandleOutcome<'_, T>)
        requires
            self.wf(),
            self.cpu_ready(calling_cpu),
            self.version() is Some,
        ensures
            r.irq == spec_resolved_irq(self.version()->Some_0, irq_hint, ack_value),
            r.eoi == true,
            r.deactivate == self.split_eoi(),
            match r.handler {
                Some(h) => r.irq < MAX_IRQ_COUNT && self.handlers()[r.irq as int] == Some(*h),
                None => r.irq >= MAX_IRQ_COUNT || self.handlers()[r.irq as int] is None,
            },
    {
        let version = match self.version {
            Some(v) => v,
            None => ControllerVersion::V2,  // unreachable: the generation is cached
        };
        let irq = match version {
            ControllerVersion::V2 => irq_hint,
            ControllerVersion::V3 => ack_value,
        };
        let handler = self.table.handler_for(irq);
        HandleOutcome { irq, handler, eoi: true, deactivate: self.split_eoi }
    }
}

} // verus!
