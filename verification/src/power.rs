//! Firmware power-call controller.
//!
//! The inter-core firmware call convention is discovered once from a
//! firmware property string ("smc" or "hvc"); until a recognized string
//! is supplied the controller stays unusable.  Every power operation is
//! described as an explicit standardized firmware call for the unverified
//! shell to issue; the shell reports the firmware's status word back.

use vstd::prelude::*;

use crate::smp::CpuRoster;

verus! {

/// Standardized function id of the start-core firmware call.
pub const PSCI_CPU_ON: u32 = 0xC400_0003;

/// Standardized function id of the whole-machine power-off call.
pub const PSCI_SYSTEM_OFF: u32 = 0x8400_0008;

/// The firmware call convention the platform was described with.
#[derive(Clone, Copy, Debug, PartialEq, Eq, Structural)]
pub enum PowerMethod {
    SecureMonitorCall,
    HypervisorCall,
}

/// The property string that selects the secure-monitor convention.
pub open spec fn spec_smc_name() -> Seq<u8> {
    seq![115u8, 109u8, 99u8]
}

/// The property string that selects the hypervisor convention.
pub open spec fn spec_hvc_name() -> Seq<u8> {
    seq![104u8, 118u8, 99u8]
}

/// What a firmware property string means as a call convention, if anything.
pub open spec fn spec_parse_power_method(s: Seq<u8>) -> Option<PowerMethod> {
    if s == spec_smc_name() {
        Some(PowerMethod::SecureMonitorCall)
    } else if s == spec_hvc_name() {
        Some(PowerMethod::HypervisorCall)
    } else {
        None
    }
}

/// Reads the call convention out of a firmware property string: exactly
/// "smc" or "hvc"; anything else is a probe failure, not an error.
pub fn parse_power_method(name: &Vec<u8>) -> (r: Option<PowerMethod>)
    ensures
        r == spec_parse_power_method(name@),
{
    if name.len() == 3 && name[0] == 115u8 && name[1] == 109u8 && name[2] == 99u8 {
        proof {
            assert(name@ =~= spec_smc_name());
        }
        Some(PowerMethod::SecureMonitorCall)
    } else if name.len() == 3 && name[0] == 104u8 && name[1] == 118u8 && name[2] == 99u8 {
        proof {
            assert(name@ =~= spec_hvc_name());
            assert(name@ != spec_smc_name());
        }
        Some(PowerMethod::HypervisorCall)
    } else {
        proof {
            if name@ == spec_smc_name() {
                assert(name@.len() == 3 && name@[0] == 115u8 && name@[1] == 109u8 && name@[2]
                    == 99u8);
            }
            if name@ == spec_hvc_name() {
                assert(name@.len() == 3 && name@[0] == 104u8 && name@[1] == 118u8 && name@[2]
                    == 99u8);
            }
        }
        None
    }
}

/// One standardized firmware call for the shell to issue: the discovered
/// convention, the standardized function id, and its three arguments.
#[derive(Clone, Copy, Debug, PartialEq, Eq, Structural)]
pub struct FirmwareCall {
    pub method: PowerMethod,
    pub function_id: u32,
    pub arg0: usize,
    pub arg1: usize,
    pub arg2: usize,
}

/// The power controller: unusable until a recognized convention string
/// has been discovered, then fixed for the life of the system.
pub struct PowerController {
    method: Option<PowerMethod>,
}

impl PowerController {
    /// The discovered convention, if any.
    pub closed spec fn method(&self) -> Option<PowerMethod> {
        self.method
    }

    /// Whether a convention has been discovered.
    pub open spec fn discovered(&self) -> bool {
        self.method() is Some
    }

    /// A controller with no convention discovered yet.
    pub fn new() -> (c: Self)
        ensures
            !c.discovered(),
    {
        PowerController { method: None }
    }

    /// Whether a convention has been discovered, for callers that must
    /// test usability before asking for a call.
    pub fn is_discovered(&self) -> (r: bool)
        ensures
            r == self.discovered(),
    {
        self.method.is_some()
    }

    /// One probe attempt from a firmware property string.  A recognized
    /// string fixes the convention; an unrecognized one records a probe
    /// failure and leaves the controller unusable, so a later description
    /// can still be tried.
    pub fn probe(&mut self, name: &Vec<u8>) -> (ok: bool)
        requires
            !old(self).discovered(),
        ensures
            final(self).method() == spec_parse_power_method(name@),
            ok == final(self).discovered(),
    {
        self.method = parse_power_method(name);
        self.method.is_some()
    }

    /// The standardized start-core call for one core: physical target id,
    /// entry physical address, and stack-top physical address.
    pub fn cpu_on(&self, target_cpu: usize, entry_paddr: usize, stack_top_paddr: usize) -> (c:
        FirmwareCall)
        requires
            self.discovered(),
        ensures
            Some(c.method) == self.method(),
            c.function_id == PSCI_CPU_ON,
            c.arg0 == target_cpu,
            c.arg1 == entry_paddr,
            c.arg2 == stack_top_paddr,
    {
        let method = match self.method {
            Some(m) => m,
            None => PowerMethod::SecureMonitorCall,  // unreachable: a convention is discovered
        };
        FirmwareCall {
            method,
            function_id: PSCI_CPU_ON,
            arg0: target_cpu,
            arg1: entry_paddr,
            arg2: stack_top_paddr,
        }
    }

    /// The standardized whole-machine power-off call.  Issuing it is
    /// terminal: the shell never returns control after this call, and on
    /// failure it falls into a low-power wait loop instead.
    pub fn system_off_call(&self) -> (c: FirmwareCall)
        requires
            self.discovered(),
        ensures
            Some(c.method) == self.method(),
            c.function_id == PSCI_SYSTEM_OFF,
            c.arg0 == 0,
            c.arg1 == 0,
            c.arg2 == 0,
    {
        let method = match self.method {
            Some(m) => m,
            None => PowerMethod::SecureMonitorCall,  // unreachable: a convention is discovered
        };
        FirmwareCall { method, function_id: PSCI_SYSTEM_OFF, arg0: 0, arg1: 0, arg2: 0 }
    }
}

/// The firmware's own status word of a start-core call, propagated rather
/// than masked: zero is success, anything else is handed back unchanged.
pub fn interpret_power_status(status: i32) -> (r: Result<(), i32>)
    ensures
        status == 0 ==> r == Ok::<(), i32>(()),
        status != 0 ==> r == Err::<(), i32>(status),
{
    if status == 0 {
        Ok(())
    } else {
        Err(status)
    }
}

/// Boots the core at a logical roster index: resolves the physical id the
/// roster holds at that index and forms the start-core call with the
/// supplied entry and stack-top physical addresses.
pub fn cpu_boot(
    power: &PowerController,
    roster: &CpuRoster,
    cpu_idx: usize,
    entry_paddr: usize,
    stack_top_paddr: usize,
) -> (c: FirmwareCall)
    requires
        power.discovered(),
        cpu_idx < roster@.len(),
    ensures
        Some(c.method) == power.method(),
        c.function_id == PSCI_CPU_ON,
        c.arg0 == roster@[cpu_idx as int],
        c.arg1 == entry_paddr,
        c.arg2 == stack_top_paddr,
{
    let id = crate::smp::cpu_idx_to_id(roster, cpu_idx);
    power.cpu_on(id, entry_paddr, stack_top_paddr)
}

} // verus!
