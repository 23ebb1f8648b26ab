//! CPU topology roster and secondary-core boot sequencing.
//!
//! The roster is built once by the boot core from the firmware-reported
//! core list: the boot core's own id first, then every other reported id
//! in firmware enumeration order.  Discovering fewer cores than the
//! statically configured count is fatal; discovering more is accepted.
//! All later index/id translation is a linear lookup in this roster.

use vstd::prelude::*;

verus! {

/// The firmware-reported ids that follow the boot core in the roster:
/// the discovered list in order, with every occurrence of the boot id
/// dropped.
pub open spec fn spec_secondary_ids(discovered: Seq<usize>, boot_id: usize) -> Seq<usize>
    decreases discovered.len(),
{
    if discovered.len() == 0 {
        Seq::empty()
    } else {
        let rest = spec_secondary_ids(discovered.drop_last(), boot_id);
        if discovered.last() == boot_id {
            rest
        } else {
            rest.push(discovered.last())
        }
    }
}

/// The full roster: the boot core first, the remaining discovered ids after.
pub open spec fn spec_roster_ids(discovered: Seq<usize>, boot_id: usize) -> Seq<usize> {
    seq![boot_id] + spec_secondary_ids(discovered, boot_id)
}

/// An id occurs among the secondaries exactly when the firmware reported
/// it and it is not the boot core's id.
pub proof fn lemma_secondary_ids_contains(discovered: Seq<usize>, boot_id: usize, id: usize)
    ensures
        spec_secondary_ids(discovered, boot_id).contains(id) <==> (discovered.contains(id)
            && id != boot_id),
    decreases discovered.len(),
{
    if discovered.len() == 0 {
    } else {
        let prefix = discovered.drop_last();
        lemma_secondary_ids_contains(prefix, boot_id, id);
        let rest = spec_secondary_ids(prefix, boot_id);
        if discovered.contains(id) && id != boot_id {
            let k = choose|k: int| 0 <= k < discovered.len() && discovered[k] == id;
            if k < discovered.len() - 1 {
                assert(prefix[k] == id);
                assert(prefix.contains(id));
            } else {
                assert(discovered.last() == id);
            }
            assert(spec_secondary_ids(discovered, boot_id).contains(id)) by {
                if discovered.last() == id {
                    let s = rest.push(discovered.last());
                    assert(s[s.len() - 1] == id);
                } else {
                    let j = choose|j: int| 0 <= j < rest.len() && rest[j] == id;
                    if discovered.last() == boot_id {
                    } else {
                        assert(rest.push(discovered.last())[j] == id);
                    }
                }
            }
        }
        if spec_secondary_ids(discovered, boot_id).contains(id) {
            let s = spec_secondary_ids(discovered, boot_id);
            let j = choose|j: int| 0 <= j < s.len() && s[j] == id;
            if discovered.last() == boot_id {
                assert(rest.contains(id));
            } else {
                if j < rest.len() {
                    assert(rest[j] == id);
                    assert(rest.contains(id));
                } else {
                    assert(id == discovered.last());
                }
            }
            if rest.contains(id) {
                assert(prefix.contains(id));
                let m = choose|m: int| 0 <= m < prefix.len() && prefix[m] == id;
                assert(discovered[m] == id);
            } else {
                assert(id == discovered.last());
                assert(discovered[discovered.len() - 1] == id);
            }
        }
    }
}

/// The index of the first occurrence of `id` in `s`.
pub open spec fn spec_first_index(s: Seq<usize>, id: usize) -> int
    decreases s.len(),
{
    if s.len() == 0 {
        0
    } else if s[0] == id {
        0
    } else {
        1 + spec_first_index(s.skip(1), id)
    }
}

/// When `id` occurs in `s`, its first index is in range, holds `id`, and
/// nothing before it holds `id`.
pub proof fn lemma_first_index_of_contained(s: Seq<usize>, id: usize)
    requires
        s.contains(id),
    ensures
        0 <= spec_first_index(s, id) < s.len(),
        s[spec_first_index(s, id)] == id,
        forall|j: int| 0 <= j < spec_first_index(s, id) ==> s[j] != id,
    decreases s.len(),
{
    if s[0] == id {
    } else {
        let k = choose|k: int| 0 <= k < s.len() && s[k] == id;
        assert(s.skip(1)[k - 1] == id);
        assert(s.skip(1).contains(id));
        lemma_first_index_of_contained(s.skip(1), id);
        let fi = spec_first_index(s.skip(1), id);
        assert(s[1 + fi] == s.skip(1)[fi]);
        assert forall|j: int| 0 <= j < 1 + fi implies s[j] != id by {
            if j > 0 {
                assert(s.skip(1)[j - 1] == s[j]);
            }
        }
    }
}

/// An index that holds `id` with nothing equal before it is the first index.
pub proof fn lemma_first_index_unique(s: Seq<usize>, id: usize, i: int)
    requires
        0 <= i < s.len(),
        s[i] == id,
        forall|j: int| 0 <= j < i ==> s[j] != id,
    ensures
        spec_first_index(s, id) == i,
    decreases s.len(),
{
    if s[0] == id {
        assert(i == 0);
    } else {
        assert(s.skip(1)[i - 1] == id);
        assert forall|j: int| 0 <= j < i - 1 implies s.skip(1)[j] != id by {
            assert(s.skip(1)[j] == s[j + 1]);
        }
        lemma_first_index_unique(s.skip(1), id, i - 1);
    }
}

/// Law: translating a discovered id to its roster index and back yields
/// the same id, for every id the roster holds.
pub proof fn lemma_id_index_round_trip(roster: Seq<usize>, id: usize)
    requires
        roster.contains(id),
    ensures
        0 <= spec_first_index(roster, id) < roster.len(),
        roster[spec_first_index(roster, id)] == id,
{
    lemma_first_index_of_contained(roster, id);
}

/// Why the roster could not be built: the firmware reported fewer usable
/// cores than the configuration expects.
#[derive(Clone, Copy, Debug, PartialEq, Eq, Structural)]
pub enum RosterError {
    TooFewCores { found: usize, expected: usize },
}

/// The ordered list of physical core ids, boot core first.
#[derive(Debug)]
pub struct CpuRoster {
    ids: Vec<usize>,
}

impl CpuRoster {
    /// The roster seen as the sequence of physical core ids.
    pub closed spec fn view(&self) -> Seq<usize> {
        self.ids@
    }

    /// A roster always holds at least the boot core.
    pub open spec fn wf(&self) -> bool {
        self@.len() >= 1
    }

    /// The number of cores in the roster.
    pub fn len(&self) -> (n: usize)
        ensures
            n == self@.len(),
    {
        self.ids.len()
    }

    /// Whether the roster holds the given physical core id.
    pub fn contains_id(&self, cpu_id: usize) -> (r: bool)
        ensures
            r == self@.contains(cpu_id),
    {
        let n = self.ids.len();
        let mut i: usize = 0;
        while i < n
            invariant
                n == self@.len(),
                i <= n,
                forall|j: int| 0 <= j < i ==> self@[j] != cpu_id,
            decreases n - i,
        {
            if self.ids[i] == cpu_id {
                return true;
            }
            i = i + 1;
        }
        false
    }

    /// Builds the roster from the boot core's id and the firmware-reported
    /// core list: the boot id first, then every other reported id in
    /// enumeration order.  Fails exactly when fewer cores than
    /// `expected_count` come out.
    pub fn build(boot_id: usize, discovered: &Vec<usize>, expected_count: usize) -> (r: Result<
        CpuRoster,
        RosterError,
    >)
        ensures
            match r {
                Ok(roster) => {
                    &&& roster@ == spec_roster_ids(discovered@, boot_id)
                    &&& roster@.len() >= expected_count
                    &&& roster@[0] == boot_id
                    &&& roster.wf()
                    &&& forall|id: usize|
                        roster@.contains(id) <==> (id == boot_id || discovered@.contains(id))
                },
                Err(e) => {
                    &&& spec_roster_ids(discovered@, boot_id).len() < expected_count
                    &&& e == (RosterError::TooFewCores {
                        found: spec_roster_ids(discovered@, boot_id).len() as usize,
                        expected: expected_count,
                    })
                },
            },
    {
        let mut ids: Vec<usize> = Vec::new();
        ids.push(boot_id);
        let mut i: usize = 0;
        while i < discovered.len()
            invariant
                i <= discovered@.len(),
                ids@ == spec_roster_ids(discovered@.take(i as int), boot_id),
                ids@.len() >= 1,
                ids@.len() <= 1 + i,
            decreases discovered@.len() - i,
        {
            let id = discovered[i];
            proof {
                assert(discovered@.take(i + 1).drop_last() =~= discovered@.take(i as int));
                assert(discovered@.take(i + 1).last() == discovered@[i as int]);
            }
            if id != boot_id {
                ids.push(id);
            }
            i = i + 1;
        }
        proof {
            assert(discovered@.take(discovered@.len() as int) =~= discovered@);
            assert forall|id: usize|
                ids@.contains(id) <==> (id == boot_id || discovered@.contains(id)) by {
                lemma_secondary_ids_contains(discovered@, boot_id, id);
                let full = spec_roster_ids(discovered@, boot_id);
                assert(full[0] == boot_id);
                if id == boot_id {
                    assert(full.contains(id));
                }
                if id != boot_id && discovered@.contains(id) {
                    let tail = spec_secondary_ids(discovered@, boot_id);
                    let j = choose|j: int| 0 <= j < tail.len() && tail[j] == id;
                    assert(full[j + 1] == id);
                }
                if full.contains(id) && id != boot_id {
                    let j = choose|j: int| 0 <= j < full.len() && full[j] == id;
                    assert(j >= 1);
                    assert(spec_secondary_ids(discovered@, boot_id)[j - 1] == id);
                }
            }
        }
        let found = ids.len();
        if found < expected_count {
            Err(RosterError::TooFewCores { found, expected: expected_count })
        } else {
            Ok(CpuRoster { ids })
        }
    }
}

/// One firmware-reported processor node: whether the firmware marked it
/// disabled, and the physical core id its first register property holds.
#[derive(Clone, Copy, Debug, PartialEq, Eq, Structural)]
pub struct CpuNode {
    pub disabled: bool,
    pub id: usize,
}

/// The ids of the usable reported cores: disabled nodes dropped, the
/// rest in enumeration order.
pub open spec fn spec_usable_ids(nodes: Seq<CpuNode>) -> Seq<usize>
    decreases nodes.len(),
{
    if nodes.len() == 0 {
        Seq::empty()
    } else {
        let rest = spec_usable_ids(nodes.drop_last());
        if nodes.last().disabled {
            rest
        } else {
            rest.push(nodes.last().id)
        }
    }
}

/// Enumerates the usable cores the firmware reports: every processor
/// node not marked disabled contributes its physical id, in enumeration
/// order.
pub fn cpu_id_list(nodes: &Vec<CpuNode>) -> (ids: Vec<usize>)
    ensures
        ids@ == spec_usable_ids(nodes@),
{
    let mut ids: Vec<usize> = Vec::new();
    let n = nodes.len();
    let mut i: usize = 0;
    while i < n
        invariant
            n == nodes@.len(),
            i <= n,
            ids@ == spec_usable_ids(nodes@.take(i as int)),
        decreases n - i,
    {
        let node = nodes[i];
        proof {
            assert(nodes@.take(i + 1).drop_last() =~= nodes@.take(i as int));
            assert(nodes@.take(i + 1).last() == nodes@[i as int]);
        }
        if !node.disabled {
            ids.push(node.id);
        }
        i = i + 1;
    }
    proof {
        assert(nodes@.take(n as int) =~= nodes@);
    }
    ids
}

/// What the boot core must have in hand before any other core is
/// released: the roster, the virtual-to-physical offset of the kernel
/// code, and the root of the already-built shared page table.
#[derive(Debug)]
pub struct SmpState {
    pub roster: CpuRoster,
    pub phys_virt_offset: usize,
    pub boot_pt_root: usize,
}

/// One-time bring-up by the boot core: builds the roster from the
/// firmware-reported cores and records the boot state every woken core
/// depends on.  Fails exactly when fewer cores than `expected_count`
/// were discovered; the failure is fatal to boot.
pub fn init(
    boot_id: usize,
    discovered: &Vec<usize>,
    expected_count: usize,
    phys_virt_offset: usize,
    boot_pt_root: usize,
) -> (r: Result<SmpState, RosterError>)
    ensures
        match r {
            Ok(s) => {
                &&& s.roster@ == spec_roster_ids(discovered@, boot_id)
                &&& s.roster@.len() >= expected_count
                &&& s.roster@[0] == boot_id
                &&& s.roster.wf()
                &&& s.phys_virt_offset == phys_virt_offset
                &&& s.boot_pt_root == boot_pt_root
            },
            Err(e) => {
                &&& spec_roster_ids(discovered@, boot_id).len() < expected_count
                &&& e == (RosterError::TooFewCores {
                    found: spec_roster_ids(discovered@, boot_id).len() as usize,
                    expected: expected_count,
                })
            },
        },
{
    let roster = match CpuRoster::build(boot_id, discovered, expected_count) {
        Ok(r) => r,
        Err(e) => {
            return Err(e);
        },
    };
    Ok(SmpState { roster, phys_virt_offset, boot_pt_root })
}

/// One step of the register/stack/translation handoff a woken core runs
/// before any software stack exists.
#[derive(Clone, Copy, Debug, PartialEq, Eq, Structural)]
pub enum BootStep {
    ReadHardwareCpuId,
    InstallStack,
    DropToKernelEl,
    EnableFloatingPoint,
    InstallPageTableRoot,
    ConvertStackToVirtual,
    CallContinuation,
}

/// The ordered contract of the secondary-core trampoline: the woken core
/// reads its own hardware id, installs the given stack, drops to the
/// kernel's execution level, enables floating point, installs the shared
/// page-table root, converts its stack pointer to the matching virtual
/// address now that translation is active, and only then calls the
/// per-core continuation.  If the continuation ever returns, the core
/// falls into a low-power wait loop.
pub fn secondary_boot_steps() -> (steps: Vec<BootStep>)
    ensures
        steps@ == seq![
            BootStep::ReadHardwareCpuId,
            BootStep::InstallStack,
            BootStep::DropToKernelEl,
            BootStep::EnableFloatingPoint,
            BootStep::InstallPageTableRoot,
            BootStep::ConvertStackToVirtual,
            BootStep::CallContinuation,
        ],
{
    let mut steps: Vec<BootStep> = Vec::new();
    steps.push(BootStep::ReadHardwareCpuId);
    steps.push(BootStep::InstallStack);
    steps.push(BootStep::DropToKernelEl);
    steps.push(BootStep::EnableFloatingPoint);
    steps.push(BootStep::InstallPageTableRoot);
    steps.push(BootStep::ConvertStackToVirtual);
    steps.push(BootStep::CallContinuation);
    proof {
        assert(steps@ =~= seq![
            BootStep::ReadHardwareCpuId,
            BootStep::InstallStack,
            BootStep::DropToKernelEl,
            BootStep::EnableFloatingPoint,
            BootStep::InstallPageTableRoot,
            BootStep::ConvertStackToVirtual,
            BootStep::CallContinuation,
        ]);
    }
    steps
}

/// The stack pointer a woken core must switch to once translation is
/// active: the physical stack top shifted by the kernel's
/// virtual-to-physical offset.
pub fn secondary_stack_virt(stack_top_paddr: usize, phys_virt_offset: usize) -> (vaddr: usize)
    requires
        stack_top_paddr + phys_virt_offset <= usize::MAX,
    ensures
        vaddr == stack_top_paddr + phys_virt_offset,
{
    stack_top_paddr + phys_virt_offset
}

/// Translates a logical core index to the physical core id the roster
/// holds at that index.  An out-of-range index is a configuration error
/// the caller must rule out.
pub fn cpu_idx_to_id(roster: &CpuRoster, cpu_idx: usize) -> (id: usize)
    requires
        cpu_idx < roster@.len(),
    ensures
        id == roster@[cpu_idx as int],
{
    roster.ids[cpu_idx]
}

/// Translates a physical core id to its logical index: the first roster
/// position that holds the id.  An unknown id is a configuration error
/// the caller must rule out.
pub fn cpu_id_to_idx(roster: &CpuRoster, cpu_id: usize) -> (idx: usize)
    requires
        roster@.contains(cpu_id),
    ensures
        idx < roster@.len(),
        roster@[idx as int] == cpu_id,
        forall|j: int| 0 <= j < idx ==> roster@[j] != cpu_id,
        idx == spec_first_index(roster@, cpu_id),
{
    let n = roster.ids.len();
    let mut i: usize = 0;
    while i < n
        invariant
            n == roster@.len(),
            i <= n,
            roster@.contains(cpu_id),
            forall|j: int| 0 <= j < i ==> roster@[j] != cpu_id,
        decreases n - i,
    {
        if roster.ids[i] == cpu_id {
            proof {
                lemma_first_index_unique(roster@, cpu_id, i as int);
            }
            return i;
        }
        i = i + 1;
    }
    proof {
        let k = choose|k: int| 0 <= k < roster@.len() && roster@[k] == cpu_id;
        assert(roster@[k] != cpu_id);
    }
    0
}

} // verus!
