//! Trigger-mode lookup in the firmware-reported interrupt hints.
//!
//! The firmware description lists, per device node, the interrupt
//! specifiers the node raises: little arrays of cells in the standard
//! layout, `[type, number, flags]` (or a single cell for a
//! software-generated interrupt).  The interrupt-controller driver
//! parses one specifier into a hardware interrupt id and trigger mode;
//! this module decides which hint applies to a line: within one node the
//! first matching specifier counts, and a later node's match supersedes
//! an earlier node's.

use vstd::prelude::*;

use crate::irq::TriggerMode;

verus! {

/// The hardware interrupt id a specifier's type and number cells select:
/// shared peripherals start at 32, private peripherals at 16, extended
/// shared at 4096, extended private at 1056, locality-specific ids are
/// taken as they stand, and partitioned private ones fold into the
/// private or extended-private range.
pub open spec fn spec_specifier_id(ty: u32, num: u32) -> u32 {
    if ty == 0 {
        (num + 32) as u32
    } else if ty == 1 {
        (num + 16) as u32
    } else if ty == 2 {
        (num + 4096) as u32
    } else if ty == 3 {
        (num + 1056) as u32
    } else if ty == 4 {
        num
    } else if num >= 16 {
        (1056 + num - 16) as u32
    } else {
        (16 + num) as u32
    }
}

/// What one firmware interrupt specifier parses to, if anything: a
/// single cell below 16 is a software-generated interrupt (always
/// edge-triggered); otherwise three cells give type, number and flags,
/// where flag bits 1/2/3 mean edge, 4/8 mean level, and an absent flag
/// is allowed only for the partitioned type.  Anything else is
/// malformed.
pub open spec fn spec_parse_specifier(cells: Seq<u32>) -> Option<(u32, TriggerMode)> {
    if cells.len() == 1 && cells[0] < 16 {
        Some((cells[0], TriggerMode::Edge))
    } else if cells.len() < 3 {
        None
    } else {
        let ty = cells[0];
        let num = cells[1];
        let flags = cells[2] & 0xf;
        if ty > 5 {
            None
        } else if flags == 1 || flags == 2 || flags == 3 {
            Some((spec_specifier_id(ty, num), TriggerMode::Edge))
        } else if flags == 4 || flags == 8 {
            Some((spec_specifier_id(ty, num), TriggerMode::Level))
        } else if flags == 0 && ty == 5 {
            Some((spec_specifier_id(ty, num), TriggerMode::Level))
        } else {
            None
        }
    }
}

/// A specifier the lookup may be run on: it parses, and its number cell
/// keeps the id arithmetic inside the 32-bit range.
pub open spec fn spec_specifier_ok(cells: Seq<u32>) -> bool {
    &&& spec_parse_specifier(cells) is Some
    &&& (cells.len() >= 3 ==> cells[1] + 4096 <= u32::MAX)
}

/// Relies on arm_gic_driver::fdt_parse_irq_config: a firmware interrupt
/// specifier parses to the hardware interrupt id and trigger mode given
/// by `spec_parse_specifier`, as a function of the cells alone; a
/// malformed specifier is an error.
#[verifier::external_body]
fn parse_specifier(cells: &Vec<u32>) -> (r: Option<(u32, TriggerMode)>)
    requires
        cells@.len() >= 3 ==> cells@[1] + 4096 <= u32::MAX,
    ensures
        r == spec_parse_specifier(cells@),
{
    match arm_gic_driver::fdt_parse_irq_config(cells.as_slice()) {
        Ok(config) => {
            let id: u32 = config.id.to_u32();
            let trigger = match config.trigger {
                arm_gic_driver::v2::Trigger::Edge => TriggerMode::Edge,
                arm_gic_driver::v2::Trigger::Level => TriggerMode::Level,
            };
            Some((id, trigger))
        },
        Err(_) => None,
    }
}

/// Decides whether the lookup may be run on a specifier.
pub fn specifier_ok(cells: &Vec<u32>) -> (r: bool)
    ensures
        r == spec_specifier_ok(cells@),
{
    let n = cells.len();
    if n == 1 {
        return cells[0] < 16;
    }
    if n < 3 {
        return false;
    }
    if cells[1] > u32::MAX - 4096 {
        return false;
    }
    let ty = cells[0];
    let flags = cells[2] & 0xf;
    if ty > 5 {
        return false;
    }
    flags == 1 || flags == 2 || flags == 3 || flags == 4 || flags == 8 || (flags == 0 && ty == 5)
}

/// Whether every specifier of every node may be looked up.
pub open spec fn spec_all_specifiers_ok(nodes: Seq<Vec<Vec<u32>>>) -> bool {
    forall|n: int, e: int|
        0 <= n < nodes.len() && 0 <= e < nodes[n]@.len() ==> spec_specifier_ok(
            (#[trigger] nodes[n]@[e])@,
        )
}

/// Decides whether every specifier of every node may be looked up; a
/// malformed specifier in the firmware description is a fatal
/// configuration error the caller reports.
pub fn check_specifiers(nodes: &Vec<Vec<Vec<u32>>>) -> (r: bool)
    ensures
        r == spec_all_specifiers_ok(nodes@),
{
    let n = nodes.len();
    let mut i: usize = 0;
    while i < n
        invariant
            n == nodes@.len(),
            i <= n,
            forall|n2: int, e2: int|
                0 <= n2 < i && 0 <= e2 < nodes@[n2]@.len() ==> spec_specifier_ok(
                    (#[trigger] nodes@[n2]@[e2])@,
                ),
        decreases n - i,
    {
        let m = nodes[i].len();
        let mut j: usize = 0;
        while j < m
            invariant
                i < n,
                n == nodes@.len(),
                m == nodes@[i as int]@.len(),
                j <= m,
                forall|n2: int, e2: int|
                    0 <= n2 < i && 0 <= e2 < nodes@[n2]@.len() ==> spec_specifier_ok(
                        (#[trigger] nodes@[n2]@[e2])@,
                    ),
                forall|e2: int|
                    0 <= e2 < j ==> spec_specifier_ok((#[trigger] nodes@[i as int]@[e2])@),
            decreases m - j,
        {
            if !specifier_ok(&nodes[i][j]) {
                return false;
            }
            j = j + 1;
        }
        i = i + 1;
    }
    true
}

/// The (line, trigger) pairs one node's specifiers parse to; meaningful
/// where every specifier of the node parses.
pub open spec fn spec_parsed_node(node: Vec<Vec<u32>>) -> Seq<(usize, TriggerMode)> {
    node@.map_values(
        |cells: Vec<u32>|
            (
                (spec_parse_specifier(cells@)->Some_0).0 as usize,
                (spec_parse_specifier(cells@)->Some_0).1,
            ),
    )
}

/// The first entry of one node that concerns the line, if any.
pub open spec fn spec_first_match(entries: Seq<(usize, TriggerMode)>, irq: usize) -> Option<
    TriggerMode,
>
    decreases entries.len(),
{
    if entries.len() == 0 {
        None
    } else if entries[0].0 == irq {
        Some(entries[0].1)
    } else {
        spec_first_match(entries.skip(1), irq)
    }
}

/// The trigger hint the whole description yields for the line: the last
/// node with a matching entry wins, and within it the first match.
pub open spec fn spec_find_trigger(
    nodes: Seq<Seq<(usize, TriggerMode)>>,
    irq: usize,
) -> Option<TriggerMode>
    decreases nodes.len(),
{
    if nodes.len() == 0 {
        None
    } else {
        match spec_first_match(nodes.last(), irq) {
            Some(t) => Some(t),
            None => spec_find_trigger(nodes.drop_last(), irq),
        }
    }
}

/// The first entry of one node that concerns the line, if any.
fn first_match_in_node(entries: &Vec<(usize, TriggerMode)>, irq: usize) -> (r: Option<TriggerMode>)
    ensures
        r == spec_first_match(entries@, irq),
{
    let n = entries.len();
    let mut i: usize = 0;
    proof {
        assert(entries@.skip(0) =~= entries@);
    }
    while i < n
        invariant
            n == entries@.len(),
            i <= n,
            spec_first_match(entries@, irq) == spec_first_match(entries@.skip(i as int), irq),
        decreases n - i,
    {
        let (id, trigger) = entries[i];
        proof {
            assert(entries@.skip(i as int)[0] == entries@[i as int]);
            assert(entries@.skip(i as int).skip(1) =~= entries@.skip(i + 1));
        }
        if id == irq {
            return Some(trigger);
        }
        i = i + 1;
    }
    None
}

/// Finds the trigger hint for one interrupt line in already-parsed
/// per-node (line, trigger) hints.
pub fn find_trigger_in_hints(irq_raw: usize, nodes: &Vec<Vec<(usize, TriggerMode)>>) -> (r: Option<
    TriggerMode,
>)
    ensures
        r == spec_find_trigger(nodes@.map_values(|v: Vec<(usize, TriggerMode)>| v@), irq_raw),
{
    let ghost all = nodes@.map_values(|v: Vec<(usize, TriggerMode)>| v@);
    let n = nodes.len();
    let mut cur: Option<TriggerMode> = None;
    let mut i: usize = 0;
    while i < n
        invariant
            n == nodes@.len(),
            i <= n,
            all == nodes@.map_values(|v: Vec<(usize, TriggerMode)>| v@),
            cur == spec_find_trigger(all.take(i as int), irq_raw),
        decreases n - i,
    {
        let found = first_match_in_node(&nodes[i], irq_raw);
        proof {
            assert(all.take(i + 1).drop_last() =~= all.take(i as int));
            assert(all.take(i + 1).last() == all[i as int]);
            assert(all[i as int] == nodes@[i as int]@);
        }
        match found {
            Some(t) => {
                cur = Some(t);
            },
            None => {},
        }
        i = i + 1;
    }
    proof {
        assert(all.take(n as int) =~= all);
    }
    cur
}

/// Finds the trigger hint for one interrupt line directly in the raw
/// firmware interrupt specifiers, node by node: each specifier is parsed
/// by the interrupt-controller driver, and the hint decision is made on
/// the parsed pairs.  The description must pass `check_specifiers`
/// first: a specifier that does not parse is a fatal configuration
/// error.
pub fn find_trigger(irq_raw: usize, nodes: &Vec<Vec<Vec<u32>>>) -> (r: Option<TriggerMode>)
    requires
        spec_all_specifiers_ok(nodes@),
    ensures
        r == spec_find_trigger(
            nodes@.map_values(|node: Vec<Vec<u32>>| spec_parsed_node(node)),
            irq_raw,
        ),
{
    let ghost target = nodes@.map_values(|node: Vec<Vec<u32>>| spec_parsed_node(node));
    let n = nodes.len();
    let mut parsed: Vec<Vec<(usize, TriggerMode)>> = Vec::new();
    let mut i: usize = 0;
    while i < n
        invariant
            n == nodes@.len(),
            i <= n,
            spec_all_specifiers_ok(nodes@),
            target == nodes@.map_values(|node: Vec<Vec<u32>>| spec_parsed_node(node)),
            parsed@.len() == i,
            forall|k: int| 0 <= k < i ==> (#[trigger] parsed@[k])@ == target[k],
        decreases n - i,
    {
        let m = nodes[i].len();
        let mut inner: Vec<(usize, TriggerMode)> = Vec::new();
        let mut j: usize = 0;
        while j < m
            invariant
                i < n,
                n == nodes@.len(),
                m == nodes@[i as int]@.len(),
                j <= m,
                spec_all_specifiers_ok(nodes@),
                inner@.len() == j,
                forall|e: int|
                    0 <= e < j ==> inner@[e] == spec_parsed_node(nodes@[i as int])[e],
            decreases m - j,
        {
            proof {
                assert(spec_specifier_ok((nodes@[i as int]@[j as int])@));
            }
            match parse_specifier(&nodes[i][j]) {
                Some(pair) => {
                    let id_usize: usize = pair.0 as usize;
                    inner.push((id_usize, pair.1));
                },
                None => {
                    proof {
                        assert(false);
                    }
                },
            }
            j = j + 1;
        }
        proof {
            assert(inner@ =~= spec_parsed_node(nodes@[i as int]));
        }
        parsed.push(inner);
        i = i + 1;
    }
    let r = find_trigger_in_hints(irq_raw, &parsed);
    proof {
        assert(parsed@.map_values(|v: Vec<(usize, TriggerMode)>| v@) =~= target);
    }
    r
}

} // verus!
