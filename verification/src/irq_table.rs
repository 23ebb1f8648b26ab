//! Fixed-capacity IRQ handler registry.
//!
//! One slot per interrupt line, at most one handler per line.  A slot is
//! claimed by the first successful `register_handler` and stays claimed
//! until `unregister_handler` releases it; a second registration attempt
//! on a claimed line fails and changes nothing.

use vstd::prelude::*;

use crate::MAX_IRQ_COUNT;

verus! {

/// What a successful or failed registration does to the registry, as a
/// function of the prior slots: the pair is (new slots, success flag).
pub open spec fn spec_register<T>(s: Seq<Option<T>>, irq: usize, h: T) -> (Seq<Option<T>>, bool) {
    if (irq as int) < s.len() && s[irq as int] is None {
        (s.update(irq as int, Some(h)), true)
    } else {
        (s, false)
    }
}

/// What removing a handler does to the registry: the pair is
/// (new slots, previous handler, if any).
pub open spec fn spec_unregister<T>(s: Seq<Option<T>>, irq: usize) -> (Seq<Option<T>>, Option<T>) {
    if (irq as int) < s.len() {
        (s.update(irq as int, None), s[irq as int])
    } else {
        (s, None)
    }
}

/// Law: registering a handler on a free line and then unregistering it
/// hands the handler back and returns the whole registry to its prior
/// state, so the line is back to "no handler".  (The matching disable
/// plan of `IrqController::unregister` turns the hardware enable bit
/// off.)
pub proof fn lemma_register_unregister_round_trip<T>(s: Seq<Option<T>>, irq: usize, h: T)
    requires
        s.len() == MAX_IRQ_COUNT,
        irq < MAX_IRQ_COUNT,
        s[irq as int] is None,
    ensures
        ({
            let (s1, ok) = spec_register(s, irq, h);
            let (s2, prev) = spec_unregister(s1, irq);
            ok && prev == Some(h) && s2 == s
        }),
{
    let (s1, ok) = spec_register(s, irq, h);
    let (s2, prev) = spec_unregister(s1, irq);
    assert(s2 =~= s);
}

/// Law: a second registration on a claimed line fails, changes nothing,
/// and leaves the first handler in place, so dispatch on that line still
/// reaches the first handler.
pub proof fn lemma_second_register_fails<T>(s: Seq<Option<T>>, irq: usize, h1: T, h2: T)
    requires
        s.len() == MAX_IRQ_COUNT,
        irq < MAX_IRQ_COUNT,
        s[irq as int] is None,
    ensures
        ({
            let (s1, ok1) = spec_register(s, irq, h1);
            let (s2, ok2) = spec_register(s1, irq, h2);
            ok1 && !ok2 && s2 == s1 && s2[irq as int] == Some(h1)
        }),
{
}

/// Law: registrations on two distinct free lines both succeed, do not
/// disturb each other, commute, and each handler stays independently
/// retrievable under its own line.
pub proof fn lemma_disjoint_registers_independent<T>(
    s: Seq<Option<T>>,
    irq1: usize,
    h1: T,
    irq2: usize,
    h2: T,
)
    requires
        s.len() == MAX_IRQ_COUNT,
        irq1 < MAX_IRQ_COUNT,
        irq2 < MAX_IRQ_COUNT,
        irq1 != irq2,
        s[irq1 as int] is None,
        s[irq2 as int] is None,
    ensures
        ({
            let (s1, ok1) = spec_register(s, irq1, h1);
            let (s2, ok2) = spec_register(s1, irq2, h2);
            let (t1, swapped_ok1) = spec_register(s, irq2, h2);
            let (t2, swapped_ok2) = spec_register(t1, irq1, h1);
            ok1 && ok2 && swapped_ok1 && swapped_ok2 && s2 == t2 && s2[irq1 as int] == Some(h1)
                && s2[irq2 as int] == Some(h2)
        }),
{
    let (s1, ok1) = spec_register(s, irq1, h1);
    let (s2, ok2) = spec_register(s1, irq2, h2);
    let (t1, swapped_ok1) = spec_register(s, irq2, h2);
    let (t2, swapped_ok2) = spec_register(t1, irq1, h1);
    assert(s2 =~= t2);
}

/// Fixed-capacity registry mapping each interrupt line to its handler.
pub struct HandlerTable<T> {
    slots: Vec<Option<T>>,
}

impl<T> HandlerTable<T> {
    /// The registry seen as a sequence of optional handlers, one per line.
    pub closed spec fn view(&self) -> Seq<Option<T>> {
        self.slots@
    }

    /// The registry always holds exactly one slot per interrupt line.
    pub closed spec fn wf(&self) -> bool {
        self.slots@.len() == MAX_IRQ_COUNT
    }

    /// An empty registry: no line has a handler.
    pub fn new() -> (t: Self)
        ensures
            t.wf(),
            t@.len() == MAX_IRQ_COUNT,
            forall|i: int| 0 <= i < MAX_IRQ_COUNT ==> t@[i] is None,
    {
        let mut slots: Vec<Option<T>> = Vec::new();
        let mut n: usize = 0;
        while n < MAX_IRQ_COUNT
            invariant
                n <= MAX_IRQ_COUNT,
                slots@.len() == n,
                forall|i: int| 0 <= i < n ==> slots@[i] is None,
            decreases MAX_IRQ_COUNT - n,
        {
            slots.push(None);
            n = n + 1;
        }
        HandlerTable { slots }
    }

    /// Claims the line for `handler`.  Fails, with no side effect, when the
    /// line is out of range or already claimed; the first claim wins.
    pub fn register_handler(&mut self, irq: usize, handler: T) -> (ok: bool)
        requires
            old(self).wf(),
        ensures
            final(self).wf(),
            (final(self)@, ok) == spec_register(old(self)@, irq, handler),
            ok == (irq < MAX_IRQ_COUNT && old(self)@[irq as int] is None),
    {
        if irq >= MAX_IRQ_COUNT {
            return false;
        }
        if self.slots[irq].is_some() {
            return false;
        }
        self.slots.set(irq, Some(handler));
        true
    }

    /// Releases the line and hands back the handler it held, if any.
    pub fn unregister_handler(&mut self, irq: usize) -> (prev: Option<T>)
        requires
            old(self).wf(),
        ensures
            final(self).wf(),
            (final(self)@, prev) == spec_unregister(old(self)@, irq),
            irq < MAX_IRQ_COUNT ==> final(self)@[irq as int] is None,
    {
        if irq >= MAX_IRQ_COUNT {
            return None;
        }
        // swap an empty slot in to take the handler out without cloning it
        self.slots.push(None);
        let prev = self.slots.swap_remove(irq);
        prev
    }

    /// The handler registered for the line, if any.
    pub fn handler_for(&self, irq: usize) -> (h: Option<&T>)
        requires
            self.wf(),
        ensures
            match h {
                Some(r) => irq < MAX_IRQ_COUNT && self@[irq as int] == Some(*r),
                None => irq >= MAX_IRQ_COUNT || self@[irq as int] is None,
            },
    {
        if irq >= MAX_IRQ_COUNT {
            return None;
        }
        match &self.slots[irq] {
            Some(h) => Some(h),
            None => None,
        }
    }
}

} // verus!
