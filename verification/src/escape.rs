//! Per-point escape-time bookkeeping.
//!
//! The numeric iteration z <- z*z + c runs outside this crate; what is
//! decided here is purely discrete: at each step the caller reports
//! whether the current iterate has left the escape radius, and the probe
//! answers when to stop and which escape value the point gets.

use vstd::prelude::*;

verus! {

/// The escape step determined by a sequence of events.
///
/// `events[i]` records whether the iterate at step `i` already lies
/// outside the escape radius.  The escape index is the first step whose
/// event is true; a point whose events are all false through step
/// `max_iters` counts as bounded and gets `max_iters`.  Events past step
/// `max_iters` are never consulted, and a sequence that ends early with
/// only false events also counts as bounded.
pub open spec fn escape_index(events: Seq<bool>, max_iters: int) -> int
    recommends
        0 <= max_iters,
    decreases events.len(),
{
    if events.len() == 0 {
        max_iters
    } else if events[0] || max_iters <= 0 {
        0
    } else {
        1 + escape_index(events.drop_first(), max_iters - 1)
    }
}

/// Every escape index lies in [0, max_iters].
pub proof fn lemma_escape_index_bounds(events: Seq<bool>, max_iters: int)
    requires
        0 <= max_iters,
    ensures
        0 <= escape_index(events, max_iters) <= max_iters,
    decreases events.len(),
{
    if events.len() == 0 {
    } else if events[0] || max_iters <= 0 {
    } else {
        lemma_escape_index_bounds(events.drop_first(), max_iters - 1);
    }
}

/// A decided prefix: every step before the last saw no escape, and the
/// last step either saw one or is step `max_iters` itself.
pub open spec fn decided_prefix(events: Seq<bool>, max_iters: int) -> bool {
    &&& events.len() >= 1
    &&& events.len() - 1 <= max_iters
    &&& forall|j: int| 0 <= j < events.len() - 1 ==> !events[j]
    &&& (events.last() || events.len() - 1 == max_iters)
}

/// On a decided prefix the escape index is the index of the last step.
pub proof fn lemma_escape_index_of_decided(events: Seq<bool>, max_iters: int)
    requires
        0 <= max_iters,
        decided_prefix(events, max_iters),
    ensures
        escape_index(events, max_iters) == events.len() - 1,
    decreases events.len(),
{
    if events.len() == 1 {
    } else {
        assert(!events[0]);
        lemma_escape_index_of_decided(events.drop_first(), max_iters - 1);
    }
}

/// Later events cannot change a decision already taken: any extension of
/// a decided prefix has the same escape index as the prefix itself.  This
/// is what lets the iteration stop as soon as the probe settles.
pub proof fn lemma_escape_index_extension(events: Seq<bool>, longer: Seq<bool>, max_iters: int)
    requires
        0 <= max_iters,
        decided_prefix(events, max_iters),
        events.len() <= longer.len(),
        longer.take(events.len() as int) == events,
    ensures
        escape_index(longer, max_iters) == escape_index(events, max_iters),
    decreases events.len(),
{
    assert(longer[0] == events[0]) by {
        assert(longer.take(events.len() as int)[0] == longer[0]);
    }
    if events.len() == 1 {
        if events[0] || max_iters <= 0 {
        } else {
            assert(events.len() - 1 == max_iters);
            assert(max_iters == 0);
        }
    } else {
        assert(!events[0]);
        assert(events.len() - 1 <= max_iters);
        assert(longer.drop_first().take(events.len() - 1) =~= events.drop_first()) by {
            assert(forall|i: int|
                0 <= i < events.len() - 1 ==> longer.drop_first()[i] == longer.take(
                    events.len() as int,
                )[i + 1]);
        }
        lemma_escape_index_extension(events.drop_first(), longer.drop_first(), max_iters - 1);
    }
}

/// Step-by-step escape decision for one grid point.
///
/// The caller owns the numeric iteration.  Starting from z = 0 it reports
/// one event per step -- whether the current iterate has left the escape
/// radius -- and the probe answers `Some(value)` as soon as the point's
/// escape value is determined: at the first true event, or at step
/// `max_iters` at the latest.  `history` is the ghost record of the
/// events seen so far.
pub struct EscapeProbe {
    pub max_iters: usize,
    pub steps: usize,
    pub outcome: Option<usize>,
    pub history: Ghost<Seq<bool>>,
}

impl EscapeProbe {
    /// Bookkeeping invariant: `steps` counts the undecided events, the
    /// history matches them, and a settled outcome is exactly the escape
    /// index of the recorded history.
    pub open spec fn wf(self) -> bool {
        match self.outcome {
            None => {
                &&& self.history@.len() == self.steps
                &&& self.steps <= self.max_iters
                &&& forall|j: int| 0 <= j < self.history@.len() ==> !self.history@[j]
            },
            Some(v) => {
                &&& self.history@.len() >= 1
                &&& v == self.history@.len() - 1
                &&& v == self.steps
                &&& decided_prefix(self.history@, self.max_iters as int)
                &&& v == escape_index(self.history@, self.max_iters as int)
                &&& v <= self.max_iters
            },
        }
    }

    /// A fresh probe that has seen no events yet.
    pub fn new(max_iters: usize) -> (p: EscapeProbe)
        ensures
            p.wf(),
            p.max_iters == max_iters,
            p.steps == 0,
            p.outcome is None,
            p.history@ == Seq::<bool>::empty(),
    {
        EscapeProbe { max_iters, steps: 0, outcome: None, history: Ghost(Seq::empty()) }
    }

    /// Feed the event for the next step.  The probe settles on the first
    /// true event, whose index becomes the escape value, or at step
    /// `max_iters`, which then is the escape value; either way the value
    /// is the escape index of the whole recorded history.
    pub fn observe(&mut self, escaped: bool) -> (r: Option<usize>)
        requires
            old(self).wf(),
            old(self).outcome is None,
        ensures
            final(self).wf(),
            final(self).max_iters == old(self).max_iters,
            final(self).history@ == old(self).history@.push(escaped),
            final(self).outcome == r,
            (r is Some) <==> (escaped || old(self).steps == old(self).max_iters),
            r is None ==> final(self).steps == old(self).steps + 1,
            r is Some ==> final(self).steps == old(self).steps,
            r is Some ==> r->0 == old(self).steps && r->0 == escape_index(
                final(self).history@,
                old(self).max_iters as int,
            ) && r->0 <= old(self).max_iters,
    {
        let i = self.steps;
        self.history = Ghost(self.history@.push(escaped));
        if escaped || i == self.max_iters {
            self.outcome = Some(i);
            proof {
                assert(decided_prefix(self.history@, self.max_iters as int));
                lemma_escape_index_of_decided(self.history@, self.max_iters as int);
            }
            Some(i)
        } else {
            self.steps = i + 1;
            None
        }
    }
}

} // verus!
