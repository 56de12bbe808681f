use vstd::prelude::*;

verus! {

/// What `signal` does to the counter: `value` is handed to the queue and the
/// counter moves one past it.
pub open spec fn signal_step(before: nat, after: nat, value: nat) -> bool {
    value == before && after == before + 1
}

/// The CPU side of the fence: the value that the next signal will carry.
#[derive(Clone, Copy, PartialEq, Eq, Structural, Debug)]
pub struct FrameSync {
    pub next_value: u64,
}

impl FrameSync {
    /// A fresh synchronizer; the first signal carries 1.
    pub fn new() -> (r: FrameSync)
        ensures
            r.next_value == 1,
    {
        FrameSync { next_value: 1 }
    }

    /// Takes the value for the next signal and advances the counter. `None`
    /// when the counter cannot advance any more.
    pub fn signal(&mut self) -> (r: Option<u64>)
        ensures
            old(self).next_value < u64::MAX <==> r.is_some(),
            r matches Some(v) ==> signal_step(
                old(self).next_value as nat,
                final(self).next_value as nat,
                v as nat,
            ),
            r is None ==> *final(self) == *old(self),
    {
        if self.next_value < u64::MAX {
            let v = self.next_value;
            self.next_value = v + 1;
            Some(v)
        } else {
            None
        }
    }
}

/// Whether a wait on `value` may end, given the fence's completed value.
pub fn fence_reached(completed: u64, value: u64) -> (r: bool)
    ensures
        r == (completed >= value),
{
    completed >= value
}

/// Successive signals carry strictly increasing values: along any chain of
/// counter states in which each signal starts where the previous one left the
/// counter, a later signal carries a larger value than an earlier one.
pub proof fn lemma_signals_increase(counters: Seq<nat>, values: Seq<nat>, i: int, j: int)
    requires
        counters.len() == values.len() + 1,
        forall|k: int|
            0 <= k < values.len() ==> signal_step(counters[k], counters[k + 1], #[trigger] values[k]),
        0 <= i < j < values.len(),
    ensures
        values[i] < values[j],
    decreases j - i,
{
    assert(values[j - 1] < values[j]);
    if i < j - 1 {
        lemma_signals_increase(counters, values, i, j - 1);
    }
}

} // verus!
