use vstd::prelude::*;

verus! {

/// Counts the pipe pairs spawned so far, to number them.
#[derive(Clone, Copy, Debug, PartialEq, Eq, Structural)]
pub struct PipeCounter {
    pub spawned_pipes: i32,
}

/// One spawn: the number handed out, and the counter after it.
pub open spec fn take_step(c: PipeCounter) -> (i32, PipeCounter) {
    (c.spawned_pipes, PipeCounter { spawned_pipes: (c.spawned_pipes + 1) as i32 })
}

/// The numbers handed out by `k` spawns in a row from `c`, and the counter after them.
pub open spec fn spawn_run(c: PipeCounter, k: nat) -> (Seq<i32>, PipeCounter)
    decreases k,
{
    if k == 0 {
        (Seq::empty(), c)
    } else {
        let prev = spawn_run(c, (k - 1) as nat);
        let step = take_step(prev.1);
        (prev.0.push(step.0), step.1)
    }
}

impl PipeCounter {
    /// No pipe spawned yet.
    pub fn new() -> (c: PipeCounter)
        ensures
            c.spawned_pipes == 0,
    {
        PipeCounter { spawned_pipes: 0 }
    }

    /// The number of the pipe pair about to be spawned; the count goes up by one.
    pub fn take_index(&mut self) -> (index: i32)
        requires
            old(self).spawned_pipes < i32::MAX,
        ensures
            (index, *final(self)) == take_step(*old(self)),
            index == old(self).spawned_pipes,
            final(self).spawned_pipes == old(self).spawned_pipes + 1,
    {
        let index = self.spawned_pipes;
        self.spawned_pipes = self.spawned_pipes + 1;
        index
    }
}

/// Pipe pairs are numbered in spawn order: from a fresh counter, `k` spawns
/// hand out 0, 1, ..., k - 1, and the counter then holds `k`.
pub proof fn lemma_pipes_numbered_in_order(k: nat)
    requires
        k < i32::MAX,
    ensures
        spawn_run(PipeCounter { spawned_pipes: 0 }, k).1.spawned_pipes == k,
        spawn_run(PipeCounter { spawned_pipes: 0 }, k).0.len() == k,
        forall|j: int| 0 <= j < k ==> spawn_run(PipeCounter { spawned_pipes: 0 }, k).0[j] == j,
    decreases k,
{
    if k > 0 {
        lemma_pipes_numbered_in_order((k - 1) as nat);
    }
}

} // verus!
