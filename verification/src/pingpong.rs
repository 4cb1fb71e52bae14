//! The ping-pong controller for double-buffered iterative compute.
//!
//! Two resource slots, A and B, alternate between the input role (read by
//! the pass) and the output role (written by the pass). After each
//! iteration the roles flip, so the next pass reads what the previous one
//! wrote. The input role after any number of iterations is a pure
//! function of the seed role and the iteration count.

use vstd::prelude::*;

verus! {

/// A resource slot of the controller.
#[derive(Clone, Copy, Debug, PartialEq, Eq, Structural)]
pub enum Slot {
    A,
    B,
}

impl Slot {
    /// The other slot.
    pub open spec fn spec_other(self) -> Slot {
        match self {
            Slot::A => Slot::B,
            Slot::B => Slot::A,
        }
    }

    #[verifier::when_used_as_spec(spec_other)]
    pub fn other(self) -> (r: Slot)
        ensures
            r == self.spec_other(),
    {
        match self {
            Slot::A => Slot::B,
            Slot::B => Slot::A,
        }
    }

    /// The index of this slot in a two-element resource array.
    pub open spec fn spec_index(self) -> usize {
        match self {
            Slot::A => 0,
            Slot::B => 1,
        }
    }

    #[verifier::when_used_as_spec(spec_index)]
    pub fn index(self) -> (r: usize)
        ensures
            r == self.spec_index(),
    {
        match self {
            Slot::A => 0,
            Slot::B => 1,
        }
    }
}

/// Which slot a readback observes each iteration: the slot that was the
/// pass's input (the previous automaton state, lagging one step behind),
/// or the slot the pass just wrote (the current state).
#[derive(Clone, Copy, Debug, PartialEq, Eq, Structural)]
pub enum ObservePolicy {
    PreviousState,
    CurrentState,
}

/// The input role after `n` iterations from seed role `seed`: the seed
/// itself after an even number of iterations, the other slot after an odd
/// number.
pub open spec fn spec_role_after(seed: Slot, n: nat) -> Slot {
    if n % 2 == 0 {
        seed
    } else {
        seed.spec_other()
    }
}

/// The ping-pong controller: tracks the seed role, the iteration count,
/// and the current input role.
#[derive(Clone, Copy, Debug, PartialEq, Eq, Structural)]
pub struct PingPong {
    pub seed: Slot,
    pub iterations: u64,
    pub input: Slot,
}

impl PingPong {
    /// The current input role is determined by the seed role and the
    /// iteration count alone.
    pub open spec fn wf(self) -> bool {
        self.input == spec_role_after(self.seed, self.iterations as nat)
    }

    pub open spec fn spec_seed(self) -> Slot {
        self.seed
    }

    pub open spec fn spec_iterations(self) -> u64 {
        self.iterations
    }

    pub open spec fn spec_input(self) -> Slot {
        self.input
    }

    /// The current output role: always the slot opposite the input.
    pub open spec fn spec_output(self) -> Slot {
        self.input.spec_other()
    }

    /// A fresh controller with `seed` as the input role of the first
    /// iteration.
    pub fn with_seed(seed: Slot) -> (r: PingPong)
        ensures
            r.wf(),
            r.spec_seed() == seed,
            r.spec_iterations() == 0,
            r.spec_input() == seed,
    {
        PingPong { seed, iterations: 0, input: seed }
    }

    /// A fresh controller seeded with slot A as the input role.
    pub fn new() -> (r: PingPong)
        ensures
            r.wf(),
            r.spec_seed() == Slot::A,
            r.spec_iterations() == 0,
            r.spec_input() == Slot::A,
    {
        PingPong::with_seed(Slot::A)
    }

    /// The slot the current iteration reads.
    pub fn input_slot(&self) -> (r: Slot)
        ensures
            r == self.spec_input(),
    {
        self.input
    }

    /// The slot the current iteration writes.
    pub fn output_slot(&self) -> (r: Slot)
        ensures
            r == self.spec_output(),
    {
        self.input.other()
    }

    /// How many iterations have completed.
    pub fn iterations(&self) -> (r: u64)
        ensures
            r == self.spec_iterations(),
    {
        self.iterations
    }

    /// The index of the precomputed bind group for the current iteration:
    /// the one that reads the input slot and writes the output slot.
    pub fn bind_group_index(&self) -> (r: usize)
        ensures
            r == self.spec_input().spec_index(),
            r < 2,
    {
        self.input.index()
    }

    /// The slot a readback of this iteration observes under `policy`.
    pub fn observed_slot(&self, policy: ObservePolicy) -> (r: Slot)
        ensures
            policy == ObservePolicy::PreviousState ==> r == self.spec_input(),
            policy == ObservePolicy::CurrentState ==> r == self.spec_output(),
    {
        match policy {
            ObservePolicy::PreviousState => self.input,
            ObservePolicy::CurrentState => self.input.other(),
        }
    }

    /// Completes one iteration: the roles flip, so the next pass reads
    /// what this one wrote.
    pub fn step(&mut self)
        requires
            old(self).wf(),
            old(self).spec_iterations() < u64::MAX,
        ensures
            final(self).wf(),
            final(self).spec_seed() == old(self).spec_seed(),
            final(self).spec_iterations() == old(self).spec_iterations() + 1,
            final(self).spec_input() == old(self).spec_input().spec_other(),
            final(self).spec_output() == old(self).spec_input(),
    {
        self.iterations = self.iterations + 1;
        self.input = self.input.other();
    }
}

/// The role-alternation law: after `n` iterations the input role equals
/// the seed role exactly when `n` is even, and the opposite slot exactly
/// when `n` is odd; in particular the assignment is periodic with period
/// two, so after any even count the controller is back at its seed.
pub proof fn lemma_role_alternation(seed: Slot, n: nat)
    ensures
        spec_role_after(seed, n) == seed <==> n % 2 == 0,
        spec_role_after(seed, n) == seed.spec_other() <==> n % 2 == 1,
        spec_role_after(seed, n + 2) == spec_role_after(seed, n),
        spec_role_after(seed, n + 1) == spec_role_after(seed, n).spec_other(),
{
    assert((n + 2) % 2 == n % 2);
    assert((n + 1) % 2 == if n % 2 == 0 { 1nat } else { 0nat });
}

} // verus!
