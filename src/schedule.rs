//! The rotation over the boards: each is served for one time slice, and a
//! full round is followed by a pause.
use crate::board::Boards;
use vstd::prelude::*;

verus! {

/// The longest a board is served before the rotation moves on.
pub const SLICE_MS: u64 = 100;

/// The pause after each full round.
pub const PAUSE_MS: u64 = 1000;

/// One step of the rotation.
#[derive(Clone, Copy, Debug, PartialEq, Eq, Structural)]
pub enum Slot {
    /// Run the driver on `board`, racing it against a timer of `budget_ms`.
    Serve { board: Boards, budget_ms: u64 },
    /// Wait `ms` before the next round.
    Pause { ms: u64 },
}

/// The `k`-th step of the rotation, counting from the first board.
pub open spec fn slot_at(k: nat) -> Slot {
    if k % 4 == 0 {
        Slot::Serve { board: Boards::A, budget_ms: SLICE_MS }
    } else if k % 4 == 1 {
        Slot::Serve { board: Boards::B, budget_ms: SLICE_MS }
    } else if k % 4 == 2 {
        Slot::Serve { board: Boards::C, budget_ms: SLICE_MS }
    } else {
        Slot::Pause { ms: PAUSE_MS }
    }
}

/// How long a step lasts on a virtual clock, when the driver of a served
/// board would finish after `driver_ms` (`None`: it runs on forever). The
/// driver races the slice timer and whichever ends first ends the step.
pub open spec fn slot_ms(slot: Slot, driver_ms: Option<nat>) -> nat {
    match slot {
        Slot::Serve { budget_ms, .. } => match driver_ms {
            Some(d) => if d < budget_ms {
                d
            } else {
                budget_ms as nat
            },
            None => budget_ms as nat,
        },
        Slot::Pause { ms } => ms as nat,
    }
}

/// Where the rotation stands.
pub struct Rotation {
    position: u8,
}

impl Rotation {
    /// The index of the next step within the round.
    pub closed spec fn position(&self) -> nat {
        self.position as nat
    }

    #[verifier::type_invariant]
    closed spec fn inv(self) -> bool {
        self.position < 4
    }

    /// A rotation about to serve the first board.
    pub fn new() -> (r: Rotation)
        ensures
            r.position() == 0,
    {
        Rotation { position: 0 }
    }

    /// The next step; the rotation moves past it.
    pub fn next(&mut self) -> (r: Slot)
        ensures
            old(self).position() < 4,
            r == slot_at(old(self).position()),
            final(self).position() == (old(self).position() + 1) % 4,
    {
        proof {
            use_type_invariant(&*self);
        }
        let r = if self.position == 0 {
            Slot::Serve { board: Boards::A, budget_ms: SLICE_MS }
        } else if self.position == 1 {
            Slot::Serve { board: Boards::B, budget_ms: SLICE_MS }
        } else if self.position == 2 {
            Slot::Serve { board: Boards::C, budget_ms: SLICE_MS }
        } else {
            Slot::Pause { ms: PAUSE_MS }
        };
        self.position = if self.position == 3 {
            0
        } else {
            self.position + 1
        };
        r
    }
}

/// In every round the three boards are served in order, none for longer
/// than the slice whatever its driver does, and the round ends with the full
/// pause before the first board is served again.
pub proof fn lemma_rotation_timing(round: nat, a_ms: Option<nat>, b_ms: Option<nat>, c_ms: Option<nat>)
    ensures
        slot_at(4 * round) == (Slot::Serve { board: Boards::A, budget_ms: SLICE_MS }),
        slot_at(4 * round + 1) == (Slot::Serve { board: Boards::B, budget_ms: SLICE_MS }),
        slot_at(4 * round + 2) == (Slot::Serve { board: Boards::C, budget_ms: SLICE_MS }),
        slot_at(4 * round + 3) == (Slot::Pause { ms: PAUSE_MS }),
        slot_at(4 * (round + 1)) == slot_at(4 * round),
        slot_ms(slot_at(4 * round), a_ms) <= SLICE_MS,
        slot_ms(slot_at(4 * round + 1), b_ms) <= SLICE_MS,
        slot_ms(slot_at(4 * round + 2), c_ms) <= SLICE_MS,
        slot_ms(slot_at(4 * round + 3), None) == PAUSE_MS,
{
    assert((4 * round) % 4 == 0) by (nonlinear_arith);
    assert((4 * round + 1) % 4 == 1) by (nonlinear_arith);
    assert((4 * round + 2) % 4 == 2) by (nonlinear_arith);
    assert((4 * round + 3) % 4 == 3) by (nonlinear_arith);
    assert((4 * (round + 1)) % 4 == 0) by (nonlinear_arith);
}

} // verus!
