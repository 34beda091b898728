//! Cycle accounting: fixed counts and the taken/not-taken conditional pairs.

use vstd::prelude::*;

verus! {

/// Machine-cycle cost of an instruction, in m-cycles (1 m-cycle = 4 t-cycles).
/// Conditional control flow carries both the taken and the not-taken cost.
#[derive(Clone, Copy, Debug, PartialEq, Eq, Structural)]
pub enum Cycles {
    Cycles(u8),
    ConditionalCycles(u8, u8),
}

/// The m-cycles actually consumed, given whether the branch was taken.
pub open spec fn spec_cycles_value(c: Cycles, taken: bool) -> u8 {
    match c {
        Cycles::Cycles(n) => n,
        Cycles::ConditionalCycles(t, nt) => if taken {
            t
        } else {
            nt
        },
    }
}

} // verus!
