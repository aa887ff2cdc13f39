//! Operator routings of the FM synthesizer.

use vstd::prelude::*;

verus! {

/// Routing algorithm for FM operators.
#[derive(Debug, Clone, Copy, PartialEq, Eq, Structural, Hash)]
pub enum FmAlgorithm {
    /// 2-op serial: op1 modulates op2, op2 is carrier.
    Serial2,
    /// 2-op parallel: op1 and op2 both output (additive).
    Parallel2,
    /// 4-op serial chain: op1 -> op2 -> op3 -> op4 (carrier).
    Serial4,
    /// 4-op stack: (op1+op2) modulates (op3+op4), latter pair is carrier.
    Stack4,
    /// Custom algorithm — caller manages modulation externally.
    Custom,
}

} // verus!
