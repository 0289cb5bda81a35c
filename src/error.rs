use vstd::prelude::*;

verus! {

/// Why an integer computation gave no usable result.
#[derive(Clone, Copy, Debug, PartialEq, Eq, Structural)]
pub enum ArithmeticError {
    /// A product left the widened integer range.
    Overflow,
    /// A divisor (a reserve, a supply) was zero.
    DivisionByZero,
    /// A quote whose slippage-bounded minimum output is zero.
    ZeroOutput,
    /// An LP amount that rounds down to zero.
    ZeroResult,
    /// A widened result that does not fit back into 64 bits.
    NarrowingFailure,
}

} // verus!
