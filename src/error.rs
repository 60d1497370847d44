//! The ways an operand or an instruction can be ill-formed.
use vstd::prelude::*;

verus! {

/// A violated rule of operand construction or instruction shape. Each one is a
/// mistake of the code generator, not of its input; the caller decides whether
/// it is fatal.
#[derive(Copy, Clone, Debug, PartialEq, Eq, Hash, Structural)]
pub enum AsmError {
    /// Both operands have a known size, and the sizes differ.
    SizeMismatch,
    /// No operand has a known size, so no suffix can be chosen.
    SizeUnknown,
    /// A base or an index was given to an instruction-pointer-relative operand.
    InvalidAddressingOperation,
    /// A second label was attached to one memory operand.
    DuplicateDisplacement,
    /// Two constants of different width or signedness were added.
    IncompatibleAccumulation,
}

} // verus!
