//! The intermediate representation consumed by the backend.
//!
//! An IR program is built from [`Node`]s whose operands are either literal
//! values or virtual registers ("variables"); a variable only becomes a
//! physical register once the lowering context resolves it.

use vstd::prelude::*;

verus! {

/// An IR operand: a literal value or a virtual register.
#[derive(Debug, Clone, Copy, PartialEq, Eq, Structural)]
pub enum Operand {
    /// A literal value, copied into the target instruction as-is.
    Immediate(u64),
    /// A virtual register, resolved through the compilation context.
    Variable(u64),
}

/// The comparison a conditional branch tests.
#[derive(Debug, Clone, Copy, PartialEq, Eq, Structural)]
pub enum LIRConditionType {
    Equals,
    NotEquals,
    LessThan,
    LessThanOrEquals,
    GreaterThan,
    GreaterThanOrEquals,
}

/// One IR instruction.
///
/// `destination` fields name a virtual register; `function` fields name a
/// function block of the enclosing program by its identifier.
#[derive(Debug, Clone, PartialEq, Eq)]
pub enum Node {
    /* Inline */
    InlineString { string: String },
    InlineByte { data: u8 },

    /* Control */
    Call { function: u64 },
    Branch { condition: LIRConditionType, a: Operand, b: Operand, function: u64 },

    Assign { destination: u64, a: Operand },
    ReadMemory { destination: u64, a: Operand },
    WriteMemory { destination: Operand, a: Operand },

    /* Arithmetic */
    Add { destination: u64, a: Operand, b: Operand },
    Subtract { destination: u64, a: Operand, b: Operand },
    Multiply { destination: u64, a: Operand, b: Operand },
    Divide { destination: u64, a: Operand, b: Operand },

    /* Logic */
    And { destination: u64, a: Operand, b: Operand },
    Or { destination: u64, a: Operand, b: Operand },
    Xor { destination: u64, a: Operand, b: Operand },
    Not { destination: u64, a: Operand },
    LogicalShiftLeft { destination: u64, a: Operand, b: Operand },
    LogicalShiftRight { destination: u64, a: Operand, b: Operand },
}

} // verus!
