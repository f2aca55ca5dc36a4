//! The target instruction model: a closed register file, operands, condition
//! codes and the target instruction enumeration.

use vstd::prelude::*;
use crate::error::CompileError;
use crate::lir::LIRConditionType;

verus! {

/// A physical register of the target machine.
///
/// The register space is closed: there are exactly sixteen general-purpose
/// registers, addressable by the indices `0` through `15`.
#[derive(Debug, Clone, Copy, PartialEq, Eq, Hash, Structural)]
pub enum Register {
    R0,
    R1,
    R2,
    R3,
    R4,
    R5,
    R6,
    R7,
    R8,
    R9,
    R10,
    R11,
    R12,
    R13,
    R14,
    R15,
}

/// The register at a given index of the register file, for indices below 16.
pub open spec fn spec_register_of_index(index: int) -> Register {
    if index == 0 {
        Register::R0
    } else if index == 1 {
        Register::R1
    } else if index == 2 {
        Register::R2
    } else if index == 3 {
        Register::R3
    } else if index == 4 {
        Register::R4
    } else if index == 5 {
        Register::R5
    } else if index == 6 {
        Register::R6
    } else if index == 7 {
        Register::R7
    } else if index == 8 {
        Register::R8
    } else if index == 9 {
        Register::R9
    } else if index == 10 {
        Register::R10
    } else if index == 11 {
        Register::R11
    } else if index == 12 {
        Register::R12
    } else if index == 13 {
        Register::R13
    } else {
        if index == 14 {
            Register::R14
        } else {
            Register::R15
        }
    }
}

/// The index of a register in the register file; the inverse of
/// [`spec_register_of_index`] on `0..16`.
pub open spec fn spec_register_index(r: Register) -> int {
    match r {
        Register::R0 => 0,
        Register::R1 => 1,
        Register::R2 => 2,
        Register::R3 => 3,
        Register::R4 => 4,
        Register::R5 => 5,
        Register::R6 => 6,
        Register::R7 => 7,
        Register::R8 => 8,
        Register::R9 => 9,
        Register::R10 => 10,
        Register::R11 => 11,
        Register::R12 => 12,
        Register::R13 => 13,
        Register::R14 => 14,
        Register::R15 => 15,
    }
}

impl Register {
    /// Look up the register at `index`.
    ///
    /// The register space is closed: an index outside `0..16` is a hard
    /// error, never wrapped or truncated.
    pub fn from_index(index: u64) -> (r: Result<Register, CompileError>)
        ensures
            index < 16 ==> r == Ok::<Register, CompileError>(spec_register_of_index(index as int)),
            index < 16 ==> spec_register_index(spec_register_of_index(index as int)) == index,
            index >= 16 ==> r == Err::<Register, CompileError>(
                CompileError::UnsupportedRegisterIndex,
            ),
    {
        match index {
            0 => Ok(Register::R0),
            1 => Ok(Register::R1),
            2 => Ok(Register::R2),
            3 => Ok(Register::R3),
            4 => Ok(Register::R4),
            5 => Ok(Register::R5),
            6 => Ok(Register::R6),
            7 => Ok(Register::R7),
            8 => Ok(Register::R8),
            9 => Ok(Register::R9),
            10 => Ok(Register::R10),
            11 => Ok(Register::R11),
            12 => Ok(Register::R12),
            13 => Ok(Register::R13),
            14 => Ok(Register::R14),
            15 => Ok(Register::R15),
            _ => Err(CompileError::UnsupportedRegisterIndex),
        }
    }
}

/// A target operand: a physical register or a literal value.
#[derive(Debug, Clone, Copy, PartialEq, Eq, Structural)]
pub enum Operand {
    Register(Register),
    Immediate(u64),
}

/// A condition code for a conditional jump.
#[derive(Debug, Clone, Copy, PartialEq, Eq, Structural)]
pub enum Jump {
    Zero,
    NotZero,
    Less,
    LessEquals,
    Greater,
    GreaterEquals,
}

/// The condition code a branch comparison lowers to.
pub open spec fn spec_jump_for_condition(condition: LIRConditionType) -> Jump {
    match condition {
        LIRConditionType::Equals => Jump::Zero,
        LIRConditionType::NotEquals => Jump::NotZero,
        LIRConditionType::LessThan => Jump::Less,
        LIRConditionType::LessThanOrEquals => Jump::LessEquals,
        LIRConditionType::GreaterThan => Jump::Greater,
        LIRConditionType::GreaterThanOrEquals => Jump::GreaterEquals,
    }
}

/// Turn a branch condition into its condition code.
pub fn jump_for_condition(condition: LIRConditionType) -> (r: Jump)
    ensures
        r == spec_jump_for_condition(condition),
{
    match condition {
        LIRConditionType::Equals => Jump::Zero,
        LIRConditionType::NotEquals => Jump::NotZero,
        LIRConditionType::LessThan => Jump::Less,
        LIRConditionType::LessThanOrEquals => Jump::LessEquals,
        LIRConditionType::GreaterThan => Jump::Greater,
        LIRConditionType::GreaterThanOrEquals => Jump::GreaterEquals,
    }
}

/// The condition-code table is injective: distinct branch conditions lower
/// to distinct condition codes.
pub proof fn lemma_condition_code_injective(c1: LIRConditionType, c2: LIRConditionType)
    requires
        spec_jump_for_condition(c1) == spec_jump_for_condition(c2),
    ensures
        c1 == c2,
{
}

/// The condition-code table is surjective: every condition code is the image
/// of some branch condition. Together with
/// [`lemma_condition_code_injective`] this makes the fixed six-entry table a
/// bijection.
pub proof fn lemma_condition_code_surjective(j: Jump)
    ensures
        exists|c: LIRConditionType| spec_jump_for_condition(c) == j,
{
    match j {
        Jump::Zero => {
            assert(spec_jump_for_condition(LIRConditionType::Equals) == j);
        },
        Jump::NotZero => {
            assert(spec_jump_for_condition(LIRConditionType::NotEquals) == j);
        },
        Jump::Less => {
            assert(spec_jump_for_condition(LIRConditionType::LessThan) == j);
        },
        Jump::LessEquals => {
            assert(spec_jump_for_condition(LIRConditionType::LessThanOrEquals) == j);
        },
        Jump::Greater => {
            assert(spec_jump_for_condition(LIRConditionType::GreaterThan) == j);
        },
        Jump::GreaterEquals => {
            assert(spec_jump_for_condition(LIRConditionType::GreaterThanOrEquals) == j);
        },
    }
}

/// One target instruction.
///
/// `destination` fields name the register written in place; `function`
/// fields name a function block of the enclosing program.
#[derive(Debug, Clone, Copy, PartialEq, Eq, Structural)]
pub enum Instruction {
    /* Control */
    Call { function: u64 },
    Jump { function: u64 },
    ConditionalJump { kind: Jump, function: u64 },
    Compare { a: Operand, b: Operand },

    Mov { destination: Register, a: Operand },

    /* Arithmetic */
    Add { destination: Register, a: Operand },
    Sub { destination: Register, a: Operand },
    Mul { destination: Register, a: Operand },
    Div { destination: Register, a: Operand },

    /* Logic */
    And { destination: Register, a: Operand },
    Or { destination: Register, a: Operand },
    Xor { destination: Register, a: Operand },
    Not { destination: Register },
    Shl { destination: Register, a: Operand },
    Shr { destination: Register, a: Operand },
}

} // verus!
