//! Instruction selection: lowering IR nodes to target instructions against
//! a register-binding context.
//!
//! [`spec_compile_node`] is the fixed selection table; the executable
//! selector [`compile_lir_node`] and the program lowerer
//! [`compile_lir_program`] are proved to follow it exactly. Selection is
//! fail-fast: the first node that cannot be lowered aborts the whole
//! program, so no partially lowered output is ever returned.

use std::collections::HashMap;
use vstd::prelude::*;
use crate::error::CompileError;
use crate::lir;
use crate::program::Program;
use crate::target::{Instruction, Register, spec_jump_for_condition, jump_for_condition};

verus! {

broadcast use vstd::std_specs::hash::group_hash_axioms;

/// The finished variable-to-register binding that selection resolves IR
/// variables through. It is produced by an external register allocator and
/// only looked up here, never recomputed.
#[derive(Debug, Clone, PartialEq)]
pub struct CompilationContext {
    /// The mapping from IR variable identifier to physical register.
    pub register_map: HashMap<u64, Register>,
}

impl View for CompilationContext {
    type V = Map<u64, Register>;

    open spec fn view(&self) -> Map<u64, Register> {
        self.register_map@
    }
}

impl CompilationContext {
    /// An empty context, binding no variable.
    pub fn new() -> (c: CompilationContext)
        ensures
            c@ == Map::<u64, Register>::empty(),
    {
        CompilationContext { register_map: HashMap::new() }
    }

    /// Bind `variable` to `register`, replacing any earlier binding.
    pub fn bind(&mut self, variable: u64, register: Register)
        ensures
            final(self)@ == old(self)@.insert(variable, register),
    {
        self.register_map.insert(variable, register);
    }

    /// Look up the register bound to `variable`.
    ///
    /// Returns exactly the bound register when a binding exists, and fails
    /// with [`CompileError::UnmappedVariable`] when none does.
    pub fn get_register(&self, variable: u64) -> (r: Result<Register, CompileError>)
        ensures
            self@.contains_key(variable) ==> r == Ok::<Register, CompileError>(self@[variable]),
            !self@.contains_key(variable) ==> r == Err::<Register, CompileError>(
                CompileError::UnmappedVariable,
            ),
    {
        match self.register_map.get(&variable) {
            Some(register) => Ok(*register),
            None => Err(CompileError::UnmappedVariable),
        }
    }
}

/// Whether an operand can be resolved through the binding `m`: immediates
/// always can, variables only when bound.
pub open spec fn spec_mapped_operand(operand: lir::Operand, m: Map<u64, Register>) -> bool {
    match operand {
        lir::Operand::Immediate(_) => true,
        lir::Operand::Variable(id) => m.contains_key(id),
    }
}

/// What resolving an IR operand yields: immediates pass through, variables
/// become their bound register, unbound variables fail.
pub open spec fn spec_compile_operand(operand: lir::Operand, m: Map<u64, Register>) -> Result<
    crate::target::Operand,
    CompileError,
> {
    match operand {
        lir::Operand::Immediate(value) => Ok(crate::target::Operand::Immediate(value)),
        lir::Operand::Variable(id) => if m.contains_key(id) {
            Ok(crate::target::Operand::Register(m[id]))
        } else {
            Err(CompileError::UnmappedVariable)
        },
    }
}

/// Resolve an IR operand through the context.
pub fn compile_lir_operand(operand: &lir::Operand, context: &CompilationContext) -> (r: Result<
    crate::target::Operand,
    CompileError,
>)
    ensures
        r == spec_compile_operand(*operand, context@),
{
    match operand {
        lir::Operand::Immediate(value) => Ok(crate::target::Operand::Immediate(*value)),
        lir::Operand::Variable(id) => match context.get_register(*id) {
            Ok(register) => Ok(crate::target::Operand::Register(register)),
            Err(e) => Err(e),
        },
    }
}

/// The fixed selection table: the exact instruction sequence each IR node
/// lowers to, or the error that aborts its selection.
///
/// Binary arithmetic and logic nodes accumulate in place: a seeding `Mov`
/// of the first operand into the destination register, then the operator
/// applied to the second operand in that same register. Memory access and
/// inline data have no selection rule yet and are refused with
/// [`CompileError::UnimplementedNode`] rather than silently skipped.
pub open spec fn spec_compile_node(node: lir::Node, m: Map<u64, Register>) -> Result<
    Seq<Instruction>,
    CompileError,
> {
    match node {
        /* Inline: unresolved in the current design */
        lir::Node::InlineString { .. } => Err(CompileError::UnimplementedNode),
        lir::Node::InlineByte { .. } => Err(CompileError::UnimplementedNode),
        /* Memory: unresolved in the current design */
        lir::Node::ReadMemory { .. } => Err(CompileError::UnimplementedNode),
        lir::Node::WriteMemory { .. } => Err(CompileError::UnimplementedNode),
        /* Control */
        lir::Node::Call { function } => Ok(seq![Instruction::Call { function }]),
        lir::Node::Branch { condition, a, b, function } => {
            match (spec_compile_operand(a, m), spec_compile_operand(b, m)) {
                (Ok(ca), Ok(cb)) => Ok(
                    seq![
                        Instruction::Compare { a: ca, b: cb },
                        Instruction::ConditionalJump {
                            kind: spec_jump_for_condition(condition),
                            function,
                        },
                    ],
                ),
                (Err(e), _) => Err(e),
                (Ok(_), Err(e)) => Err(e),
            }
        },
        lir::Node::Assign { destination, a } => {
            if !m.contains_key(destination) {
                Err(CompileError::UnmappedVariable)
            } else {
                match spec_compile_operand(a, m) {
                    Ok(ca) => Ok(seq![Instruction::Mov { destination: m[destination], a: ca }]),
                    Err(e) => Err(e),
                }
            }
        },
        /* Arithmetic */
        lir::Node::Add { destination, a, b } => {
            if !m.contains_key(destination) {
                Err(CompileError::UnmappedVariable)
            } else {
                match (spec_compile_operand(a, m), spec_compile_operand(b, m)) {
                    (Ok(ca), Ok(cb)) => Ok(
                        seq![
                            Instruction::Mov { destination: m[destination], a: ca },
                            Instruction::Add { destination: m[destination], a: cb },
                        ],
                    ),
                    (Err(e), _) => Err(e),
                    (Ok(_), Err(e)) => Err(e),
                }
            }
        },
        lir::Node::Subtract { destination, a, b } => {
            if !m.contains_key(destination) {
                Err(CompileError::UnmappedVariable)
            } else {
                match (spec_compile_operand(a, m), spec_compile_operand(b, m)) {
                    (Ok(ca), Ok(cb)) => Ok(
                        seq![
                            Instruction::Mov { destination: m[destination], a: ca },
                            Instruction::Sub { destination: m[destination], a: cb },
                        ],
                    ),
                    (Err(e), _) => Err(e),
                    (Ok(_), Err(e)) => Err(e),
                }
            }
        },
        lir::Node::Multiply { destination, a, b } => {
            if !m.contains_key(destination) {
                Err(CompileError::UnmappedVariable)
            } else {
                match (spec_compile_operand(a, m), spec_compile_operand(b, m)) {
                    (Ok(ca), Ok(cb)) => Ok(
                        seq![
                            Instruction::Mov { destination: m[destination], a: ca },
                            Instruction::Mul { destination: m[destination], a: cb },
                        ],
                    ),
                    (Err(e), _) => Err(e),
                    (Ok(_), Err(e)) => Err(e),
                }
            }
        },
        lir::Node::Divide { destination, a, b } => {
            if !m.contains_key(destination) {
                Err(CompileError::UnmappedVariable)
            } else {
                match (spec_compile_operand(a, m), spec_compile_operand(b, m)) {
                    (Ok(ca), Ok(cb)) => Ok(
                        seq![
                            Instruction::Mov { destination: m[destination], a: ca },
                            Instruction::Div { destination: m[destination], a: cb },
                        ],
                    ),
                    (Err(e), _) => Err(e),
                    (Ok(_), Err(e)) => Err(e),
                }
            }
        },
        /* Logic */
        lir::Node::And { destination, a, b } => {
            if !m.contains_key(destination) {
                Err(CompileError::UnmappedVariable)
            } else {
                match (spec_compile_operand(a, m), spec_compile_operand(b, m)) {
                    (Ok(ca), Ok(cb)) => Ok(
                        seq![
                            Instruction::Mov { destination: m[destination], a: ca },
                            Instruction::And { destination: m[destination], a: cb },
                        ],
                    ),
                    (Err(e), _) => Err(e),
                    (Ok(_), Err(e)) => Err(e),
                }
            }
        },
        lir::Node::Or { destination, a, b } => {
            if !m.contains_key(destination) {
                Err(CompileError::UnmappedVariable)
            } else {
                match (spec_compile_operand(a, m), spec_compile_operand(b, m)) {
                    (Ok(ca), Ok(cb)) => Ok(
                        seq![
                            Instruction::Mov { destination: m[destination], a: ca },
                            Instruction::Or { destination: m[destination], a: cb },
                        ],
                    ),
                    (Err(e), _) => Err(e),
                    (Ok(_), Err(e)) => Err(e),
                }
            }
        },
        lir::Node::Xor { destination, a, b } => {
            if !m.contains_key(destination) {
                Err(CompileError::UnmappedVariable)
            } else {
                match (spec_compile_operand(a, m), spec_compile_operand(b, m)) {
                    (Ok(ca), Ok(cb)) => Ok(
                        seq![
                            Instruction::Mov { destination: m[destination], a: ca },
                            Instruction::Xor { destination: m[destination], a: cb },
                        ],
                    ),
                    (Err(e), _) => Err(e),
                    (Ok(_), Err(e)) => Err(e),
                }
            }
        },
        lir::Node::Not { destination, a: _ } => {
            if !m.contains_key(destination) {
                Err(CompileError::UnmappedVariable)
            } else {
                Ok(seq![Instruction::Not { destination: m[destination] }])
            }
        },
        lir::Node::LogicalShiftLeft { destination, a, b } => {
            if !m.contains_key(destination) {
                Err(CompileError::UnmappedVariable)
            } else {
                match (spec_compile_operand(a, m), spec_compile_operand(b, m)) {
                    (Ok(ca), Ok(cb)) => Ok(
                        seq![
                            Instruction::Mov { destination: m[destination], a: ca },
                            Instruction::Shl { destination: m[destination], a: cb },
                        ],
                    ),
                    (Err(e), _) => Err(e),
                    (Ok(_), Err(e)) => Err(e),
                }
            }
        },
        lir::Node::LogicalShiftRight { destination, a, b } => {
            if !m.contains_key(destination) {
                Err(CompileError::UnmappedVariable)
            } else {
                match (spec_compile_operand(a, m), spec_compile_operand(b, m)) {
                    (Ok(ca), Ok(cb)) => Ok(
                        seq![
                            Instruction::Mov { destination: m[destination], a: ca },
                            Instruction::Shr { destination: m[destination], a: cb },
                        ],
                    ),
                    (Err(e), _) => Err(e),
                    (Ok(_), Err(e)) => Err(e),
                }
            }
        },
    }
}

/// The operator of a binary accumulate node, used to share the selection
/// logic of the nine accumulate patterns.
enum AccumulateOp {
    Add,
    Sub,
    Mul,
    Div,
    And,
    Or,
    Xor,
    Shl,
    Shr,
}

/// The IR node an accumulate operator together with its fields stands for.
spec fn spec_accumulate_node(
    op: AccumulateOp,
    destination: u64,
    a: lir::Operand,
    b: lir::Operand,
) -> lir::Node {
    match op {
        AccumulateOp::Add => lir::Node::Add { destination, a, b },
        AccumulateOp::Sub => lir::Node::Subtract { destination, a, b },
        AccumulateOp::Mul => lir::Node::Multiply { destination, a, b },
        AccumulateOp::Div => lir::Node::Divide { destination, a, b },
        AccumulateOp::And => lir::Node::And { destination, a, b },
        AccumulateOp::Or => lir::Node::Or { destination, a, b },
        AccumulateOp::Xor => lir::Node::Xor { destination, a, b },
        AccumulateOp::Shl => lir::Node::LogicalShiftLeft { destination, a, b },
        AccumulateOp::Shr => lir::Node::LogicalShiftRight { destination, a, b },
    }
}

/// Select the two-instruction accumulate sequence of a binary node.
#[verifier::rlimit(60)]
fn compile_accumulate(
    op: AccumulateOp,
    destination: u64,
    a: &lir::Operand,
    b: &lir::Operand,
    context: &CompilationContext,
) -> (r: Result<Vec<Instruction>, CompileError>)
    ensures
        (match r {
            Ok(v) => spec_compile_node(spec_accumulate_node(op, destination, *a, *b), context@)
                == Ok::<Seq<Instruction>, CompileError>(v@),
            Err(e) => spec_compile_node(spec_accumulate_node(op, destination, *a, *b), context@)
                == Err::<Seq<Instruction>, CompileError>(e),
        }),
{
    let d = match context.get_register(destination) {
        Ok(register) => register,
        Err(e) => {
            return Err(e);
        },
    };
    let ca = match compile_lir_operand(a, context) {
        Ok(o) => o,
        Err(e) => {
            return Err(e);
        },
    };
    let cb = match compile_lir_operand(b, context) {
        Ok(o) => o,
        Err(e) => {
            return Err(e);
        },
    };
    let operator = match op {
        AccumulateOp::Add => Instruction::Add { destination: d, a: cb },
        AccumulateOp::Sub => Instruction::Sub { destination: d, a: cb },
        AccumulateOp::Mul => Instruction::Mul { destination: d, a: cb },
        AccumulateOp::Div => Instruction::Div { destination: d, a: cb },
        AccumulateOp::And => Instruction::And { destination: d, a: cb },
        AccumulateOp::Or => Instruction::Or { destination: d, a: cb },
        AccumulateOp::Xor => Instruction::Xor { destination: d, a: cb },
        AccumulateOp::Shl => Instruction::Shl { destination: d, a: cb },
        AccumulateOp::Shr => Instruction::Shr { destination: d, a: cb },
    };
    let mut v: Vec<Instruction> = Vec::new();
    v.push(Instruction::Mov { destination: d, a: ca });
    v.push(operator);
    proof {
        assert(v@ =~= seq![Instruction::Mov { destination: d, a: ca }, operator]);
    }
    Ok(v)
}

/// Select target instructions for one IR node, following the fixed table
/// [`spec_compile_node`] exactly. Fail-fast: an unmapped variable anywhere
/// in the node aborts its selection.
pub fn compile_lir_node(node: &lir::Node, context: &CompilationContext) -> (r: Result<
    Vec<Instruction>,
    CompileError,
>)
    ensures
        (match r {
            Ok(v) => spec_compile_node(*node, context@) == Ok::<Seq<Instruction>, CompileError>(
                v@,
            ),
            Err(e) => spec_compile_node(*node, context@) == Err::<Seq<Instruction>, CompileError>(
                e,
            ),
        }),
{
    match node {
        lir::Node::InlineString { .. } => Err(CompileError::UnimplementedNode),
        lir::Node::InlineByte { .. } => Err(CompileError::UnimplementedNode),
        lir::Node::ReadMemory { .. } => Err(CompileError::UnimplementedNode),
        lir::Node::WriteMemory { .. } => Err(CompileError::UnimplementedNode),
        lir::Node::Call { function } => {
            let mut v: Vec<Instruction> = Vec::new();
            v.push(Instruction::Call { function: *function });
            proof {
                assert(v@ =~= seq![Instruction::Call { function: *function }]);
            }
            Ok(v)
        },
        lir::Node::Branch { condition, a, b, function } => {
            let ca = match compile_lir_operand(a, context) {
                Ok(o) => o,
                Err(e) => {
                    return Err(e);
                },
            };
            let cb = match compile_lir_operand(b, context) {
                Ok(o) => o,
                Err(e) => {
                    return Err(e);
                },
            };
            let jcc = Instruction::ConditionalJump {
                kind: jump_for_condition(*condition),
                function: *function,
            };
            let mut v: Vec<Instruction> = Vec::new();
            v.push(Instruction::Compare { a: ca, b: cb });
            v.push(jcc);
            proof {
                assert(v@ =~= seq![Instruction::Compare { a: ca, b: cb }, jcc]);
            }
            Ok(v)
        },
        lir::Node::Assign { destination, a } => {
            let d = match context.get_register(*destination) {
                Ok(register) => register,
                Err(e) => {
                    return Err(e);
                },
            };
            let ca = match compile_lir_operand(a, context) {
                Ok(o) => o,
                Err(e) => {
                    return Err(e);
                },
            };
            let mut v: Vec<Instruction> = Vec::new();
            v.push(Instruction::Mov { destination: d, a: ca });
            proof {
                assert(v@ =~= seq![Instruction::Mov { destination: d, a: ca }]);
            }
            Ok(v)
        },
        lir::Node::Not { destination, a: _ } => {
            let d = match context.get_register(*destination) {
                Ok(register) => register,
                Err(e) => {
                    return Err(e);
                },
            };
            let mut v: Vec<Instruction> = Vec::new();
            v.push(Instruction::Not { destination: d });
            proof {
                assert(v@ =~= seq![Instruction::Not { destination: d }]);
            }
            Ok(v)
        },
        lir::Node::Add { destination, a, b } => compile_accumulate(
            AccumulateOp::Add,
            *destination,
            a,
            b,
            context,
        ),
        lir::Node::Subtract { destination, a, b } => compile_accumulate(
            AccumulateOp::Sub,
            *destination,
            a,
            b,
            context,
        ),
        lir::Node::Multiply { destination, a, b } => compile_accumulate(
            AccumulateOp::Mul,
            *destination,
            a,
            b,
            context,
        ),
        lir::Node::Divide { destination, a, b } => compile_accumulate(
            AccumulateOp::Div,
            *destination,
            a,
            b,
            context,
        ),
        lir::Node::And { destination, a, b } => compile_accumulate(
            AccumulateOp::And,
            *destination,
            a,
            b,
            context,
        ),
        lir::Node::Or { destination, a, b } => compile_accumulate(
            AccumulateOp::Or,
            *destination,
            a,
            b,
            context,
        ),
        lir::Node::Xor { destination, a, b } => compile_accumulate(
            AccumulateOp::Xor,
            *destination,
            a,
            b,
            context,
        ),
        lir::Node::LogicalShiftLeft { destination, a, b } => compile_accumulate(
            AccumulateOp::Shl,
            *destination,
            a,
            b,
            context,
        ),
        lir::Node::LogicalShiftRight { destination, a, b } => compile_accumulate(
            AccumulateOp::Shr,
            *destination,
            a,
            b,
            context,
        ),
    }
}

/// Lowering an ordered block: each node's instruction sequence concatenated
/// in node order. The first node that fails aborts the block with its
/// error.
pub open spec fn spec_compile_block(nodes: Seq<lir::Node>, m: Map<u64, Register>) -> Result<
    Seq<Instruction>,
    CompileError,
>
    decreases nodes.len(),
{
    if nodes.len() == 0 {
        Ok(Seq::empty())
    } else {
        match spec_compile_node(nodes.first(), m) {
            Err(e) => Err(e),
            Ok(head) => match spec_compile_block(nodes.drop_first(), m) {
                Err(e) => Err(e),
                Ok(rest) => Ok(head + rest),
            },
        }
    }
}

/// Extending a block by one node extends its lowering by that node's
/// instructions, and fails exactly when the block or the node fails.
proof fn lemma_compile_block_snoc(nodes: Seq<lir::Node>, node: lir::Node, m: Map<u64, Register>)
    ensures
        spec_compile_block(nodes.push(node), m) == (match (
            spec_compile_block(nodes, m),
            spec_compile_node(node, m),
        ) {
            (Err(e), _) => Err::<Seq<Instruction>, CompileError>(e),
            (Ok(_), Err(e)) => Err::<Seq<Instruction>, CompileError>(e),
            (Ok(prefix), Ok(tail)) => Ok::<Seq<Instruction>, CompileError>(prefix + tail),
        }),
    decreases nodes.len(),
{
    let s = nodes.push(node);
    if nodes.len() == 0 {
        assert(s.first() == node);
        assert(s.drop_first() =~= Seq::<lir::Node>::empty());
        assert(spec_compile_block(Seq::<lir::Node>::empty(), m) == Ok::<
            Seq<Instruction>,
            CompileError,
        >(Seq::<Instruction>::empty()));
        match spec_compile_node(node, m) {
            Err(_) => {},
            Ok(tail) => {
                assert(tail + Seq::<Instruction>::empty() =~= tail);
                assert(Seq::<Instruction>::empty() + tail =~= tail);
            },
        }
    } else {
        lemma_compile_block_snoc(nodes.drop_first(), node, m);
        assert(s.first() == nodes.first());
        assert(s.drop_first() =~= nodes.drop_first().push(node));
        match (
            spec_compile_node(nodes.first(), m),
            spec_compile_block(nodes.drop_first(), m),
            spec_compile_node(node, m),
        ) {
            (Ok(head), Ok(prefix), Ok(tail)) => {
                assert(head + (prefix + tail) =~= (head + prefix) + tail);
            },
            _ => {},
        }
    }
}

/// Fail-fast: when every node before `i` lowers and node `i` fails, the
/// whole block fails with node `i`'s error.
proof fn lemma_compile_block_first_error(
    nodes: Seq<lir::Node>,
    i: int,
    m: Map<u64, Register>,
    e: CompileError,
)
    requires
        0 <= i < nodes.len(),
        spec_compile_block(nodes.take(i), m) is Ok,
        spec_compile_node(nodes[i], m) == Err::<Seq<Instruction>, CompileError>(e),
    ensures
        spec_compile_block(nodes, m) == Err::<Seq<Instruction>, CompileError>(e),
    decreases i,
{
    if i == 0 {
        assert(nodes.first() == nodes[0]);
    } else {
        assert(nodes.take(i).first() == nodes.first());
        assert(nodes.take(i).drop_first() =~= nodes.drop_first().take(i - 1));
        assert(nodes.drop_first()[i - 1] == nodes[i]);
        lemma_compile_block_first_error(nodes.drop_first(), i - 1, m, e);
    }
}

/// Lowering the function blocks of a program, in program order: each block
/// is lowered like the main block and keeps its identifier. The first block
/// that fails aborts with its error.
pub open spec fn spec_compile_functions(
    functions: Seq<(u64, Vec<lir::Node>)>,
    m: Map<u64, Register>,
) -> Result<Seq<(u64, Seq<Instruction>)>, CompileError>
    decreases functions.len(),
{
    if functions.len() == 0 {
        Ok(Seq::empty())
    } else {
        match spec_compile_block(functions.first().1@, m) {
            Err(e) => Err(e),
            Ok(block) => match spec_compile_functions(functions.drop_first(), m) {
                Err(e) => Err(e),
                Ok(rest) => Ok(seq![(functions.first().0, block)] + rest),
            },
        }
    }
}

/// Extending the function list by one block extends its lowering by that
/// block, and fails exactly when the list or the block fails.
proof fn lemma_compile_functions_snoc(
    functions: Seq<(u64, Vec<lir::Node>)>,
    f: (u64, Vec<lir::Node>),
    m: Map<u64, Register>,
)
    ensures
        spec_compile_functions(functions.push(f), m) == (match (
            spec_compile_functions(functions, m),
            spec_compile_block(f.1@, m),
        ) {
            (Err(e), _) => Err::<Seq<(u64, Seq<Instruction>)>, CompileError>(e),
            (Ok(_), Err(e)) => Err::<Seq<(u64, Seq<Instruction>)>, CompileError>(e),
            (Ok(prefix), Ok(block)) => Ok::<Seq<(u64, Seq<Instruction>)>, CompileError>(
                prefix.push((f.0, block)),
            ),
        }),
    decreases functions.len(),
{
    let s = functions.push(f);
    if functions.len() == 0 {
        assert(s.first() == f);
        assert(s.drop_first() =~= Seq::<(u64, Vec<lir::Node>)>::empty());
        assert(spec_compile_functions(Seq::<(u64, Vec<lir::Node>)>::empty(), m) == Ok::<
            Seq<(u64, Seq<Instruction>)>,
            CompileError,
        >(Seq::<(u64, Seq<Instruction>)>::empty()));
        match spec_compile_block(f.1@, m) {
            Err(_) => {},
            Ok(block) => {
                assert(seq![(f.0, block)] + Seq::<(u64, Seq<Instruction>)>::empty()
                    =~= Seq::<(u64, Seq<Instruction>)>::empty().push((f.0, block)));
            },
        }
    } else {
        lemma_compile_functions_snoc(functions.drop_first(), f, m);
        assert(s.first() == functions.first());
        assert(s.drop_first() =~= functions.drop_first().push(f));
        match (
            spec_compile_block(functions.first().1@, m),
            spec_compile_functions(functions.drop_first(), m),
            spec_compile_block(f.1@, m),
        ) {
            (Ok(head), Ok(prefix), Ok(block)) => {
                assert(seq![(functions.first().0, head)] + prefix.push((f.0, block))
                    =~= (seq![(functions.first().0, head)] + prefix).push((f.0, block)));
            },
            _ => {},
        }
    }
}

/// Fail-fast: when every function block before `i` lowers and block `i`
/// fails, the whole list fails with block `i`'s error.
proof fn lemma_compile_functions_first_error(
    functions: Seq<(u64, Vec<lir::Node>)>,
    i: int,
    m: Map<u64, Register>,
    e: CompileError,
)
    requires
        0 <= i < functions.len(),
        spec_compile_functions(functions.take(i), m) is Ok,
        spec_compile_block(functions[i].1@, m) == Err::<Seq<Instruction>, CompileError>(e),
    ensures
        spec_compile_functions(functions, m) == Err::<Seq<(u64, Seq<Instruction>)>, CompileError>(
            e,
        ),
    decreases i,
{
    if i == 0 {
        assert(functions.first() == functions[0]);
    } else {
        assert(functions.take(i).first() == functions.first());
        assert(functions.take(i).drop_first() =~= functions.drop_first().take(i - 1));
        assert(functions.drop_first()[i - 1] == functions[i]);
        lemma_compile_functions_first_error(functions.drop_first(), i - 1, m, e);
    }
}

/// Lowering preserves block structure: when the function blocks lower, the
/// result has one block per source block, with the same identifiers in the
/// same order.
pub proof fn lemma_lowering_preserves_structure(
    functions: Seq<(u64, Vec<lir::Node>)>,
    m: Map<u64, Register>,
)
    requires
        spec_compile_functions(functions, m) is Ok,
    ensures
        spec_compile_functions(functions, m)->Ok_0.len() == functions.len(),
        forall|i: int|
            0 <= i < functions.len() ==> (#[trigger] spec_compile_functions(functions, m)->Ok_0[i]).0
                == functions[i].0,
    decreases functions.len(),
{
    if functions.len() == 0 {
    } else {
        lemma_lowering_preserves_structure(functions.drop_first(), m);
        let model = spec_compile_functions(functions, m)->Ok_0;
        let rest = spec_compile_functions(functions.drop_first(), m)->Ok_0;
        assert forall|i: int| 0 <= i < functions.len() implies (#[trigger] model[i]).0
            == functions[i].0 by {
            if i > 0 {
                assert(model[i] == rest[i - 1]);
                assert(functions.drop_first()[i - 1] == functions[i]);
            }
        }
    }
}

/// Lowering a whole program: the main block, then every function block in
/// program order. A single node failure aborts the whole program, so no
/// partially lowered program is ever produced.
pub open spec fn spec_compile_program(program: Program<lir::Node>, m: Map<u64, Register>) -> Result<
    (Seq<Instruction>, Seq<(u64, Seq<Instruction>)>),
    CompileError,
> {
    match spec_compile_block(program.main@, m) {
        Err(e) => Err(e),
        Ok(main) => match spec_compile_functions(program.functions@, m) {
            Err(e) => Err(e),
            Ok(functions) => Ok((main, functions)),
        },
    }
}

/// Whether a concrete target program carries exactly a lowered model: the
/// same main instructions and the same function blocks, identifier for
/// identifier, in the same order.
pub open spec fn spec_matches_lowering(
    t: Program<Instruction>,
    model: (Seq<Instruction>, Seq<(u64, Seq<Instruction>)>),
) -> bool {
    &&& t.main@ == model.0
    &&& t.functions@.len() == model.1.len()
    &&& forall|i: int|
        0 <= i < model.1.len() ==> (#[trigger] t.functions@[i]).0 == model.1[i].0
            && t.functions@[i].1@ == model.1[i].1
}

/// Lower a whole IR program against the context: the main block first, then
/// every function block in program order, applying the selection table to
/// every node in original order. A single node failure aborts lowering of
/// the entire program with that node's error; on success the target program
/// has identical block structure to the source, so a well-formed program
/// lowers to a well-formed program.
pub fn compile_lir_program(program: &Program<lir::Node>, context: &CompilationContext) -> (r:
    Result<Program<Instruction>, CompileError>)
    ensures
        (match r {
            Ok(t) => {
                &&& spec_compile_program(*program, context@) matches Ok(model)
                &&& spec_matches_lowering(t, model)
            },
            Err(e) => spec_compile_program(*program, context@) == Err::<
                (Seq<Instruction>, Seq<(u64, Seq<Instruction>)>),
                CompileError,
            >(e),
        }),
        (match r {
            Ok(t) => program.wf() ==> t.wf(),
            Err(_) => true,
        }),
{
    let mut main_code: Vec<Instruction> = Vec::new();
    let mut idx: usize = 0;
    while idx < program.main.len()
        invariant
            idx <= program.main@.len(),
            spec_compile_block(program.main@.take(idx as int), context@) == Ok::<
                Seq<Instruction>,
                CompileError,
            >(main_code@),
        decreases program.main@.len() - idx,
    {
        let ghost prefix = program.main@.take(idx as int);
        match compile_lir_node(&program.main[idx], context) {
            Ok(mut instrs) => {
                proof {
                    lemma_compile_block_snoc(prefix, program.main@[idx as int], context@);
                    assert(program.main@.take(idx as int + 1) =~= prefix.push(
                        program.main@[idx as int],
                    ));
                }
                main_code.append(&mut instrs);
            },
            Err(e) => {
                proof {
                    lemma_compile_block_first_error(program.main@, idx as int, context@, e);
                }
                return Err(e);
            },
        }
        idx = idx + 1;
    }
    proof {
        assert(program.main@.take(program.main@.len() as int) =~= program.main@);
    }
    let mut target_functions: Vec<(u64, Vec<Instruction>)> = Vec::new();
    let mut fi: usize = 0;
    while fi < program.functions.len()
        invariant
            fi <= program.functions@.len(),
            spec_compile_block(program.main@, context@) == Ok::<Seq<Instruction>, CompileError>(
                main_code@,
            ),
            ({
                let fr = spec_compile_functions(
                    program.functions@.take(fi as int),
                    context@,
                );
                &&& fr is Ok
                &&& target_functions@.len() == fr->Ok_0.len()
                &&& forall|i: int|
                    0 <= i < fr->Ok_0.len() ==> (#[trigger] target_functions@[i]).0
                        == fr->Ok_0[i].0 && target_functions@[i].1@ == fr->Ok_0[i].1
            }),
        decreases program.functions@.len() - fi,
    {
        let ghost fprefix = program.functions@.take(fi as int);
        let function_id = program.functions[fi].0;
        let mut block_code: Vec<Instruction> = Vec::new();
        let mut j: usize = 0;
        while j < program.functions[fi].1.len()
            invariant
                fi < program.functions@.len(),
                j <= program.functions@[fi as int].1@.len(),
                spec_compile_block(program.main@, context@) is Ok,
                spec_compile_functions(program.functions@.take(fi as int), context@) is Ok,
                spec_compile_block(
                    program.functions@[fi as int].1@.take(j as int),
                    context@,
                ) == Ok::<Seq<Instruction>, CompileError>(block_code@),
            decreases program.functions@[fi as int].1@.len() - j,
        {
            let ghost prefix = program.functions@[fi as int].1@.take(j as int);
            match compile_lir_node(&program.functions[fi].1[j], context) {
                Ok(mut instrs) => {
                    proof {
                        lemma_compile_block_snoc(
                            prefix,
                            program.functions@[fi as int].1@[j as int],
                            context@,
                        );
                        assert(program.functions@[fi as int].1@.take(j as int + 1) =~= prefix.push(
                            program.functions@[fi as int].1@[j as int],
                        ));
                    }
                    block_code.append(&mut instrs);
                },
                Err(e) => {
                    proof {
                        lemma_compile_block_first_error(
                            program.functions@[fi as int].1@,
                            j as int,
                            context@,
                            e,
                        );
                        lemma_compile_functions_first_error(
                            program.functions@,
                            fi as int,
                            context@,
                            e,
                        );
                    }
                    return Err(e);
                },
            }
            j = j + 1;
        }
        proof {
            let block = program.functions@[fi as int].1@;
            assert(block.take(block.len() as int) =~= block);
            lemma_compile_functions_snoc(fprefix, program.functions@[fi as int], context@);
            assert(program.functions@.take(fi as int + 1) =~= fprefix.push(
                program.functions@[fi as int],
            ));
        }
        target_functions.push((function_id, block_code));
        fi = fi + 1;
    }
    proof {
        assert(program.functions@.take(program.functions@.len() as int) =~= program.functions@);
    }
    let result = Program { main: main_code, functions: target_functions };
    proof {
        lemma_lowering_preserves_structure(program.functions@, context@);
    }
    Ok(result)
}

/// Whether a node is one of the nine binary arithmetic or logic nodes.
pub open spec fn spec_is_binary_node(node: lir::Node) -> bool {
    ||| node is Add
    ||| node is Subtract
    ||| node is Multiply
    ||| node is Divide
    ||| node is And
    ||| node is Or
    ||| node is Xor
    ||| node is LogicalShiftLeft
    ||| node is LogicalShiftRight
}

/// The destination variable of a binary node.
pub open spec fn spec_binary_destination(node: lir::Node) -> u64
    recommends
        spec_is_binary_node(node),
{
    match node {
        lir::Node::Add { destination, .. } => destination,
        lir::Node::Subtract { destination, .. } => destination,
        lir::Node::Multiply { destination, .. } => destination,
        lir::Node::Divide { destination, .. } => destination,
        lir::Node::And { destination, .. } => destination,
        lir::Node::Or { destination, .. } => destination,
        lir::Node::Xor { destination, .. } => destination,
        lir::Node::LogicalShiftLeft { destination, .. } => destination,
        lir::Node::LogicalShiftRight { destination, .. } => destination,
        _ => arbitrary(),
    }
}

/// The first operand of a binary node.
pub open spec fn spec_binary_a(node: lir::Node) -> lir::Operand
    recommends
        spec_is_binary_node(node),
{
    match node {
        lir::Node::Add { a, .. } => a,
        lir::Node::Subtract { a, .. } => a,
        lir::Node::Multiply { a, .. } => a,
        lir::Node::Divide { a, .. } => a,
        lir::Node::And { a, .. } => a,
        lir::Node::Or { a, .. } => a,
        lir::Node::Xor { a, .. } => a,
        lir::Node::LogicalShiftLeft { a, .. } => a,
        lir::Node::LogicalShiftRight { a, .. } => a,
        _ => arbitrary(),
    }
}

/// The second operand of a binary node.
pub open spec fn spec_binary_b(node: lir::Node) -> lir::Operand
    recommends
        spec_is_binary_node(node),
{
    match node {
        lir::Node::Add { b, .. } => b,
        lir::Node::Subtract { b, .. } => b,
        lir::Node::Multiply { b, .. } => b,
        lir::Node::Divide { b, .. } => b,
        lir::Node::And { b, .. } => b,
        lir::Node::Or { b, .. } => b,
        lir::Node::Xor { b, .. } => b,
        lir::Node::LogicalShiftLeft { b, .. } => b,
        lir::Node::LogicalShiftRight { b, .. } => b,
        _ => arbitrary(),
    }
}

/// The register an instruction writes, if it writes one.
pub open spec fn spec_instruction_destination(instruction: Instruction) -> Option<Register> {
    match instruction {
        Instruction::Mov { destination, .. } => Some(destination),
        Instruction::Add { destination, .. } => Some(destination),
        Instruction::Sub { destination, .. } => Some(destination),
        Instruction::Mul { destination, .. } => Some(destination),
        Instruction::Div { destination, .. } => Some(destination),
        Instruction::And { destination, .. } => Some(destination),
        Instruction::Or { destination, .. } => Some(destination),
        Instruction::Xor { destination, .. } => Some(destination),
        Instruction::Not { destination } => Some(destination),
        Instruction::Shl { destination, .. } => Some(destination),
        Instruction::Shr { destination, .. } => Some(destination),
        Instruction::Call { .. } => None,
        Instruction::Jump { .. } => None,
        Instruction::ConditionalJump { .. } => None,
        Instruction::Compare { .. } => None,
    }
}

/// The source operand of an in-place instruction, if it has one.
pub open spec fn spec_instruction_operand(instruction: Instruction) -> Option<
    crate::target::Operand,
> {
    match instruction {
        Instruction::Mov { a, .. } => Some(a),
        Instruction::Add { a, .. } => Some(a),
        Instruction::Sub { a, .. } => Some(a),
        Instruction::Mul { a, .. } => Some(a),
        Instruction::Div { a, .. } => Some(a),
        Instruction::And { a, .. } => Some(a),
        Instruction::Or { a, .. } => Some(a),
        Instruction::Xor { a, .. } => Some(a),
        Instruction::Shl { a, .. } => Some(a),
        Instruction::Shr { a, .. } => Some(a),
        Instruction::Not { .. } => None,
        Instruction::Call { .. } => None,
        Instruction::Jump { .. } => None,
        Instruction::ConditionalJump { .. } => None,
        Instruction::Compare { .. } => None,
    }
}

/// Whether `instruction` is the operator instruction of `node`'s kind.
pub open spec fn spec_binary_operator_matches(node: lir::Node, instruction: Instruction) -> bool {
    match (node, instruction) {
        (lir::Node::Add { .. }, Instruction::Add { .. }) => true,
        (lir::Node::Subtract { .. }, Instruction::Sub { .. }) => true,
        (lir::Node::Multiply { .. }, Instruction::Mul { .. }) => true,
        (lir::Node::Divide { .. }, Instruction::Div { .. }) => true,
        (lir::Node::And { .. }, Instruction::And { .. }) => true,
        (lir::Node::Or { .. }, Instruction::Or { .. }) => true,
        (lir::Node::Xor { .. }, Instruction::Xor { .. }) => true,
        (lir::Node::LogicalShiftLeft { .. }, Instruction::Shl { .. }) => true,
        (lir::Node::LogicalShiftRight { .. }, Instruction::Shr { .. }) => true,
        _ => false,
    }
}

/// Law: selecting any binary arithmetic or logic node whose destination
/// and both operands are mapped yields exactly two instructions — a
/// seeding `Mov` of the first operand into the destination register, then
/// the node's operator instruction accumulating the second operand — both
/// targeting that same destination register.
pub proof fn lemma_binary_selection(node: lir::Node, m: Map<u64, Register>)
    requires
        spec_is_binary_node(node),
        m.contains_key(spec_binary_destination(node)),
        spec_mapped_operand(spec_binary_a(node), m),
        spec_mapped_operand(spec_binary_b(node), m),
    ensures
        ({
            let d = m[spec_binary_destination(node)];
            &&& spec_compile_node(node, m) matches Ok(instructions)
            &&& instructions.len() == 2
            &&& instructions[0] == Instruction::Mov {
                destination: d,
                a: spec_compile_operand(spec_binary_a(node), m)->Ok_0,
            }
            &&& spec_instruction_destination(instructions[1]) == Some(d)
            &&& spec_instruction_operand(instructions[1]) == Some(
                spec_compile_operand(spec_binary_b(node), m)->Ok_0,
            )
            &&& spec_binary_operator_matches(node, instructions[1])
        }),
{
}

/// Law: selecting an assignment node whose destination and operand are
/// mapped yields exactly one instruction: a `Mov` of the operand into the
/// destination register.
pub proof fn lemma_assign_selection(destination: u64, a: lir::Operand, m: Map<u64, Register>)
    requires
        m.contains_key(destination),
        spec_mapped_operand(a, m),
    ensures
        spec_compile_node(lir::Node::Assign { destination, a }, m) == Ok::<
            Seq<Instruction>,
            CompileError,
        >(
            seq![
                Instruction::Mov {
                    destination: m[destination],
                    a: spec_compile_operand(a, m)->Ok_0,
                },
            ],
        ),
{
}

/// Law: selecting a branch node whose operands are mapped yields exactly
/// one `Compare` of the two operands immediately followed by exactly one
/// conditional jump to the branch target, whose condition code comes from
/// the fixed six-entry table — a bijection, by
/// [`crate::target::lemma_condition_code_injective`] and
/// [`crate::target::lemma_condition_code_surjective`].
pub proof fn lemma_branch_selection(
    condition: lir::LIRConditionType,
    a: lir::Operand,
    b: lir::Operand,
    function: u64,
    m: Map<u64, Register>,
)
    requires
        spec_mapped_operand(a, m),
        spec_mapped_operand(b, m),
    ensures
        spec_compile_node(lir::Node::Branch { condition, a, b, function }, m) == Ok::<
            Seq<Instruction>,
            CompileError,
        >(
            seq![
                Instruction::Compare {
                    a: spec_compile_operand(a, m)->Ok_0,
                    b: spec_compile_operand(b, m)->Ok_0,
                },
                Instruction::ConditionalJump {
                    kind: spec_jump_for_condition(condition),
                    function,
                },
            ],
        ),
{
}

} // verus!
