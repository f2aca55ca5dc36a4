use lir_backend::compile::{compile_lir_node, compile_lir_operand, CompilationContext};
use lir_backend::error::CompileError;
use lir_backend::lir::{LIRConditionType, Node, Operand};
use lir_backend::target::{Instruction, Jump, Operand as TargetOperand, Register};

fn context_r0_r1() -> CompilationContext {
    let mut context = CompilationContext::new();
    context.bind(0, Register::R0);
    context.bind(1, Register::R1);
    context
}

#[test]
fn operand_immediate_passes_through() {
    let context = CompilationContext::new();
    let r = compile_lir_operand(&Operand::Immediate(42), &context);
    assert_eq!(r, Ok(TargetOperand::Immediate(42)));
}

#[test]
fn operand_variable_resolves_to_bound_register() {
    let context = context_r0_r1();
    let r = compile_lir_operand(&Operand::Variable(1), &context);
    assert_eq!(r, Ok(TargetOperand::Register(Register::R1)));
}

#[test]
fn operand_unbound_variable_fails() {
    let context = context_r0_r1();
    let r = compile_lir_operand(&Operand::Variable(9), &context);
    assert_eq!(r, Err(CompileError::UnmappedVariable));
}

#[test]
fn assign_selects_exactly_one_mov() {
    let context = context_r0_r1();
    let node = Node::Assign { destination: 0, a: Operand::Immediate(42) };
    let r = compile_lir_node(&node, &context).unwrap();
    assert_eq!(
        r,
        vec![Instruction::Mov { destination: Register::R0, a: TargetOperand::Immediate(42) }]
    );
}

#[test]
fn add_selects_mov_then_add_on_same_destination() {
    let context = context_r0_r1();
    let node = Node::Add { destination: 0, a: Operand::Variable(1), b: Operand::Immediate(5) };
    let r = compile_lir_node(&node, &context).unwrap();
    assert_eq!(
        r,
        vec![
            Instruction::Mov { destination: Register::R0, a: TargetOperand::Register(Register::R1) },
            Instruction::Add { destination: Register::R0, a: TargetOperand::Immediate(5) },
        ]
    );
}

#[test]
fn every_binary_node_selects_two_instructions_mov_first() {
    let context = context_r0_r1();
    let a = Operand::Variable(1);
    let b = Operand::Immediate(7);
    let nodes = vec![
        Node::Add { destination: 0, a, b },
        Node::Subtract { destination: 0, a, b },
        Node::Multiply { destination: 0, a, b },
        Node::Divide { destination: 0, a, b },
        Node::And { destination: 0, a, b },
        Node::Or { destination: 0, a, b },
        Node::Xor { destination: 0, a, b },
        Node::LogicalShiftLeft { destination: 0, a, b },
        Node::LogicalShiftRight { destination: 0, a, b },
    ];
    for node in &nodes {
        let r = compile_lir_node(node, &context).unwrap();
        assert_eq!(r.len(), 2);
        assert_eq!(
            r[0],
            Instruction::Mov { destination: Register::R0, a: TargetOperand::Register(Register::R1) }
        );
    }
    let ops: Vec<Instruction> = nodes
        .iter()
        .map(|node| compile_lir_node(node, &context).unwrap()[1])
        .collect();
    let d = Register::R0;
    let o = TargetOperand::Immediate(7);
    assert_eq!(
        ops,
        vec![
            Instruction::Add { destination: d, a: o },
            Instruction::Sub { destination: d, a: o },
            Instruction::Mul { destination: d, a: o },
            Instruction::Div { destination: d, a: o },
            Instruction::And { destination: d, a: o },
            Instruction::Or { destination: d, a: o },
            Instruction::Xor { destination: d, a: o },
            Instruction::Shl { destination: d, a: o },
            Instruction::Shr { destination: d, a: o },
        ]
    );
}

#[test]
fn binary_node_with_unbound_operand_fails() {
    let context = context_r0_r1();
    let node = Node::Add { destination: 0, a: Operand::Variable(3), b: Operand::Immediate(1) };
    assert_eq!(compile_lir_node(&node, &context), Err(CompileError::UnmappedVariable));
}

#[test]
fn binary_node_with_unbound_destination_fails() {
    let context = context_r0_r1();
    let node = Node::Add { destination: 9, a: Operand::Immediate(1), b: Operand::Immediate(2) };
    assert_eq!(compile_lir_node(&node, &context), Err(CompileError::UnmappedVariable));
}

#[test]
fn not_selects_single_not_on_destination() {
    let context = context_r0_r1();
    let node = Node::Not { destination: 1, a: Operand::Immediate(0) };
    let r = compile_lir_node(&node, &context).unwrap();
    assert_eq!(r, vec![Instruction::Not { destination: Register::R1 }]);
}

#[test]
fn call_selects_single_call() {
    let context = CompilationContext::new();
    let node = Node::Call { function: 3 };
    let r = compile_lir_node(&node, &context).unwrap();
    assert_eq!(r, vec![Instruction::Call { function: 3 }]);
}

#[test]
fn branch_selects_compare_then_conditional_jump() {
    let context = context_r0_r1();
    let node = Node::Branch {
        condition: LIRConditionType::LessThan,
        a: Operand::Variable(0),
        b: Operand::Immediate(10),
        function: 2,
    };
    let r = compile_lir_node(&node, &context).unwrap();
    assert_eq!(
        r,
        vec![
            Instruction::Compare {
                a: TargetOperand::Register(Register::R0),
                b: TargetOperand::Immediate(10),
            },
            Instruction::ConditionalJump { kind: Jump::Less, function: 2 },
        ]
    );
}

#[test]
fn branch_condition_codes_follow_the_fixed_table() {
    let context = context_r0_r1();
    let table = vec![
        (LIRConditionType::Equals, Jump::Zero),
        (LIRConditionType::NotEquals, Jump::NotZero),
        (LIRConditionType::LessThan, Jump::Less),
        (LIRConditionType::LessThanOrEquals, Jump::LessEquals),
        (LIRConditionType::GreaterThan, Jump::Greater),
        (LIRConditionType::GreaterThanOrEquals, Jump::GreaterEquals),
    ];
    let mut seen = Vec::new();
    for (condition, code) in table {
        let node = Node::Branch {
            condition,
            a: Operand::Immediate(1),
            b: Operand::Immediate(2),
            function: 0,
        };
        let r = compile_lir_node(&node, &context).unwrap();
        assert_eq!(r.len(), 2);
        assert_eq!(r[1], Instruction::ConditionalJump { kind: code, function: 0 });
        assert!(!seen.contains(&code), "condition codes must be distinct");
        seen.push(code);
    }
}

#[test]
fn unimplemented_nodes_are_refused() {
    let context = context_r0_r1();
    let nodes = vec![
        Node::InlineString { string: String::from("hello") },
        Node::InlineByte { data: 7 },
        Node::ReadMemory { destination: 0, a: Operand::Immediate(0) },
        Node::WriteMemory { destination: Operand::Variable(0), a: Operand::Immediate(0) },
    ];
    for node in &nodes {
        assert_eq!(compile_lir_node(node, &context), Err(CompileError::UnimplementedNode));
    }
}
