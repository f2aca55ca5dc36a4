use lir_backend::compile::{compile_lir_program, CompilationContext};
use lir_backend::error::CompileError;
use lir_backend::lir::{Node, Operand};
use lir_backend::output::render_program;
use lir_backend::program::Program;
use lir_backend::target::{Instruction, Operand as TargetOperand, Register};

#[test]
fn call_and_assign_scenario_lowers_and_renders() {
    let mut program: Program<Node> = Program::new();
    program.set_main(vec![Node::Call { function: 0 }]);
    program.set_function(0, vec![Node::Assign { destination: 0, a: Operand::Immediate(42) }]);
    let mut context = CompilationContext::new();
    context.bind(0, Register::R0);

    let lowered = compile_lir_program(&program, &context).unwrap();
    assert_eq!(lowered.main, vec![Instruction::Call { function: 0 }]);
    assert_eq!(
        lowered.functions,
        vec![(
            0,
            vec![Instruction::Mov { destination: Register::R0, a: TargetOperand::Immediate(42) }]
        )]
    );

    let text = render_program(&lowered);
    let main_start = text.find("main:").unwrap();
    let functions_start = text.find("function_0:").unwrap();
    let call = text.find("call function_0").unwrap();
    assert!(main_start < call && call < functions_start);
    assert!(text.contains("function_0:\n\tmov r0, 42\n\tret\n"));
    assert_eq!(
        text,
        "section .data\n\nsection .text\n\nglobal main\nmain:\n\tcall function_0\n\tjmp end\n\n\
         function_0:\n\tmov r0, 42\n\tret\n\nend:\n\tret\n"
    );
}

#[test]
fn lowering_keeps_block_structure_and_order() {
    let mut program: Program<Node> = Program::new();
    program.set_main(vec![Node::Assign { destination: 0, a: Operand::Immediate(1) }]);
    program.set_function(7, vec![Node::Call { function: 2 }]);
    program.set_function(2, vec![]);
    let mut context = CompilationContext::new();
    context.bind(0, Register::R5);

    let lowered = compile_lir_program(&program, &context).unwrap();
    let ids: Vec<u64> = lowered.functions.iter().map(|f| f.0).collect();
    assert_eq!(ids, vec![7, 2]);
    assert_eq!(lowered.functions[0].1, vec![Instruction::Call { function: 2 }]);
    assert_eq!(lowered.functions[1].1, vec![]);
}

#[test]
fn node_sequences_concatenate_in_order() {
    let mut program: Program<Node> = Program::new();
    program.set_main(vec![
        Node::Assign { destination: 0, a: Operand::Immediate(1) },
        Node::Add { destination: 0, a: Operand::Variable(0), b: Operand::Immediate(2) },
    ]);
    let mut context = CompilationContext::new();
    context.bind(0, Register::R0);

    let lowered = compile_lir_program(&program, &context).unwrap();
    assert_eq!(
        lowered.main,
        vec![
            Instruction::Mov { destination: Register::R0, a: TargetOperand::Immediate(1) },
            Instruction::Mov { destination: Register::R0, a: TargetOperand::Register(Register::R0) },
            Instruction::Add { destination: Register::R0, a: TargetOperand::Immediate(2) },
        ]
    );
}

#[test]
fn a_single_failing_node_aborts_the_whole_program() {
    let mut program: Program<Node> = Program::new();
    program.set_main(vec![Node::Assign { destination: 0, a: Operand::Immediate(1) }]);
    program.set_function(0, vec![Node::Assign { destination: 3, a: Operand::Immediate(1) }]);
    let mut context = CompilationContext::new();
    context.bind(0, Register::R0);

    assert_eq!(compile_lir_program(&program, &context), Err(CompileError::UnmappedVariable));
}

#[test]
fn the_first_failing_node_decides_the_error() {
    let mut program: Program<Node> = Program::new();
    program.set_main(vec![
        Node::ReadMemory { destination: 0, a: Operand::Immediate(0) },
        Node::Assign { destination: 9, a: Operand::Immediate(1) },
    ]);
    let mut context = CompilationContext::new();
    context.bind(0, Register::R0);

    assert_eq!(compile_lir_program(&program, &context), Err(CompileError::UnimplementedNode));
}

#[test]
fn empty_program_lowers_to_empty_program() {
    let program: Program<Node> = Program::new();
    let context = CompilationContext::new();
    let lowered = compile_lir_program(&program, &context).unwrap();
    assert!(lowered.main.is_empty());
    assert!(lowered.functions.is_empty());
}
