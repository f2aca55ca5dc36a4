use lir_backend::output::{
    render_block, render_instruction, render_jump, render_operand, render_program, render_register,
};
use lir_backend::program::Program;
use lir_backend::target::{Instruction, Jump, Operand, Register};

#[test]
fn register_names_are_indexed() {
    assert_eq!(render_register(&Register::R0), "r0");
    assert_eq!(render_register(&Register::R9), "r9");
    assert_eq!(render_register(&Register::R15), "r15");
}

#[test]
fn jump_mnemonics() {
    assert_eq!(render_jump(&Jump::Zero), "jz");
    assert_eq!(render_jump(&Jump::NotZero), "jnz");
    assert_eq!(render_jump(&Jump::Less), "jl");
    assert_eq!(render_jump(&Jump::LessEquals), "jle");
    assert_eq!(render_jump(&Jump::Greater), "jg");
    assert_eq!(render_jump(&Jump::GreaterEquals), "jge");
}

#[test]
fn immediates_render_in_decimal() {
    assert_eq!(render_operand(&Operand::Immediate(0)), "0");
    assert_eq!(render_operand(&Operand::Immediate(7)), "7");
    assert_eq!(render_operand(&Operand::Immediate(10)), "10");
    assert_eq!(render_operand(&Operand::Immediate(1234567890)), "1234567890");
    assert_eq!(render_operand(&Operand::Immediate(u64::MAX)), "18446744073709551615");
    assert_eq!(render_operand(&Operand::Register(Register::R12)), "r12");
}

#[test]
fn every_instruction_variant_renders() {
    let d = Register::R1;
    let a = Operand::Immediate(3);
    assert_eq!(render_instruction(&Instruction::Mov { destination: d, a }), "mov r1, 3");
    assert_eq!(render_instruction(&Instruction::Add { destination: d, a }), "add r1, 3");
    assert_eq!(render_instruction(&Instruction::Sub { destination: d, a }), "sub r1, 3");
    assert_eq!(render_instruction(&Instruction::Mul { destination: d, a }), "mul r1, 3");
    assert_eq!(render_instruction(&Instruction::Div { destination: d, a }), "div r1, 3");
    assert_eq!(render_instruction(&Instruction::And { destination: d, a }), "and r1, 3");
    assert_eq!(render_instruction(&Instruction::Or { destination: d, a }), "or r1, 3");
    assert_eq!(render_instruction(&Instruction::Xor { destination: d, a }), "xor r1, 3");
    assert_eq!(render_instruction(&Instruction::Shl { destination: d, a }), "shl r1, 3");
    assert_eq!(render_instruction(&Instruction::Shr { destination: d, a }), "shr r1, 3");
    assert_eq!(render_instruction(&Instruction::Not { destination: d }), "not r1");
    assert_eq!(
        render_instruction(&Instruction::Compare { a: Operand::Register(Register::R0), b: a }),
        "cmp r0, 3"
    );
    assert_eq!(render_instruction(&Instruction::Call { function: 0 }), "call function_0");
    assert_eq!(render_instruction(&Instruction::Jump { function: 12 }), "jmp function_12");
    assert_eq!(
        render_instruction(&Instruction::ConditionalJump { kind: Jump::NotZero, function: 5 }),
        "jnz function_5"
    );
}

#[test]
fn block_renders_one_indented_line_per_instruction() {
    let block = vec![
        Instruction::Mov { destination: Register::R0, a: Operand::Immediate(1) },
        Instruction::Not { destination: Register::R0 },
    ];
    assert_eq!(render_block(&block), "\tmov r0, 1\n\tnot r0\n");
}

#[test]
fn empty_program_still_renders_headers_entry_and_terminal() {
    let program: Program<Instruction> = Program::new();
    let text = render_program(&program);
    assert_eq!(
        text,
        "section .data\n\nsection .text\n\nglobal main\nmain:\n\tjmp end\n\nend:\n\tret\n"
    );
    assert!(!text.is_empty());
    assert!(text.contains("section .data"));
    assert!(text.contains("section .text"));
    assert!(text.contains("global main"));
    assert!(text.contains("main:"));
    assert!(text.contains("\tjmp end\n"));
    assert!(text.contains("end:\n\tret\n"));
}

#[test]
fn function_blocks_end_with_an_appended_return() {
    let mut program: Program<Instruction> = Program::new();
    program.set_function(
        0,
        vec![Instruction::Mov { destination: Register::R0, a: Operand::Immediate(42) }],
    );
    let text = render_program(&program);
    assert!(text.contains("function_0:\n\tmov r0, 42\n\tret\n\n"));
}

#[test]
fn emission_is_idempotent_and_order_stable() {
    let mut program: Program<Instruction> = Program::new();
    program.set_main(vec![Instruction::Call { function: 5 }]);
    program.set_function(5, vec![Instruction::Not { destination: Register::R2 }]);
    program.set_function(3, vec![Instruction::Not { destination: Register::R4 }]);
    let first = render_program(&program);
    let second = render_program(&program);
    assert_eq!(first.as_bytes(), second.as_bytes());
    let five = first.find("function_5:").unwrap();
    let three = first.find("function_3:").unwrap();
    assert!(five < three, "function blocks must keep their program-defined order");
}

#[test]
fn replacing_a_function_block_keeps_its_place_in_the_order() {
    let mut program: Program<Instruction> = Program::new();
    program.set_function(5, vec![Instruction::Not { destination: Register::R2 }]);
    program.set_function(3, vec![Instruction::Not { destination: Register::R4 }]);
    program.set_function(5, vec![Instruction::Not { destination: Register::R7 }]);
    assert_eq!(program.functions.len(), 2);
    let text = render_program(&program);
    let five = text.find("function_5:\n\tnot r7\n").unwrap();
    let three = text.find("function_3:\n\tnot r4\n").unwrap();
    assert!(five < three);
}
