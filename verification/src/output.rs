//! The assembly emitter: a total, deterministic rendering of target
//! programs as text.
//!
//! Every rendering function is proved equal to a spec-level text function,
//! so emission cannot fail and two renderings of the same program are
//! byte-identical.

use vstd::prelude::*;
use vstd::string::StringExecFns;
use crate::program::Program;
use crate::target::{Instruction, Jump, Register};

verus! {

/// The decimal digit character for `d`, for `0 <= d < 10`.
pub open spec fn spec_digit_char(d: int) -> char {
    if d == 0 {
        '0'
    } else if d == 1 {
        '1'
    } else if d == 2 {
        '2'
    } else if d == 3 {
        '3'
    } else if d == 4 {
        '4'
    } else if d == 5 {
        '5'
    } else if d == 6 {
        '6'
    } else if d == 7 {
        '7'
    } else {
        if d == 8 {
            '8'
        } else {
            '9'
        }
    }
}

/// The usual decimal rendering of a non-negative number: no sign, no
/// leading zeros except for the number zero itself.
pub open spec fn spec_decimal(n: int) -> Seq<char>
    decreases n,
{
    if n < 10 {
        seq![spec_digit_char(n)]
    } else {
        spec_decimal(n / 10).push(spec_digit_char(n % 10))
    }
}

/// The single decimal digit of `n`, for `n < 10`.
fn digit_str(n: u64) -> (s: &'static str)
    requires
        n < 10,
    ensures
        s@ == seq![spec_digit_char(n as int)],
{
    let s: &'static str = match n {
        0 => "0",
        1 => "1",
        2 => "2",
        3 => "3",
        4 => "4",
        5 => "5",
        6 => "6",
        7 => "7",
        8 => "8",
        _ => "9",
    };
    proof {
        reveal_strlit("0");
        reveal_strlit("1");
        reveal_strlit("2");
        reveal_strlit("3");
        reveal_strlit("4");
        reveal_strlit("5");
        reveal_strlit("6");
        reveal_strlit("7");
        reveal_strlit("8");
        reveal_strlit("9");
        assert(s@ =~= seq![spec_digit_char(n as int)]);
    }
    s
}

/// Render `n` in decimal.
fn u64_to_string(n: u64) -> (s: String)
    ensures
        s@ == spec_decimal(n as int),
    decreases n,
{
    if n < 10 {
        String::from_str(digit_str(n))
    } else {
        let mut s = u64_to_string(n / 10);
        s.append(digit_str(n % 10));
        proof {
            assert(s@ =~= spec_decimal((n / 10) as int).push(spec_digit_char((n % 10) as int)));
        }
        s
    }
}

/// The textual name of a register: its index prefixed with `r`.
pub open spec fn spec_register_text(r: Register) -> Seq<char> {
    match r {
        Register::R0 => "r0"@,
        Register::R1 => "r1"@,
        Register::R2 => "r2"@,
        Register::R3 => "r3"@,
        Register::R4 => "r4"@,
        Register::R5 => "r5"@,
        Register::R6 => "r6"@,
        Register::R7 => "r7"@,
        Register::R8 => "r8"@,
        Register::R9 => "r9"@,
        Register::R10 => "r10"@,
        Register::R11 => "r11"@,
        Register::R12 => "r12"@,
        Register::R13 => "r13"@,
        Register::R14 => "r14"@,
        Register::R15 => "r15"@,
    }
}

/// Render a register name.
pub fn render_register(r: &Register) -> (s: &'static str)
    ensures
        s@ == spec_register_text(*r),
{
    match r {
        Register::R0 => "r0",
        Register::R1 => "r1",
        Register::R2 => "r2",
        Register::R3 => "r3",
        Register::R4 => "r4",
        Register::R5 => "r5",
        Register::R6 => "r6",
        Register::R7 => "r7",
        Register::R8 => "r8",
        Register::R9 => "r9",
        Register::R10 => "r10",
        Register::R11 => "r11",
        Register::R12 => "r12",
        Register::R13 => "r13",
        Register::R14 => "r14",
        Register::R15 => "r15",
    }
}

/// The mnemonic of a condition code.
pub open spec fn spec_jump_text(j: Jump) -> Seq<char> {
    match j {
        Jump::Zero => "jz"@,
        Jump::NotZero => "jnz"@,
        Jump::Less => "jl"@,
        Jump::LessEquals => "jle"@,
        Jump::Greater => "jg"@,
        Jump::GreaterEquals => "jge"@,
    }
}

/// Render a conditional-jump mnemonic.
pub fn render_jump(j: &Jump) -> (s: &'static str)
    ensures
        s@ == spec_jump_text(*j),
{
    match j {
        Jump::Zero => "jz",
        Jump::NotZero => "jnz",
        Jump::Less => "jl",
        Jump::LessEquals => "jle",
        Jump::Greater => "jg",
        Jump::GreaterEquals => "jge",
    }
}

/// The textual form of a target operand: a register name or a decimal
/// immediate.
pub open spec fn spec_operand_text(o: crate::target::Operand) -> Seq<char> {
    match o {
        crate::target::Operand::Register(r) => spec_register_text(r),
        crate::target::Operand::Immediate(value) => spec_decimal(value as int),
    }
}

/// Render a target operand.
pub fn render_operand(o: &crate::target::Operand) -> (s: String)
    ensures
        s@ == spec_operand_text(*o),
{
    match o {
        crate::target::Operand::Register(r) => String::from_str(render_register(r)),
        crate::target::Operand::Immediate(value) => u64_to_string(*value),
    }
}

/// The label of a function block: its identifier prefixed with
/// `function_`.
pub open spec fn spec_label_text(function: u64) -> Seq<char> {
    "function_"@ + spec_decimal(function as int)
}

/// Render a function label.
fn render_label(function: u64) -> (s: String)
    ensures
        s@ == spec_label_text(function),
{
    let mut s = String::from_str("function_");
    let number = u64_to_string(function);
    s.append(number.as_str());
    s
}

/// The textual rendering of one target instruction: its mnemonic followed
/// by its operands. Every variant renders, so emission is total.
pub open spec fn spec_instruction_text(instruction: Instruction) -> Seq<char> {
    match instruction {
        Instruction::Call { function } => "call "@ + spec_label_text(function),
        Instruction::Jump { function } => "jmp "@ + spec_label_text(function),
        Instruction::ConditionalJump { kind, function } => spec_jump_text(kind) + " "@
            + spec_label_text(function),
        Instruction::Compare { a, b } => "cmp "@ + spec_operand_text(a) + ", "@
            + spec_operand_text(b),
        Instruction::Mov { destination, a } => "mov "@ + spec_register_text(destination) + ", "@
            + spec_operand_text(a),
        Instruction::Add { destination, a } => "add "@ + spec_register_text(destination) + ", "@
            + spec_operand_text(a),
        Instruction::Sub { destination, a } => "sub "@ + spec_register_text(destination) + ", "@
            + spec_operand_text(a),
        Instruction::Mul { destination, a } => "mul "@ + spec_register_text(destination) + ", "@
            + spec_operand_text(a),
        Instruction::Div { destination, a } => "div "@ + spec_register_text(destination) + ", "@
            + spec_operand_text(a),
        Instruction::And { destination, a } => "and "@ + spec_register_text(destination) + ", "@
            + spec_operand_text(a),
        Instruction::Or { destination, a } => "or "@ + spec_register_text(destination) + ", "@
            + spec_operand_text(a),
        Instruction::Xor { destination, a } => "xor "@ + spec_register_text(destination) + ", "@
            + spec_operand_text(a),
        Instruction::Not { destination } => "not "@ + spec_register_text(destination),
        Instruction::Shl { destination, a } => "shl "@ + spec_register_text(destination) + ", "@
            + spec_operand_text(a),
        Instruction::Shr { destination, a } => "shr "@ + spec_register_text(destination) + ", "@
            + spec_operand_text(a),
    }
}

/// Render the common `mnemonic destination, operand` shape.
fn render_in_place_op(mnemonic: &str, destination: &Register, a: &crate::target::Operand) -> (s:
    String)
    ensures
        s@ == mnemonic@ + spec_register_text(*destination) + ", "@ + spec_operand_text(*a),
{
    let mut s = String::from_str(mnemonic);
    s.append(render_register(destination));
    s.append(", ");
    let oa = render_operand(a);
    s.append(oa.as_str());
    s
}

/// Render one target instruction.
pub fn render_instruction(instruction: &Instruction) -> (s: String)
    ensures
        s@ == spec_instruction_text(*instruction),
{
    match instruction {
        Instruction::Call { function } => {
            let mut s = String::from_str("call ");
            let label = render_label(*function);
            s.append(label.as_str());
            s
        },
        Instruction::Jump { function } => {
            let mut s = String::from_str("jmp ");
            let label = render_label(*function);
            s.append(label.as_str());
            s
        },
        Instruction::ConditionalJump { kind, function } => {
            let mut s = String::from_str(render_jump(kind));
            s.append(" ");
            let label = render_label(*function);
            s.append(label.as_str());
            s
        },
        Instruction::Compare { a, b } => {
            let mut s = String::from_str("cmp ");
            let oa = render_operand(a);
            s.append(oa.as_str());
            s.append(", ");
            let ob = render_operand(b);
            s.append(ob.as_str());
            s
        },
        Instruction::Mov { destination, a } => render_in_place_op("mov ", destination, a),
        Instruction::Add { destination, a } => render_in_place_op("add ", destination, a),
        Instruction::Sub { destination, a } => render_in_place_op("sub ", destination, a),
        Instruction::Mul { destination, a } => render_in_place_op("mul ", destination, a),
        Instruction::Div { destination, a } => render_in_place_op("div ", destination, a),
        Instruction::And { destination, a } => render_in_place_op("and ", destination, a),
        Instruction::Or { destination, a } => render_in_place_op("or ", destination, a),
        Instruction::Xor { destination, a } => render_in_place_op("xor ", destination, a),
        Instruction::Not { destination } => {
            let mut s = String::from_str("not ");
            s.append(render_register(destination));
            s
        },
        Instruction::Shl { destination, a } => render_in_place_op("shl ", destination, a),
        Instruction::Shr { destination, a } => render_in_place_op("shr ", destination, a),
    }
}

/// One emitted line: the instruction indented by a tab and closed by a
/// newline.
pub open spec fn spec_line_text(instruction: Instruction) -> Seq<char> {
    "\t"@ + spec_instruction_text(instruction) + "\n"@
}

/// The lines of a block, one per instruction, in instruction order.
pub open spec fn spec_block_text(instructions: Seq<Instruction>) -> Seq<char>
    decreases instructions.len(),
{
    if instructions.len() == 0 {
        Seq::empty()
    } else {
        spec_line_text(instructions.first()) + spec_block_text(instructions.drop_first())
    }
}

/// Extending a block by one instruction appends exactly that instruction's
/// line to its text.
proof fn lemma_block_text_snoc(instructions: Seq<Instruction>, instruction: Instruction)
    ensures
        spec_block_text(instructions.push(instruction)) == spec_block_text(instructions)
            + spec_line_text(instruction),
    decreases instructions.len(),
{
    let s = instructions.push(instruction);
    if instructions.len() == 0 {
        assert(s.first() == instruction);
        assert(s.drop_first() =~= Seq::<Instruction>::empty());
        assert(spec_block_text(Seq::<Instruction>::empty()) == Seq::<char>::empty());
        assert(spec_line_text(instruction) + Seq::<char>::empty() =~= spec_line_text(instruction));
        assert(Seq::<char>::empty() + spec_line_text(instruction) =~= spec_line_text(instruction));
    } else {
        lemma_block_text_snoc(instructions.drop_first(), instruction);
        assert(s.first() == instructions.first());
        assert(s.drop_first() =~= instructions.drop_first().push(instruction));
        assert(spec_line_text(instructions.first()) + (spec_block_text(
            instructions.drop_first(),
        ) + spec_line_text(instruction)) =~= (spec_line_text(instructions.first())
            + spec_block_text(instructions.drop_first())) + spec_line_text(instruction));
    }
}

/// Render the lines of a block.
pub fn render_block(instructions: &Vec<Instruction>) -> (s: String)
    ensures
        s@ == spec_block_text(instructions@),
{
    let mut s = String::new();
    let mut idx: usize = 0;
    proof {
        assert(instructions@.take(0) =~= Seq::<Instruction>::empty());
    }
    while idx < instructions.len()
        invariant
            idx <= instructions@.len(),
            s@ == spec_block_text(instructions@.take(idx as int)),
        decreases instructions@.len() - idx,
    {
        let ghost prefix = instructions@.take(idx as int);
        s.append("\t");
        let text = render_instruction(&instructions[idx]);
        s.append(text.as_str());
        s.append("\n");
        proof {
            lemma_block_text_snoc(prefix, instructions@[idx as int]);
            assert(instructions@.take(idx as int + 1) =~= prefix.push(instructions@[idx as int]));
            assert(s@ =~= spec_block_text(prefix) + spec_line_text(instructions@[idx as int]));
        }
        idx = idx + 1;
    }
    proof {
        assert(instructions@.take(instructions@.len() as int) =~= instructions@);
    }
    s
}

/// The text of one function block: its label line, its instruction lines,
/// then the automatically appended return that establishes the calling
/// convention that every callee returns.
pub open spec fn spec_function_text(function: (u64, Seq<Instruction>)) -> Seq<char> {
    spec_label_text(function.0) + ":\n"@ + spec_block_text(function.1) + "\tret\n\n"@
}

/// The text of the function blocks, in program order.
pub open spec fn spec_functions_text(functions: Seq<(u64, Seq<Instruction>)>) -> Seq<char>
    decreases functions.len(),
{
    if functions.len() == 0 {
        Seq::empty()
    } else {
        spec_function_text(functions.first()) + spec_functions_text(functions.drop_first())
    }
}

/// Extending the function list by one block appends exactly that block's
/// text.
proof fn lemma_functions_text_snoc(
    functions: Seq<(u64, Seq<Instruction>)>,
    function: (u64, Seq<Instruction>),
)
    ensures
        spec_functions_text(functions.push(function)) == spec_functions_text(functions)
            + spec_function_text(function),
    decreases functions.len(),
{
    let s = functions.push(function);
    if functions.len() == 0 {
        assert(s.first() == function);
        assert(s.drop_first() =~= Seq::<(u64, Seq<Instruction>)>::empty());
        assert(spec_functions_text(Seq::<(u64, Seq<Instruction>)>::empty())
            == Seq::<char>::empty());
        assert(spec_function_text(function) + Seq::<char>::empty() =~= spec_function_text(
            function,
        ));
        assert(Seq::<char>::empty() + spec_function_text(function) =~= spec_function_text(
            function,
        ));
    } else {
        lemma_functions_text_snoc(functions.drop_first(), function);
        assert(s.first() == functions.first());
        assert(s.drop_first() =~= functions.drop_first().push(function));
        assert(spec_function_text(functions.first()) + (spec_functions_text(
            functions.drop_first(),
        ) + spec_function_text(function)) =~= (spec_function_text(functions.first())
            + spec_functions_text(functions.drop_first())) + spec_function_text(function));
    }
}

/// Render one function block.
fn render_function(function: &(u64, Vec<Instruction>)) -> (s: String)
    ensures
        s@ == spec_function_text((function.0, function.1@)),
{
    let mut s = render_label(function.0);
    s.append(":\n");
    let body = render_block(&function.1);
    s.append(body.as_str());
    s.append("\tret\n\n");
    s
}

/// The abstract content of a target program: its main instructions and its
/// function blocks, identifier by identifier, in their stored order. The
/// rendered text is a function of this content alone.
pub open spec fn spec_program_model(program: Program<Instruction>) -> (
    Seq<Instruction>,
    Seq<(u64, Seq<Instruction>)>,
) {
    (program.main@, program.functions@.map_values(|f: (u64, Vec<Instruction>)| (f.0, f.1@)))
}

/// The fixed emission sequence: section headers, the global entry label,
/// the main block, an unconditional jump to the terminal label, every
/// function block in program order with its appended return, then the
/// terminal label and its sentinel return.
pub open spec fn spec_program_text(model: (Seq<Instruction>, Seq<(u64, Seq<Instruction>)>)) -> Seq<
    char,
> {
    "section .data\n\nsection .text\n\nglobal main\nmain:\n"@ + spec_block_text(model.0)
        + "\tjmp end\n\n"@ + spec_functions_text(model.1) + "end:\n\tret\n"@
}

/// Render a whole target program as assembly text.
///
/// Emission cannot fail, and the output is never empty: even an empty
/// program yields the section headers, the entry label, the terminal jump
/// and the terminal label with its return.
pub fn render_program(program: &Program<Instruction>) -> (s: String)
    ensures
        s@ == spec_program_text(spec_program_model(*program)),
        s@.len() > 0,
{
    let ghost model = spec_program_model(*program);
    let mut s = String::from_str("section .data\n\nsection .text\n\nglobal main\nmain:\n");
    proof {
        reveal_strlit("section .data\n\nsection .text\n\nglobal main\nmain:\n");
    }
    let main_text = render_block(&program.main);
    s.append(main_text.as_str());
    s.append("\tjmp end\n\n");
    let mut fi: usize = 0;
    proof {
        assert(model.1.take(0) =~= Seq::<(u64, Seq<Instruction>)>::empty());
    }
    while fi < program.functions.len()
        invariant
            fi <= program.functions@.len(),
            model == spec_program_model(*program),
            s@ == "section .data\n\nsection .text\n\nglobal main\nmain:\n"@ + spec_block_text(
                model.0,
            ) + "\tjmp end\n\n"@ + spec_functions_text(model.1.take(fi as int)),
        decreases program.functions@.len() - fi,
    {
        let ghost fprefix = model.1.take(fi as int);
        let text = render_function(&program.functions[fi]);
        s.append(text.as_str());
        proof {
            assert(model.1[fi as int] == (
                program.functions@[fi as int].0,
                program.functions@[fi as int].1@,
            ));
            lemma_functions_text_snoc(fprefix, model.1[fi as int]);
            assert(model.1.take(fi as int + 1) =~= fprefix.push(model.1[fi as int]));
        }
        fi = fi + 1;
    }
    proof {
        assert(model.1.take(model.1.len() as int) =~= model.1);
    }
    s.append("end:\n\tret\n");
    s
}

/// Law: emission is deterministic and program-defined. The rendered text
/// depends only on a program's content — its main instructions and its
/// function blocks with their identifiers, in their stored order — so
/// rendering the same program twice, or any two programs with the same
/// content, yields byte-identical text.
pub proof fn lemma_emission_deterministic(p1: Program<Instruction>, p2: Program<Instruction>)
    requires
        spec_program_model(p1) == spec_program_model(p2),
    ensures
        spec_program_text(spec_program_model(p1)) == spec_program_text(spec_program_model(p2)),
{
}

} // verus!
