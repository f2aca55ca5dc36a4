use lir_backend::compile::CompilationContext;
use lir_backend::error::CompileError;
use lir_backend::target::Register;

#[test]
fn get_register_returns_the_exact_bound_register() {
    let mut context = CompilationContext::new();
    context.bind(4, Register::R11);
    context.bind(2, Register::R3);
    assert_eq!(context.get_register(4), Ok(Register::R11));
    assert_eq!(context.get_register(2), Ok(Register::R3));
}

#[test]
fn get_register_fails_with_unmapped_variable_when_absent() {
    let mut context = CompilationContext::new();
    context.bind(4, Register::R11);
    assert_eq!(context.get_register(5), Err(CompileError::UnmappedVariable));
    assert_eq!(CompilationContext::new().get_register(0), Err(CompileError::UnmappedVariable));
}

#[test]
fn rebinding_a_variable_replaces_the_register() {
    let mut context = CompilationContext::new();
    context.bind(1, Register::R2);
    context.bind(1, Register::R9);
    assert_eq!(context.get_register(1), Ok(Register::R9));
}

#[test]
fn from_index_covers_the_whole_register_file() {
    let expected = vec![
        Register::R0,
        Register::R1,
        Register::R2,
        Register::R3,
        Register::R4,
        Register::R5,
        Register::R6,
        Register::R7,
        Register::R8,
        Register::R9,
        Register::R10,
        Register::R11,
        Register::R12,
        Register::R13,
        Register::R14,
        Register::R15,
    ];
    for (index, register) in expected.iter().enumerate() {
        assert_eq!(Register::from_index(index as u64), Ok(*register));
    }
}

#[test]
fn from_index_out_of_bounds_is_a_hard_error() {
    assert_eq!(Register::from_index(16), Err(CompileError::UnsupportedRegisterIndex));
    assert_eq!(Register::from_index(17), Err(CompileError::UnsupportedRegisterIndex));
    assert_eq!(Register::from_index(u64::MAX), Err(CompileError::UnsupportedRegisterIndex));
}
