//! The code generation backend: registries, materializer, generator, and
//! the structural verifier.

use faang::ast::Expression;
use faang::compiler::{CompileError, Compiler};
use faang::external;
use faang::ir::{Builder, Instr, Linkage, Operand, Ty, Unit, VerifyError};
use faang::stdlib;
use faang::symbols;
use faang::util::alloc_string;

fn test_mode_unit(path: &str) -> Unit {
    let mut unit = Unit::new();
    external::add(
        &[
            external::Features::FPRINTF,
            external::Features::FOPEN,
            external::Features::FFLUSH,
        ],
        &mut unit,
    );
    external::mock::add_printf(path, &mut unit);
    stdlib::add(&[stdlib::Features::PRINTLN], &mut unit);
    unit
}

fn production_unit() -> Unit {
    let mut unit = Unit::new();
    external::add(
        &[
            external::Features::PRINTF,
            external::Features::FPRINTF,
            external::Features::FOPEN,
            external::Features::FFLUSH,
        ],
        &mut unit,
    );
    stdlib::add(&[stdlib::Features::PRINTLN], &mut unit);
    unit
}

#[test]
fn test_hello_world() {
    let unit = test_mode_unit("hello_world.txt");
    let program = Expression::Invocation(
        "println".to_string(),
        vec![Expression::StringLiteral("Hello World!".to_string())],
    );
    let compiler = Compiler::new(unit);
    let unit = compiler.compile(&program).unwrap();
    unit.verify().unwrap();

    let main_fcn = unit
        .get_function(&"main".to_string())
        .expect("main function should be defined");
    assert!(matches!(main_fcn.linkage, Linkage::Defined));

    // the program prints the literal, then the runtime's newline: together
    // exactly the expected file contents
    let lit = match &main_fcn.body[0] {
        Instr::AllocString { data, .. } => data.clone(),
        _ => panic!("main should materialize its argument first"),
    };
    let println_fcn = unit.get_function(&symbols::PRINTLN.to_string()).unwrap();
    let nl = match &println_fcn.body[1] {
        Instr::AllocString { data, .. } => data.clone(),
        _ => panic!("println should materialize its newline"),
    };
    assert_eq!("Hello World!\n", format!("{}{}", lit, nl));
}

#[test]
fn main_test_hello_world() {
    let unit = test_mode_unit("hello_world.txt");
    let program = Expression::Invocation(
        "println".to_string(),
        vec![Expression::StringLiteral("Hello World!".to_string())],
    );
    let compiler = Compiler::new(unit);
    let unit = compiler.compile(&program).unwrap();
    unit.verify().unwrap();
    assert!(unit.get_function(&"main".to_string()).is_some());
}

#[test]
fn unresolved_symbol_fails_generation() {
    let unit = test_mode_unit("out.txt");
    let program = Expression::Invocation(
        "undefined_fn".to_string(),
        vec![Expression::StringLiteral("x".to_string())],
    );
    let compiler = Compiler::new(unit);
    match compiler.compile(&program) {
        Err(CompileError::UnresolvedSymbol(name)) => assert_eq!(name, "undefined_fn"),
        other => panic!("expected an unresolved symbol error, got {:?}", other.err()),
    }
}

#[test]
fn bare_string_literal_is_rejected() {
    let unit = production_unit();
    let program = Expression::StringLiteral("hello".to_string());
    let compiler = Compiler::new(unit);
    assert!(matches!(
        compiler.compile(&program),
        Err(CompileError::UnsupportedExpression)
    ));
}

#[test]
fn invocation_argument_must_be_a_literal() {
    let unit = production_unit();
    let program = Expression::Invocation(
        "println".to_string(),
        vec![Expression::Invocation("println".to_string(), vec![])],
    );
    let compiler = Compiler::new(unit);
    assert!(matches!(
        compiler.compile(&program),
        Err(CompileError::UnsupportedExpression)
    ));
}

#[test]
fn empty_string_materializes_terminator_only() {
    let mut b = Builder::new();
    alloc_string("", "str", &mut b);
    let body = b.finish();
    assert_eq!(body.len(), 1);
    match &body[0] {
        Instr::AllocString { data, .. } => assert_eq!(data, ""),
        _ => panic!("materialization should emit one allocation"),
    }
}

#[test]
fn generated_main_has_expected_shape() {
    let unit = production_unit();
    let program = Expression::Invocation(
        "println".to_string(),
        vec![Expression::StringLiteral("hi".to_string())],
    );
    let unit = Compiler::new(unit).compile(&program).unwrap();
    let main_fcn = unit.get_function(&"main".to_string()).unwrap();
    assert!(matches!(main_fcn.ret, Ty::I32));
    assert_eq!(main_fcn.params.len(), 0);
    assert_eq!(main_fcn.body.len(), 3);
    assert!(
        matches!(&main_fcn.body[0], Instr::AllocString { data, .. } if data == "hi")
    );
    match &main_fcn.body[1] {
        Instr::Call { callee, args } => {
            assert_eq!(callee, symbols::PRINTLN);
            assert_eq!(args.len(), 1);
            assert!(matches!(args[0], Operand::Local(0)));
        },
        _ => panic!("main should call the runtime support entry"),
    }
    assert!(matches!(
        &main_fcn.body[2],
        Instr::Ret(Some(Operand::ConstI32(0)))
    ));
}

#[test]
fn registry_declares_externals() {
    let unit = production_unit();
    for name in ["printf", "fprintf", "fopen", "fflush"] {
        let decl = unit.get_function(&name.to_string()).unwrap();
        assert!(matches!(decl.linkage, Linkage::External));
        assert!(decl.body.is_empty());
    }
    let printf = unit.get_function(&"printf".to_string()).unwrap();
    assert!(printf.variadic);
    assert!(matches!(printf.ret, Ty::I32));
    assert_eq!(printf.params.len(), 1);
    let fopen = unit.get_function(&"fopen".to_string()).unwrap();
    assert!(!fopen.variadic);
    assert!(matches!(fopen.ret, Ty::BytePtr));
    assert_eq!(fopen.params.len(), 2);
}

#[test]
fn mock_printf_is_defined_and_forwards() {
    let unit = test_mode_unit("sink.txt");
    let printf = unit.get_function(&"printf".to_string()).unwrap();
    assert!(matches!(printf.linkage, Linkage::Defined));
    assert!(
        matches!(&printf.body[0], Instr::AllocString { data, .. } if data == "sink.txt")
    );
    assert!(matches!(&printf.body[1], Instr::AllocString { data, .. } if data == "a"));
    assert!(matches!(&printf.body[2], Instr::Call { callee, .. } if callee == "fopen"));
    assert!(
        matches!(&printf.body[3], Instr::Call { callee, args } if callee == "fprintf"
            && matches!(args[1], Operand::Param(0)))
    );
    assert!(matches!(&printf.body[4], Instr::Call { callee, .. } if callee == "fflush"));
    assert!(matches!(
        &printf.body[5],
        Instr::Ret(Some(Operand::ConstI32(0)))
    ));
}

#[test]
fn mangling_prefixes_the_namespace_tag() {
    assert_eq!(symbols::mangle(&"println".to_string()), "FAANG_println");
    assert_eq!(symbols::PRINTLN, "FAANG_println");
}

#[test]
fn verification_rejects_duplicate_symbols() {
    let mut unit = production_unit();
    external::add(&[external::Features::PRINTF], &mut unit);
    assert_eq!(unit.verify(), Err(VerifyError::DuplicateSymbol));
}

#[test]
fn verification_rejects_unterminated_bodies() {
    let mut unit = Unit::new();
    let mut b = Builder::new();
    alloc_string("x", "str", &mut b);
    unit.add_function(faang::ir::FnDecl {
        name: "broken".to_string(),
        params: Vec::new(),
        ret: Ty::Void,
        variadic: false,
        linkage: Linkage::Defined,
        body: b.finish(),
    });
    assert_eq!(unit.verify(), Err(VerifyError::UnterminatedBlock));
}

#[test]
fn verification_rejects_unresolved_calls() {
    let mut unit = Unit::new();
    let mut b = Builder::new();
    b.build_call("missing".to_string(), Vec::new());
    b.build_ret(None);
    unit.add_function(faang::ir::FnDecl {
        name: "caller".to_string(),
        params: Vec::new(),
        ret: Ty::Void,
        variadic: false,
        linkage: Linkage::Defined,
        body: b.finish(),
    });
    assert_eq!(unit.verify(), Err(VerifyError::UnresolvedReference));
}

#[test]
fn verification_accepts_the_prepared_units() {
    assert_eq!(production_unit().verify(), Ok(()));
    assert_eq!(test_mode_unit("ok.txt").verify(), Ok(()));
}

#[test]
fn println_of_empty_string_materializes_only_terminators() {
    let unit = test_mode_unit("empty.txt");
    let program = Expression::Invocation(
        "println".to_string(),
        vec![Expression::StringLiteral("".to_string())],
    );
    let unit = Compiler::new(unit).compile(&program).unwrap();
    unit.verify().unwrap();
    let main_fcn = unit.get_function(&"main".to_string()).unwrap();
    let lit = match &main_fcn.body[0] {
        Instr::AllocString { data, .. } => data.clone(),
        _ => panic!("main should materialize its argument first"),
    };
    let println_fcn = unit.get_function(&symbols::PRINTLN.to_string()).unwrap();
    let nl = match &println_fcn.body[1] {
        Instr::AllocString { data, .. } => data.clone(),
        _ => panic!("println should materialize its newline"),
    };
    assert_eq!("\n", format!("{}{}", lit, nl));
}

#[test]
fn arguments_are_materialized_in_order() {
    let unit = production_unit();
    let program = Expression::Invocation(
        "println".to_string(),
        vec![
            Expression::StringLiteral("first".to_string()),
            Expression::StringLiteral("second".to_string()),
        ],
    );
    let unit = Compiler::new(unit).compile(&program).unwrap();
    let main_fcn = unit.get_function(&"main".to_string()).unwrap();
    assert_eq!(main_fcn.body.len(), 4);
    assert!(
        matches!(&main_fcn.body[0], Instr::AllocString { data, .. } if data == "first")
    );
    assert!(
        matches!(&main_fcn.body[1], Instr::AllocString { data, .. } if data == "second")
    );
    match &main_fcn.body[2] {
        Instr::Call { callee, args } => {
            assert_eq!(callee, symbols::PRINTLN);
            assert!(matches!(args[0], Operand::Local(0)));
            assert!(matches!(args[1], Operand::Local(1)));
        },
        _ => panic!("main should call the runtime support entry"),
    }
}
