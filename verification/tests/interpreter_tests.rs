//! The tree walker: literals, operators, assignment and user functions.

use mini_calc::env::Functions;
use mini_calc::env::Ram;
use mini_calc::interpreter::interpret;
use mini_calc::rational::Rationals;
use mini_calc::value::Ast;
use mini_calc::value::Parameters;

fn leaf(p: Parameters) -> Ast {
    Ast::Node { value: p, left: Box::new(Ast::Nil), right: Box::new(Ast::Nil) }
}

#[test]
fn test_interpreter_int() {
    let mut ram = Ram::new();
    let mut function = Functions::new();
    let expected = Parameters::Int(2);
    let ast = Ast::Node {
        value: Parameters::Int(2),
        left: Box::new(Ast::Nil),
        right: Box::new(Ast::Nil),
    };
    let result = interpret(&ast, &mut ram, &mut function);
    assert_eq!(result, expected)
}

#[test]
fn test_interpreter_float() {
    let mut ram = Ram::new();
    let mut function = Functions::new();
    let expected = Parameters::Rational(Rationals::new(1, 2));
    let ast = Ast::Node {
        value: Parameters::Decimal(2, "0".to_string()),
        left: Box::new(Ast::Nil),
        right: Box::new(Ast::Nil),
    };
    let result = interpret(&ast, &mut ram, &mut function);
    assert_eq!(result, expected)
}

#[test]
fn test_interpreter_plus_operation() {
    let mut ram = Ram::new();
    let mut function = Functions::new();
    let expected = Parameters::Int(2);
    let ast = Ast::Node {
        value: Parameters::PlusOperation,
        left: Box::new(leaf(Parameters::Int(1))),
        right: Box::new(leaf(Parameters::Int(1))),
    };
    let result = interpret(&ast, &mut ram, &mut function);
    assert_eq!(result, expected)
}

#[test]
fn test_interpreter_minus_operation() {
    let mut ram = Ram::new();
    let mut function = Functions::new();
    let expected = Parameters::Int(0);
    let ast = Ast::Node {
        value: Parameters::MinusOperation,
        left: Box::new(leaf(Parameters::Int(1))),
        right: Box::new(leaf(Parameters::Int(1))),
    };
    let result = interpret(&ast, &mut ram, &mut function);
    assert_eq!(result, expected)
}

#[test]
fn test_interpreter_mult_operation() {
    let mut ram = Ram::new();
    let mut function = Functions::new();
    let expected = Parameters::Int(1);
    let ast = Ast::Node {
        value: Parameters::MultiplicationOperation,
        left: Box::new(leaf(Parameters::Int(1))),
        right: Box::new(leaf(Parameters::Int(1))),
    };
    let result = interpret(&ast, &mut ram, &mut function);
    assert_eq!(result, expected)
}

#[test]
fn test_interpreter_divide_operation() {
    let mut ram = Ram::new();
    let mut function = Functions::new();
    let expected = Parameters::Rational(Rationals { under: 1, over: 1 });
    let ast = Ast::Node {
        value: Parameters::DivideOperation,
        left: Box::new(leaf(Parameters::Int(1))),
        right: Box::new(leaf(Parameters::Int(1))),
    };
    let result = interpret(&ast, &mut ram, &mut function);
    assert_eq!(result, expected)
}

#[test]
fn assignment_then_use() {
    let mut ram = Ram::new();
    let mut function = Functions::new();
    // x = 5
    let assign = Ast::Node {
        value: Parameters::Assign,
        left: Box::new(leaf(Parameters::Identifier("x".to_string()))),
        right: Box::new(leaf(Parameters::Int(5))),
    };
    let r1 = interpret(&assign, &mut ram, &mut function);
    assert_eq!(r1, Parameters::Null);
    // x + 1
    let use_x = Ast::Node {
        value: Parameters::PlusOperation,
        left: Box::new(leaf(Parameters::Identifier("x".to_string()))),
        right: Box::new(leaf(Parameters::Int(1))),
    };
    let r2 = interpret(&use_x, &mut ram, &mut function);
    assert_eq!(r2, Parameters::Int(6));
}

#[test]
fn reassignment_replaces_binding() {
    let mut ram = Ram::new();
    let mut function = Functions::new();
    let assign1 = Ast::Node {
        value: Parameters::Assign,
        left: Box::new(leaf(Parameters::Identifier("x".to_string()))),
        right: Box::new(leaf(Parameters::Int(5))),
    };
    interpret(&assign1, &mut ram, &mut function);
    let assign2 = Ast::Node {
        value: Parameters::Assign,
        left: Box::new(leaf(Parameters::Identifier("x".to_string()))),
        right: Box::new(leaf(Parameters::Int(9))),
    };
    interpret(&assign2, &mut ram, &mut function);
    let use_x = leaf(Parameters::Identifier("x".to_string()));
    assert_eq!(interpret(&use_x, &mut ram, &mut function), Parameters::Int(9));
}

#[test]
fn function_definition_and_call() {
    let mut ram = Ram::new();
    let mut function = Functions::new();
    // f(x) = x + 1
    let define = Ast::Node {
        value: Parameters::Assign,
        left: Box::new(Ast::Call {
            name: "f".to_string(),
            lst: vec![leaf(Parameters::Identifier("x".to_string()))],
        }),
        right: Box::new(Ast::Node {
            value: Parameters::PlusOperation,
            left: Box::new(leaf(Parameters::Identifier("x".to_string()))),
            right: Box::new(leaf(Parameters::Int(1))),
        }),
    };
    let r1 = interpret(&define, &mut ram, &mut function);
    assert_eq!(r1, Parameters::Null);
    // f(2)
    let call = Ast::Call { name: "f".to_string(), lst: vec![leaf(Parameters::Int(2))] };
    let r2 = interpret(&call, &mut ram, &mut function);
    assert_eq!(r2, Parameters::Int(3));
}

#[test]
fn function_cannot_be_redefined() {
    let mut ram = Ram::new();
    let mut function = Functions::new();
    let define = Ast::Node {
        value: Parameters::Assign,
        left: Box::new(Ast::Call {
            name: "f".to_string(),
            lst: vec![leaf(Parameters::Identifier("x".to_string()))],
        }),
        right: Box::new(Ast::Node {
            value: Parameters::PlusOperation,
            left: Box::new(leaf(Parameters::Identifier("x".to_string()))),
            right: Box::new(leaf(Parameters::Int(1))),
        }),
    };
    interpret(&define, &mut ram, &mut function);
    // a second definition under the same name is rejected: f still adds one
    let redefine = Ast::Node {
        value: Parameters::Assign,
        left: Box::new(Ast::Call {
            name: "f".to_string(),
            lst: vec![leaf(Parameters::Identifier("x".to_string()))],
        }),
        right: Box::new(Ast::Node {
            value: Parameters::PlusOperation,
            left: Box::new(leaf(Parameters::Identifier("x".to_string()))),
            right: Box::new(leaf(Parameters::Int(100))),
        }),
    };
    interpret(&redefine, &mut ram, &mut function);
    let call = Ast::Call { name: "f".to_string(), lst: vec![leaf(Parameters::Int(2))] };
    assert_eq!(interpret(&call, &mut ram, &mut function), Parameters::Int(3));
}

#[test]
fn unknown_function_reports_error() {
    let mut ram = Ram::new();
    let mut function = Functions::new();
    let call = Ast::Call { name: "nosuch".to_string(), lst: vec![leaf(Parameters::Int(2))] };
    let r = interpret(&call, &mut ram, &mut function);
    match r {
        Parameters::Identifier(s) => assert!(s.starts_with("@")),
        p => panic!("expected an error value, got {:?}", p),
    }
}

#[test]
fn vector_literal_evaluates_elements() {
    let mut ram = Ram::new();
    let mut function = Functions::new();
    let ast = Ast::Node {
        value: Parameters::Vector(Box::new(vec![
            Ast::Node {
                value: Parameters::PlusOperation,
                left: Box::new(leaf(Parameters::Int(1))),
                right: Box::new(leaf(Parameters::Int(1))),
            },
            leaf(Parameters::Int(3)),
        ])),
        left: Box::new(Ast::Nil),
        right: Box::new(Ast::Nil),
    };
    let r = interpret(&ast, &mut ram, &mut function);
    assert_eq!(
        r,
        Parameters::InterpreterVector(Box::new(vec![Parameters::Int(2), Parameters::Int(3)]))
    );
}

#[test]
fn unbound_identifier_stays_symbolic() {
    let mut ram = Ram::new();
    let mut function = Functions::new();
    let ast = leaf(Parameters::Identifier("y".to_string()));
    assert_eq!(
        interpret(&ast, &mut ram, &mut function),
        Parameters::Identifier("y".to_string())
    );
}

#[test]
pub fn test_new() {
    let expected = Ast::Node {
        value: Parameters::Int(2),
        left: Box::new(Ast::Nil),
        right: Box::new(Ast::Nil),
    };
    let result = leaf(Parameters::Int(2));
    assert_eq!(result, expected)
}

#[test]
fn nil_interprets_to_null() {
    let mut ram = Ram::new();
    let mut function = Functions::new();
    assert_eq!(interpret(&Ast::Nil, &mut ram, &mut function), Parameters::Null);
}
