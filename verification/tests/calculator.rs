use rpn_calculator::factorial::checked_factorial;
use rpn_calculator::token::{classify_token, BinaryOp, ReduceOp, TokenClass, UnaryOp};
use rpn_calculator::Action;
use rpn_calculator::RPNCalculator;

/// Drives one token through the engine the way the interactive shell does:
/// the engine decides what to do, this driver carries out the arithmetic (or
/// the parse) and hands the value back.
fn apply(calc: &mut RPNCalculator<f64>, token: &str) {
    match calc.apply_operation(token) {
        Action::Binary(op, a, b) => {
            let r = match op {
                BinaryOp::Add => a + b,
                BinaryOp::Sub => a - b,
                BinaryOp::Mul => a * b,
                BinaryOp::Div => a / b,
                BinaryOp::Pow => a.powf(b),
            };
            calc.resolve(r);
        }
        Action::Unary(op, a) => {
            let r = match op {
                UnaryOp::Sqrt => a.sqrt(),
                UnaryOp::Log => a.log10(),
                UnaryOp::Abs => a.abs(),
                UnaryOp::Factorial => match checked_factorial(a as u64) {
                    Some(f) => f as f64,
                    None => panic!("factorial overflow"),
                },
            };
            calc.resolve(r);
        }
        Action::Reduce(op, operands) => {
            let r: f64 = match op {
                ReduceOp::Sum => operands.iter().sum(),
                ReduceOp::Product => operands.iter().product(),
            };
            calc.resolve(r);
        }
        Action::Parse => match token.parse::<f64>() {
            Ok(v) => calc.resolve(v),
            Err(_) => calc.reject(),
        },
        Action::Underflow => {}
    }
}

#[test]
fn test_addition() {
    let mut calc = RPNCalculator::new();

    apply(&mut calc, "3"); // 3
    apply(&mut calc, "5"); // 5
    apply(&mut calc, "+"); // 3 + 5

    assert_eq!(calc.get_result(), Some(8.0));
}

#[test]
fn test_subtraction() {
    let mut calc = RPNCalculator::new();

    apply(&mut calc, "7"); // 7
    apply(&mut calc, "4"); // 4
    apply(&mut calc, "-"); // 7 - 4

    assert_eq!(calc.get_result(), Some(3.0));
}

#[test]
fn test_multiplication() {
    let mut calc = RPNCalculator::new();

    apply(&mut calc, "6"); // 6
    apply(&mut calc, "2"); // 2
    apply(&mut calc, "*"); // 6 * 2

    assert_eq!(calc.get_result(), Some(12.0));
}

#[test]
fn test_division() {
    let mut calc = RPNCalculator::new();

    apply(&mut calc, "10"); // 10
    apply(&mut calc, "2"); // 2
    apply(&mut calc, "/"); // 10 / 2

    assert_eq!(calc.get_result(), Some(5.0));
}

#[test]
fn test_exponentiation() {
    let mut calc = RPNCalculator::new();

    apply(&mut calc, "2"); // 2
    apply(&mut calc, "3"); // 3
    apply(&mut calc, "^"); // 2 ^ 3

    assert_eq!(calc.get_result(), Some(8.0));
}

#[test]
fn test_sqrt() {
    let mut calc = RPNCalculator::new();

    apply(&mut calc, "9"); // 9
    apply(&mut calc, "sqrt"); // sqrt(9)

    assert_eq!(calc.get_result(), Some(3.0));
}

#[test]
fn test_log() {
    let mut calc = RPNCalculator::new();

    apply(&mut calc, "100"); // 100
    apply(&mut calc, "log"); // log(100)

    assert_eq!(calc.get_result(), Some(2.0));
}

#[test]
fn test_abs() {
    let mut calc = RPNCalculator::new();

    apply(&mut calc, "-5"); // -5
    apply(&mut calc, "abs"); // abs(-5)

    assert_eq!(calc.get_result(), Some(5.0));
}

#[test]
fn test_factorial() {
    let mut calc = RPNCalculator::new();

    apply(&mut calc, "5"); // 5
    apply(&mut calc, "!"); // 5!

    assert_eq!(calc.get_result(), Some(120.0));
}

#[test]
fn test_full_stack_addition() {
    let mut calc = RPNCalculator::new();

    apply(&mut calc, "1"); // 1
    apply(&mut calc, "2"); // 2
    apply(&mut calc, "3"); // 3
    apply(&mut calc, "++"); // 1 + 2 + 3

    assert_eq!(calc.get_result(), Some(6.0));
}

#[test]
fn test_full_stack_multiplication() {
    let mut calc = RPNCalculator::new();

    apply(&mut calc, "2"); // 2
    apply(&mut calc, "3"); // 3
    apply(&mut calc, "4"); // 4
    apply(&mut calc, "**"); // 2 * 3 * 4

    assert_eq!(calc.get_result(), Some(24.0));
}

#[test]
fn test_invalid_input() {
    let mut calc = RPNCalculator::new();

    apply(&mut calc, "abc"); // invalid input

    assert_eq!(calc.get_result(), None);
}

#[test]
fn test_division_by_zero() {
    let mut calc = RPNCalculator::new();

    apply(&mut calc, "10"); // 10
    apply(&mut calc, "0"); // 0
    apply(&mut calc, "/"); // 10 / 0

    assert_eq!(calc.get_result(), Some(f64::INFINITY));
}

#[test]
fn test_infix_reconstruction() {
    let mut calc = RPNCalculator::new();

    apply(&mut calc, "3"); // 3
    apply(&mut calc, "5"); // 5
    apply(&mut calc, "+"); // 3 + 5
    apply(&mut calc, "2"); // 2
    apply(&mut calc, "*"); // (3 + 5) * 2

    let infix = calc.reconstruct_expression_infix();

    assert_eq!(infix, "((3 + 5) * 2)");
}

#[test]
fn test_latex_reconstruction() {
    let mut calc = RPNCalculator::new();

    apply(&mut calc, "3"); // 3
    apply(&mut calc, "5"); // 5
    apply(&mut calc, "+"); // 3 + 5
    apply(&mut calc, "2"); // 2
    apply(&mut calc, "*"); // (3 + 5) * 2

    let latex = calc.reconstruct_expression_latex();

    assert_eq!(latex, "{{3 + 5} \\cdot 2}");
}

#[test]
fn test_simple_complex_calculation() {
    let mut calc = RPNCalculator::new();

    apply(&mut calc, "3"); // 3
    apply(&mut calc, "4"); // 4
    apply(&mut calc, "+"); // 3 + 4 = 7
    apply(&mut calc, "2"); // 2
    apply(&mut calc, "*"); // 7 * 2 = 14
    apply(&mut calc, "5"); // 5
    apply(&mut calc, "+"); // 14 + 5 = 19

    assert_eq!(calc.get_result(), Some(19.0));
}

#[test]
fn infix_of_sum() {
    let mut calc = RPNCalculator::new();
    apply(&mut calc, "3");
    apply(&mut calc, "4");
    apply(&mut calc, "+");
    assert_eq!(calc.reconstruct_expression_infix(), "(3 + 4)");
}

#[test]
fn infix_of_nested_product() {
    let mut calc = RPNCalculator::new();
    apply(&mut calc, "3");
    apply(&mut calc, "4");
    apply(&mut calc, "+");
    apply(&mut calc, "2");
    apply(&mut calc, "*");
    assert_eq!(calc.reconstruct_expression_infix(), "((3 + 4) * 2)");
}

#[test]
fn latex_of_fraction() {
    let mut calc = RPNCalculator::new();
    apply(&mut calc, "5");
    apply(&mut calc, "2");
    apply(&mut calc, "/");
    assert_eq!(calc.reconstruct_expression_latex(), "{\\frac{5}{2}}");
}

#[test]
fn latex_of_nested_product() {
    let mut calc = RPNCalculator::new();
    apply(&mut calc, "3");
    apply(&mut calc, "4");
    apply(&mut calc, "+");
    apply(&mut calc, "2");
    apply(&mut calc, "*");
    assert_eq!(calc.reconstruct_expression_latex(), "{{3 + 4} \\cdot 2}");
}

#[test]
fn latex_of_difference() {
    let mut calc = RPNCalculator::new();
    apply(&mut calc, "7");
    apply(&mut calc, "4");
    apply(&mut calc, "-");
    assert_eq!(calc.reconstruct_expression_latex(), "{7 - 4}");
}

#[test]
fn latex_of_power() {
    let mut calc = RPNCalculator::new();
    apply(&mut calc, "2");
    apply(&mut calc, "3");
    apply(&mut calc, "^");
    assert_eq!(calc.reconstruct_expression_latex(), "{2^{3}}");
}

#[test]
fn renderings_of_unary_operators() {
    let mut calc = RPNCalculator::new();
    apply(&mut calc, "9");
    apply(&mut calc, "sqrt");
    assert_eq!(calc.duplicate().reconstruct_expression_infix(), "sqrt(9)");
    assert_eq!(calc.reconstruct_expression_latex(), "\\sqrt{9}");

    let mut calc = RPNCalculator::new();
    apply(&mut calc, "100");
    apply(&mut calc, "log");
    assert_eq!(calc.duplicate().reconstruct_expression_infix(), "log10(100)");
    assert_eq!(calc.reconstruct_expression_latex(), "\\log_{10} {100}");

    let mut calc = RPNCalculator::new();
    apply(&mut calc, "-5");
    apply(&mut calc, "abs");
    assert_eq!(calc.duplicate().reconstruct_expression_infix(), "abs(-5)");
    assert_eq!(calc.reconstruct_expression_latex(), "\\left| {-5} \\right|");

    let mut calc = RPNCalculator::new();
    apply(&mut calc, "5");
    apply(&mut calc, "!");
    assert_eq!(calc.duplicate().reconstruct_expression_infix(), "(5!)");
    assert_eq!(calc.reconstruct_expression_latex(), "{5}!");
}

#[test]
fn renderings_of_reductions() {
    // Reconstruction reads the history back to front, so the collected terms
    // come out in reverse push order.
    let mut calc = RPNCalculator::new();
    apply(&mut calc, "1");
    apply(&mut calc, "2");
    apply(&mut calc, "3");
    apply(&mut calc, "++");
    assert_eq!(calc.duplicate().reconstruct_expression_infix(), "(3 + 2 + 1)");
    assert_eq!(calc.reconstruct_expression_latex(), "{3 + 2 + 1}");

    let mut calc = RPNCalculator::new();
    apply(&mut calc, "2");
    apply(&mut calc, "3");
    apply(&mut calc, "4");
    apply(&mut calc, "**");
    assert_eq!(calc.duplicate().reconstruct_expression_infix(), "(4 * 3 * 2)");
    assert_eq!(calc.reconstruct_expression_latex(), "{4 \\cdot 3 \\cdot 2}");
}

#[test]
fn result_absent_for_empty_and_wide_stacks() {
    let mut calc = RPNCalculator::new();
    assert_eq!(calc.get_result(), None);

    apply(&mut calc, "3");
    assert_eq!(calc.get_result(), Some(3.0));

    apply(&mut calc, "4");
    assert_eq!(calc.get_result(), None);

    apply(&mut calc, "5");
    assert_eq!(calc.get_result(), None);
}

#[test]
fn invalid_token_leaves_state_unchanged() {
    let mut calc = RPNCalculator::new();
    apply(&mut calc, "foo");
    assert_eq!(calc.get_result(), None);
    assert_eq!(calc.duplicate().reconstruct_expression_infix(), "");

    // The same on a non-empty engine: the stack and the history stay exactly
    // as they were, and evaluation continues.
    apply(&mut calc, "2");
    apply(&mut calc, "foo");
    assert_eq!(calc.get_result(), Some(2.0));
    assert_eq!(calc.duplicate().reconstruct_expression_infix(), "2");
    apply(&mut calc, "3");
    apply(&mut calc, "+");
    assert_eq!(calc.get_result(), Some(5.0));
}

#[test]
fn underflow_leaves_state_unchanged() {
    let mut calc = RPNCalculator::new();
    apply(&mut calc, "+");
    assert_eq!(calc.get_result(), None);
    assert_eq!(calc.duplicate().reconstruct_expression_infix(), "");

    apply(&mut calc, "7");
    apply(&mut calc, "sqrt");
    apply(&mut calc, "-");
    assert_eq!(calc.duplicate().reconstruct_expression_infix(), "sqrt(7)");
}

#[test]
fn reduction_of_three_values() {
    let mut calc = RPNCalculator::new();
    apply(&mut calc, "2");
    apply(&mut calc, "4");
    apply(&mut calc, "6");
    apply(&mut calc, "++");
    assert_eq!(calc.get_result(), Some(12.0));

    let mut calc = RPNCalculator::new();
    apply(&mut calc, "2");
    apply(&mut calc, "3");
    apply(&mut calc, "4");
    apply(&mut calc, "**");
    assert_eq!(calc.get_result(), Some(24.0));
}

#[test]
fn reduction_of_one_value_keeps_it() {
    let mut calc = RPNCalculator::new();
    apply(&mut calc, "5");
    apply(&mut calc, "++");
    assert_eq!(calc.get_result(), Some(5.0));

    let mut calc = RPNCalculator::new();
    apply(&mut calc, "4");
    apply(&mut calc, "**");
    assert_eq!(calc.get_result(), Some(4.0));
}

#[test]
fn reduction_of_empty_stack_yields_identity() {
    let mut calc = RPNCalculator::new();
    apply(&mut calc, "++");
    assert_eq!(calc.get_result(), Some(0.0));

    let mut calc = RPNCalculator::new();
    apply(&mut calc, "**");
    assert_eq!(calc.get_result(), Some(1.0));
}

#[test]
fn factorial_of_zero_and_five() {
    let mut calc = RPNCalculator::new();
    apply(&mut calc, "0");
    apply(&mut calc, "!");
    assert_eq!(calc.get_result(), Some(1.0));

    let mut calc = RPNCalculator::new();
    apply(&mut calc, "5");
    apply(&mut calc, "!");
    assert_eq!(calc.get_result(), Some(120.0));
}

#[test]
fn checked_factorial_bounds() {
    assert_eq!(checked_factorial(0), Some(1));
    assert_eq!(checked_factorial(1), Some(1));
    assert_eq!(checked_factorial(5), Some(120));
    assert_eq!(checked_factorial(20), Some(2432902008176640000));
    assert_eq!(checked_factorial(21), None);
}

#[test]
fn negative_numbers() {
    let mut calc = RPNCalculator::new();
    apply(&mut calc, "-10");
    apply(&mut calc, "-5");
    apply(&mut calc, "+");
    assert_eq!(calc.get_result(), Some(-15.0));

    let mut calc = RPNCalculator::new();
    apply(&mut calc, "-8");
    apply(&mut calc, "abs");
    assert_eq!(calc.get_result(), Some(8.0));
}

#[test]
fn reconstruction_is_destructive() {
    let mut calc = RPNCalculator::new();
    apply(&mut calc, "3");
    apply(&mut calc, "4");
    apply(&mut calc, "+");
    let first = calc.reconstruct_expression_infix();
    assert!(!first.is_empty());
    assert_eq!(first, "(3 + 4)");
    let second = calc.reconstruct_expression_infix();
    assert_eq!(second, "");
}

#[test]
fn reconstruction_pops_one_expression_at_a_time() {
    // A history holding more than one complete expression is consumed one
    // expression per call, from the tail.
    let mut calc = RPNCalculator::new();
    apply(&mut calc, "3");
    apply(&mut calc, "4");
    apply(&mut calc, "+");
    apply(&mut calc, "5");
    assert_eq!(calc.reconstruct_expression_infix(), "5");
    assert_eq!(calc.reconstruct_expression_infix(), "(3 + 4)");
    assert_eq!(calc.reconstruct_expression_infix(), "");
}

#[test]
fn duplicate_keeps_the_original_usable() {
    let mut calc = RPNCalculator::new();
    apply(&mut calc, "3");
    apply(&mut calc, "4");
    apply(&mut calc, "+");

    let mut snapshot = calc.duplicate();
    assert_eq!(snapshot.reconstruct_expression_infix(), "(3 + 4)");
    assert_eq!(snapshot.get_result(), Some(7.0));

    // The original still holds its history and keeps computing.
    assert_eq!(calc.get_result(), Some(7.0));
    apply(&mut calc, "2");
    apply(&mut calc, "*");
    assert_eq!(calc.get_result(), Some(14.0));
    assert_eq!(calc.reconstruct_expression_infix(), "((3 + 4) * 2)");
}

#[test]
fn classification_of_tokens() {
    assert_eq!(classify_token("+"), TokenClass::Binary(BinaryOp::Add));
    assert_eq!(classify_token("-"), TokenClass::Binary(BinaryOp::Sub));
    assert_eq!(classify_token("*"), TokenClass::Binary(BinaryOp::Mul));
    assert_eq!(classify_token("/"), TokenClass::Binary(BinaryOp::Div));
    assert_eq!(classify_token("^"), TokenClass::Binary(BinaryOp::Pow));
    assert_eq!(classify_token("sqrt"), TokenClass::Unary(UnaryOp::Sqrt));
    assert_eq!(classify_token("log"), TokenClass::Unary(UnaryOp::Log));
    assert_eq!(classify_token("abs"), TokenClass::Unary(UnaryOp::Abs));
    assert_eq!(classify_token("!"), TokenClass::Unary(UnaryOp::Factorial));
    assert_eq!(classify_token("++"), TokenClass::Reduce(ReduceOp::Sum));
    assert_eq!(classify_token("**"), TokenClass::Reduce(ReduceOp::Product));
    assert_eq!(classify_token("3.5"), TokenClass::Literal);
    assert_eq!(classify_token("-8"), TokenClass::Literal);
    assert_eq!(classify_token("foo"), TokenClass::Literal);
    assert_eq!(classify_token(""), TokenClass::Literal);
}

#[test]
fn handler_methods_dispatch_like_apply() {
    let mut calc: RPNCalculator<f64> = RPNCalculator::new();
    match calc.new_number_handling("6") {
        Action::Parse => calc.resolve(6.0),
        _ => unreachable!(),
    }
    match calc.new_number_handling("2") {
        Action::Parse => calc.resolve(2.0),
        _ => unreachable!(),
    }
    match calc.arithmetical_operation_handling("*") {
        Action::Binary(BinaryOp::Mul, a, b) => calc.resolve(a * b),
        _ => unreachable!(),
    }
    assert_eq!(calc.get_result(), Some(12.0));

    match calc.log_abs_sqrt_operation_handling("sqrt") {
        Action::Unary(UnaryOp::Sqrt, a) => calc.resolve(a.sqrt()),
        _ => unreachable!(),
    }
    assert_eq!(calc.get_result(), Some(12.0_f64.sqrt()));

    match calc.factorial_operation_handling() {
        Action::Unary(UnaryOp::Factorial, a) => {
            calc.resolve(checked_factorial(a as u64).unwrap() as f64)
        }
        _ => unreachable!(),
    }
    assert_eq!(calc.get_result(), Some(6.0));

    match calc.full_stack_addition_handling() {
        Action::Reduce(ReduceOp::Sum, operands) => {
            let s: f64 = operands.iter().sum();
            calc.resolve(s)
        }
        _ => unreachable!(),
    }
    assert_eq!(calc.get_result(), Some(6.0));

    match calc.full_stack_multiplication_handling() {
        Action::Reduce(ReduceOp::Product, operands) => {
            let p: f64 = operands.iter().product();
            calc.resolve(p)
        }
        _ => unreachable!(),
    }
    assert_eq!(calc.get_result(), Some(6.0));
}
