//! The token vocabulary: classification of an input token as a binary
//! operator, a unary operator, a whole-stack reduction, or a candidate
//! numeric literal.

use vstd::prelude::*;

verus! {

/// The five binary arithmetic operators `+ - * / ^`.
#[derive(Clone, Copy, PartialEq, Eq, Structural, Debug)]
pub enum BinaryOp {
    Add,
    Sub,
    Mul,
    Div,
    Pow,
}

/// The operators that consume exactly one operand: the transcendental
/// functions `sqrt`, `log` (base 10) and `abs`, and the postfix factorial `!`.
#[derive(Clone, Copy, PartialEq, Eq, Structural, Debug)]
pub enum UnaryOp {
    Sqrt,
    Log,
    Abs,
    Factorial,
}

/// The whole-stack reduction operators: `++` sums every value on the stack,
/// `**` multiplies every value on the stack.
#[derive(Clone, Copy, PartialEq, Eq, Structural, Debug)]
pub enum ReduceOp {
    Sum,
    Product,
}

/// What a token means to the engine.  A token that is no operator is a
/// `Literal` candidate: whether it really denotes a number is decided by the
/// caller, who parses it.
#[derive(Clone, Copy, PartialEq, Eq, Structural, Debug)]
pub enum TokenClass {
    Binary(BinaryOp),
    Unary(UnaryOp),
    Reduce(ReduceOp),
    Literal,
}

pub open spec fn is_binary_token(t: Seq<char>) -> bool {
    ||| t == "+"@
    ||| t == "-"@
    ||| t == "*"@
    ||| t == "/"@
    ||| t == "^"@
}

pub open spec fn is_unary_token(t: Seq<char>) -> bool {
    ||| t == "sqrt"@
    ||| t == "log"@
    ||| t == "abs"@
    ||| t == "!"@
}

pub open spec fn is_reduce_token(t: Seq<char>) -> bool {
    ||| t == "++"@
    ||| t == "**"@
}

pub open spec fn is_operator_token(t: Seq<char>) -> bool {
    is_binary_token(t) || is_unary_token(t) || is_reduce_token(t)
}

pub open spec fn binary_op_of(t: Seq<char>) -> BinaryOp {
    if t == "+"@ {
        BinaryOp::Add
    } else if t == "-"@ {
        BinaryOp::Sub
    } else if t == "*"@ {
        BinaryOp::Mul
    } else if t == "/"@ {
        BinaryOp::Div
    } else {
        BinaryOp::Pow
    }
}

pub open spec fn unary_op_of(t: Seq<char>) -> UnaryOp {
    if t == "sqrt"@ {
        UnaryOp::Sqrt
    } else if t == "log"@ {
        UnaryOp::Log
    } else if t == "abs"@ {
        UnaryOp::Abs
    } else {
        UnaryOp::Factorial
    }
}

pub open spec fn reduce_op_of(t: Seq<char>) -> ReduceOp {
    if t == "++"@ {
        ReduceOp::Sum
    } else {
        ReduceOp::Product
    }
}

/// The class of a token, decided by fixed-string match against the operator
/// vocabulary; anything else is a literal candidate.
pub open spec fn spec_classify(t: Seq<char>) -> TokenClass {
    if is_binary_token(t) {
        TokenClass::Binary(binary_op_of(t))
    } else if is_unary_token(t) {
        TokenClass::Unary(unary_op_of(t))
    } else if is_reduce_token(t) {
        TokenClass::Reduce(reduce_op_of(t))
    } else {
        TokenClass::Literal
    }
}

/// Relies on `<str as PartialEq>::eq`: two string slices compare equal
/// exactly when their character sequences are equal.
#[verifier::external_body]
pub(crate) fn str_eq(a: &str, b: &str) -> (r: bool)
    ensures
        r == (a@ == b@),
{
    a == b
}

/// Classifies one token by fixed-string match against the operator
/// vocabulary, exactly as [`spec_classify`] describes.
pub fn classify_token(token: &str) -> (c: TokenClass)
    ensures
        c == spec_classify(token@),
{
    if str_eq(token, "+") {
        TokenClass::Binary(BinaryOp::Add)
    } else if str_eq(token, "-") {
        TokenClass::Binary(BinaryOp::Sub)
    } else if str_eq(token, "*") {
        TokenClass::Binary(BinaryOp::Mul)
    } else if str_eq(token, "/") {
        TokenClass::Binary(BinaryOp::Div)
    } else if str_eq(token, "^") {
        TokenClass::Binary(BinaryOp::Pow)
    } else if str_eq(token, "sqrt") {
        TokenClass::Unary(UnaryOp::Sqrt)
    } else if str_eq(token, "log") {
        TokenClass::Unary(UnaryOp::Log)
    } else if str_eq(token, "abs") {
        TokenClass::Unary(UnaryOp::Abs)
    } else if str_eq(token, "!") {
        TokenClass::Unary(UnaryOp::Factorial)
    } else if str_eq(token, "++") {
        TokenClass::Reduce(ReduceOp::Sum)
    } else if str_eq(token, "**") {
        TokenClass::Reduce(ReduceOp::Product)
    } else {
        TokenClass::Literal
    }
}

/// The operator tokens fall into the classes their spelling says: the
/// factorial mark is unary and the two reduction marks are reductions, never
/// binary operators or one another.
pub proof fn lemma_fixed_token_classes()
    ensures
        spec_classify("!"@) == TokenClass::Unary(UnaryOp::Factorial),
        spec_classify("++"@) == TokenClass::Reduce(ReduceOp::Sum),
        spec_classify("**"@) == TokenClass::Reduce(ReduceOp::Product),
{
    reveal_strlit("!");
    reveal_strlit("+");
    reveal_strlit("-");
    reveal_strlit("*");
    reveal_strlit("/");
    reveal_strlit("^");
    reveal_strlit("sqrt");
    reveal_strlit("log");
    reveal_strlit("abs");
    reveal_strlit("++");
    reveal_strlit("**");
    assert("!"@ != "+"@) by {
        assert("!"@[0] == '!');
        assert("+"@[0] == '+');
    }
    assert("!"@ != "-"@) by {
        assert("!"@[0] == '!');
        assert("-"@[0] == '-');
    }
    assert("!"@ != "*"@) by {
        assert("!"@[0] == '!');
        assert("*"@[0] == '*');
    }
    assert("!"@ != "/"@) by {
        assert("!"@[0] == '!');
        assert("/"@[0] == '/');
    }
    assert("!"@ != "^"@) by {
        assert("!"@[0] == '!');
        assert("^"@[0] == '^');
    }
    assert("++"@.len() == 2 && "**"@.len() == 2);
    assert("+"@.len() == 1 && "-"@.len() == 1 && "*"@.len() == 1 && "/"@.len() == 1 && "^"@.len()
        == 1 && "!"@.len() == 1);
    assert("sqrt"@.len() == 4 && "log"@.len() == 3 && "abs"@.len() == 3);
    assert("++"@ != "**"@) by {
        assert("++"@[0] == '+');
        assert("**"@[0] == '*');
    }
}

} // verus!
