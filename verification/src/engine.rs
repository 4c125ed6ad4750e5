//! The evaluator/history engine: a numeric stack and an append-only history
//! of accepted tokens.
//!
//! The engine is generic in the value type `V` and never computes with
//! values: dispatching a token pops the operands the operator needs and hands
//! them to the caller as an [`Action`]; the caller carries out the arithmetic
//! (or the parse, for a literal token) and hands the value back through
//! [`RPNCalculator::resolve`], which pushes it and records the token in the
//! history.  A literal that fails to parse is withdrawn with
//! [`RPNCalculator::reject`], leaving the state exactly as before.  An
//! operator that needs more operands than the stack holds is refused as
//! [`Action::Underflow`] with nothing changed.

use vstd::pervasive::unreached;
use vstd::prelude::*;

use crate::render::{render_expr, render_history, RenderStyle};
use crate::token::{
    binary_op_of, classify_token, is_binary_token, is_operator_token, lemma_fixed_token_classes,
    reduce_op_of, spec_classify, BinaryOp, ReduceOp, TokenClass, UnaryOp,
};

verus! {

/// What the caller must do to finish one `apply_operation` call.
#[derive(Debug)]
pub enum Action<V> {
    /// Compute `left OP right` over the two popped operands (left was pushed
    /// first) and hand the value to [`RPNCalculator::resolve`].
    Binary(BinaryOp, V, V),
    /// Compute `OP operand` over the one popped operand and hand the value to
    /// [`RPNCalculator::resolve`].
    Unary(UnaryOp, V),
    /// Fold the listed operands (the whole stack, bottom of the stack first)
    /// with the reduction and hand the value to [`RPNCalculator::resolve`]:
    /// the sum of no operands is 0, the product of no operands is 1.
    Reduce(ReduceOp, Vec<V>),
    /// The token is no operator: parse it as a number and either hand the
    /// value to [`RPNCalculator::resolve`] or withdraw the token with
    /// [`RPNCalculator::reject`].
    Parse,
    /// The operator needs more operands than the stack holds; the state is
    /// unchanged and nothing is awaited.
    Underflow,
}

/// An [`Action`] with the reduction operands abstracted to a sequence.
pub ghost enum ActionView<V> {
    Binary(BinaryOp, V, V),
    Unary(UnaryOp, V),
    Reduce(ReduceOp, Seq<V>),
    Parse,
    Underflow,
}

pub open spec fn action_view<V>(act: Action<V>) -> ActionView<V> {
    match act {
        Action::Binary(op, a, b) => ActionView::Binary(op, a, b),
        Action::Unary(op, a) => ActionView::Unary(op, a),
        Action::Reduce(op, operands) => ActionView::Reduce(op, operands@),
        Action::Parse => ActionView::Parse,
        Action::Underflow => ActionView::Underflow,
    }
}

/// The token the engine is waiting to finish, if any: an operator whose value
/// the caller is computing, or a literal the caller is parsing.
pub ghost enum PendingView {
    Idle,
    AwaitOperator(Seq<char>),
    AwaitLiteral(Seq<char>),
}

/// The abstract state of the engine: the values on the stack (bottom first),
/// the accepted tokens in the order applied, and the awaited token.
#[verifier::ext_equal]
pub ghost struct CalcView<V> {
    pub stack: Seq<V>,
    pub history: Seq<Seq<char>>,
    pub pending: PendingView,
}

/// The token that will be recorded in the history when the awaited value
/// arrives.
pub open spec fn pending_token(p: PendingView) -> Seq<char> {
    match p {
        PendingView::Idle => Seq::<char>::empty(),
        PendingView::AwaitOperator(t) => t,
        PendingView::AwaitLiteral(t) => t,
    }
}

/// How `apply_operation` transforms the engine state and which action it
/// returns, as a function of the state and the token.
pub open spec fn apply_step<V>(v: CalcView<V>, t: Seq<char>) -> (CalcView<V>, ActionView<V>) {
    match spec_classify(t) {
        TokenClass::Binary(op) => {
            if v.stack.len() >= 2 {
                (
                    CalcView {
                        stack: v.stack.drop_last().drop_last(),
                        pending: PendingView::AwaitOperator(t),
                        ..v
                    },
                    ActionView::Binary(
                        op,
                        v.stack[v.stack.len() - 2],
                        v.stack[v.stack.len() - 1],
                    ),
                )
            } else {
                (v, ActionView::Underflow)
            }
        },
        TokenClass::Unary(op) => {
            if v.stack.len() >= 1 {
                (
                    CalcView {
                        stack: v.stack.drop_last(),
                        pending: PendingView::AwaitOperator(t),
                        ..v
                    },
                    ActionView::Unary(op, v.stack.last()),
                )
            } else {
                (v, ActionView::Underflow)
            }
        },
        TokenClass::Reduce(op) => (
            CalcView { stack: Seq::<V>::empty(), pending: PendingView::AwaitOperator(t), ..v },
            ActionView::Reduce(op, v.stack),
        ),
        TokenClass::Literal => (
            CalcView { pending: PendingView::AwaitLiteral(t), ..v },
            ActionView::Parse,
        ),
    }
}

/// How `resolve` transforms the engine state: the value is pushed and the
/// awaited token is recorded in the history.
pub open spec fn resolve_step<V>(v: CalcView<V>, value: V) -> CalcView<V> {
    CalcView {
        stack: v.stack.push(value),
        history: v.history.push(pending_token(v.pending)),
        pending: PendingView::Idle,
    }
}

/// How `reject` transforms the engine state: the awaited token is dropped.
pub open spec fn clear_pending<V>(v: CalcView<V>) -> CalcView<V> {
    CalcView { pending: PendingView::Idle, ..v }
}

enum Pending {
    Idle,
    AwaitOperator(String),
    AwaitLiteral(String),
}

/// The evaluator/history engine.  Its view is a [`CalcView`].
pub struct RPNCalculator<V> {
    stack: Vec<V>,
    history_stack: Vec<String>,
    pending: Pending,
}

impl<V> View for RPNCalculator<V> {
    type V = CalcView<V>;

    closed spec fn view(&self) -> CalcView<V> {
        CalcView {
            stack: self.stack@,
            history: self.history_stack.deep_view(),
            pending: match self.pending {
                Pending::Idle => PendingView::Idle,
                Pending::AwaitOperator(t) => PendingView::AwaitOperator(t@),
                Pending::AwaitLiteral(t) => PendingView::AwaitLiteral(t@),
            },
        }
    }
}

impl<V: Copy> RPNCalculator<V> {
    /// A fresh engine: empty stack, empty history, nothing awaited.
    pub fn new() -> (calc: Self)
        ensures
            calc@.stack == Seq::<V>::empty(),
            calc@.history == Seq::<Seq<char>>::empty(),
            calc@.pending is Idle,
    {
        let calc = RPNCalculator {
            stack: Vec::new(),
            history_stack: Vec::new(),
            pending: Pending::Idle,
        };
        proof {
            assert(calc.history_stack.deep_view() =~= Seq::<Seq<char>>::empty());
        }
        calc
    }

    /// Dispatches one token: classifies it, pops the operands its operator
    /// needs, and returns what the caller must compute.  The state moves as
    /// [`apply_step`] says.
    pub fn apply_operation(&mut self, token: &str) -> (act: Action<V>)
        requires
            old(self)@.pending is Idle,
        ensures
            final(self)@ == apply_step(old(self)@, token@).0,
            action_view(act) == apply_step(old(self)@, token@).1,
    {
        match classify_token(token) {
            TokenClass::Binary(_) => self.arithmetical_operation_handling(token),
            TokenClass::Unary(op) => match op {
                UnaryOp::Factorial => self.factorial_operation_handling(),
                _ => self.log_abs_sqrt_operation_handling(token),
            },
            TokenClass::Reduce(op) => match op {
                ReduceOp::Sum => self.full_stack_addition_handling(),
                ReduceOp::Product => self.full_stack_multiplication_handling(),
            },
            TokenClass::Literal => self.new_number_handling(token),
        }
    }

    /// Pops the two operands of a binary operator (or refuses with
    /// [`Action::Underflow`]) and awaits the computed value.
    pub fn arithmetical_operation_handling(&mut self, token: &str) -> (act: Action<V>)
        requires
            old(self)@.pending is Idle,
            spec_classify(token@) is Binary,
        ensures
            final(self)@ == apply_step(old(self)@, token@).0,
            action_view(act) == apply_step(old(self)@, token@).1,
    {
        let op = match classify_token(token) {
            TokenClass::Binary(op) => op,
            _ => unreached(),
        };
        if self.stack.len() >= 2 {
            let b = self.stack.pop().unwrap();
            let a = self.stack.pop().unwrap();
            self.pending = Pending::AwaitOperator(token.to_owned());
            proof {
                assert(self@ =~= apply_step(old(self)@, token@).0);
            }
            Action::Binary(op, a, b)
        } else {
            Action::Underflow
        }
    }

    /// Pops the one operand of `sqrt`, `log` or `abs` (or refuses with
    /// [`Action::Underflow`]) and awaits the computed value.
    pub fn log_abs_sqrt_operation_handling(&mut self, token: &str) -> (act: Action<V>)
        requires
            old(self)@.pending is Idle,
            spec_classify(token@) is Unary,
        ensures
            final(self)@ == apply_step(old(self)@, token@).0,
            action_view(act) == apply_step(old(self)@, token@).1,
    {
        let op = match classify_token(token) {
            TokenClass::Unary(op) => op,
            _ => unreached(),
        };
        if self.stack.len() >= 1 {
            let a = self.stack.pop().unwrap();
            self.pending = Pending::AwaitOperator(token.to_owned());
            proof {
                assert(self@ =~= apply_step(old(self)@, token@).0);
            }
            Action::Unary(op, a)
        } else {
            Action::Underflow
        }
    }

    /// Pops the operand of the postfix factorial `!` (or refuses with
    /// [`Action::Underflow`]) and awaits the computed value.
    pub fn factorial_operation_handling(&mut self) -> (act: Action<V>)
        requires
            old(self)@.pending is Idle,
        ensures
            final(self)@ == apply_step(old(self)@, "!"@).0,
            action_view(act) == apply_step(old(self)@, "!"@).1,
    {
        proof {
            lemma_fixed_token_classes();
        }
        if self.stack.len() >= 1 {
            let a = self.stack.pop().unwrap();
            self.pending = Pending::AwaitOperator("!".to_owned());
            proof {
                assert(self@ =~= apply_step(old(self)@, "!"@).0);
            }
            Action::Unary(UnaryOp::Factorial, a)
        } else {
            Action::Underflow
        }
    }

    /// Takes every value off the stack for the whole-stack sum `++` and
    /// awaits the aggregate.  An empty stack is allowed: the sum of no
    /// operands is 0.
    pub fn full_stack_addition_handling(&mut self) -> (act: Action<V>)
        requires
            old(self)@.pending is Idle,
        ensures
            final(self)@ == apply_step(old(self)@, "++"@).0,
            action_view(act) == apply_step(old(self)@, "++"@).1,
    {
        proof {
            lemma_fixed_token_classes();
        }
        let mut operands: Vec<V> = Vec::new();
        core::mem::swap(&mut operands, &mut self.stack);
        self.pending = Pending::AwaitOperator("++".to_owned());
        proof {
            assert(self@ =~= apply_step(old(self)@, "++"@).0);
        }
        Action::Reduce(ReduceOp::Sum, operands)
    }

    /// Takes every value off the stack for the whole-stack product `**` and
    /// awaits the aggregate.  An empty stack is allowed: the product of no
    /// operands is 1.
    pub fn full_stack_multiplication_handling(&mut self) -> (act: Action<V>)
        requires
            old(self)@.pending is Idle,
        ensures
            final(self)@ == apply_step(old(self)@, "**"@).0,
            action_view(act) == apply_step(old(self)@, "**"@).1,
    {
        proof {
            lemma_fixed_token_classes();
        }
        let mut operands: Vec<V> = Vec::new();
        core::mem::swap(&mut operands, &mut self.stack);
        self.pending = Pending::AwaitOperator("**".to_owned());
        proof {
            assert(self@ =~= apply_step(old(self)@, "**"@).0);
        }
        Action::Reduce(ReduceOp::Product, operands)
    }

    /// Holds a token that is no operator, awaiting the caller's parse: the
    /// parsed value arrives through [`RPNCalculator::resolve`], or the token
    /// is withdrawn as invalid through [`RPNCalculator::reject`].
    pub fn new_number_handling(&mut self, token: &str) -> (act: Action<V>)
        requires
            old(self)@.pending is Idle,
            spec_classify(token@) is Literal,
        ensures
            final(self)@ == apply_step(old(self)@, token@).0,
            action_view(act) == apply_step(old(self)@, token@).1,
    {
        self.pending = Pending::AwaitLiteral(token.to_owned());
        proof {
            assert(self@ =~= apply_step(old(self)@, token@).0);
        }
        Action::Parse
    }

    /// Finishes the pending token: pushes the value the caller computed (or
    /// parsed) and records the token in the history.
    pub fn resolve(&mut self, value: V)
        requires
            !(old(self)@.pending is Idle),
        ensures
            final(self)@ == resolve_step(old(self)@, value),
    {
        let mut p = Pending::Idle;
        core::mem::swap(&mut p, &mut self.pending);
        match p {
            Pending::AwaitOperator(tok) => {
                self.stack.push(value);
                self.history_stack.push(tok);
            },
            Pending::AwaitLiteral(tok) => {
                self.stack.push(value);
                self.history_stack.push(tok);
            },
            Pending::Idle => unreached(),
        }
        proof {
            assert(self@ =~= resolve_step(old(self)@, value));
        }
    }

    /// Withdraws a pending literal whose parse failed: the stack and the
    /// history are exactly as before the token arrived.
    pub fn reject(&mut self)
        requires
            old(self)@.pending is AwaitLiteral,
        ensures
            final(self)@ == clear_pending(old(self)@),
    {
        self.pending = Pending::Idle;
        proof {
            assert(self@ =~= clear_pending(old(self)@));
        }
    }

    /// The result of the computation so far: the sole value on the stack, and
    /// absent whenever the stack holds no value or more than one.
    pub fn get_result(&self) -> (r: Option<V>)
        ensures
            r == if self@.stack.len() == 1 {
                Some(self@.stack[0])
            } else {
                None::<V>
            },
    {
        if self.stack.len() == 1 {
            Some(self.stack[0])
        } else {
            None
        }
    }

    /// Rebuilds the whole computation recorded so far as a fully
    /// parenthesized infix expression, exactly as
    /// [`render_expr`] with the infix style says.  The call consumes the
    /// history from the tail: duplicate the engine first to keep it usable.
    pub fn reconstruct_expression_infix(&mut self) -> (out: String)
        ensures
            out@ == render_expr(RenderStyle::Infix, old(self)@.history).1,
            final(self)@.history == render_expr(RenderStyle::Infix, old(self)@.history).0,
            final(self)@.stack == old(self)@.stack,
            final(self)@.pending == old(self)@.pending,
    {
        let mut h: Vec<String> = Vec::new();
        core::mem::swap(&mut h, &mut self.history_stack);
        let (rest, out) = render_history(RenderStyle::Infix, h);
        self.history_stack = rest;
        out
    }

    /// Rebuilds the whole computation recorded so far as a LaTeX expression,
    /// exactly as [`render_expr`] with the LaTeX style says.  The call
    /// consumes the history from the tail: duplicate the engine first to keep
    /// it usable.
    pub fn reconstruct_expression_latex(&mut self) -> (out: String)
        ensures
            out@ == render_expr(RenderStyle::Latex, old(self)@.history).1,
            final(self)@.history == render_expr(RenderStyle::Latex, old(self)@.history).0,
            final(self)@.stack == old(self)@.stack,
            final(self)@.pending == old(self)@.pending,
    {
        let mut h: Vec<String> = Vec::new();
        core::mem::swap(&mut h, &mut self.history_stack);
        let (rest, out) = render_history(RenderStyle::Latex, h);
        self.history_stack = rest;
        out
    }

    /// An independent copy of the whole engine state, so that a caller can
    /// reconstruct (which consumes the history) and still keep computing on
    /// the original.
    pub fn duplicate(&self) -> (copy: Self)
        ensures
            copy@ == self@,
    {
        let mut stack: Vec<V> = Vec::new();
        let mut i: usize = 0;
        while i < self.stack.len()
            invariant
                i <= self.stack@.len(),
                stack@ =~= self.stack@.take(i as int),
            decreases self.stack@.len() - i,
        {
            stack.push(self.stack[i]);
            i = i + 1;
        }
        let mut history_stack: Vec<String> = Vec::new();
        let mut j: usize = 0;
        while j < self.history_stack.len()
            invariant
                j <= self.history_stack@.len(),
                history_stack@ =~= self.history_stack@.take(j as int),
            decreases self.history_stack@.len() - j,
        {
            history_stack.push(self.history_stack[j].clone());
            j = j + 1;
        }
        let pending = match &self.pending {
            Pending::Idle => Pending::Idle,
            Pending::AwaitOperator(t) => Pending::AwaitOperator(t.clone()),
            Pending::AwaitLiteral(t) => Pending::AwaitLiteral(t.clone()),
        };
        let copy = RPNCalculator { stack, history_stack, pending };
        proof {
            assert(copy.stack@ =~= self.stack@);
            assert(copy.history_stack@ =~= self.history_stack@);
            assert(copy@ =~= self@);
        }
        copy
    }
}

/// Law: a token that is no operator is handed back for parsing, and when the
/// parse fails and the token is withdrawn, the engine state is exactly what
/// it was before the token arrived.
pub proof fn lemma_invalid_token_round_trip<V>(v: CalcView<V>, t: Seq<char>)
    requires
        v.pending is Idle,
        !is_operator_token(t),
    ensures
        apply_step(v, t).1 == ActionView::<V>::Parse,
        clear_pending(apply_step(v, t).0) == v,
{
    assert(clear_pending(apply_step(v, t).0) =~= v);
}

/// Law: two literals followed by a binary operator make the engine hand out
/// exactly those two values in push order, and the value computed from them
/// replaces them as the one new stack entry, the three tokens entering the
/// history in the order applied.
pub proof fn lemma_binary_over_two_literals<V>(
    v: CalcView<V>,
    ta: Seq<char>,
    a: V,
    tb: Seq<char>,
    b: V,
    top: Seq<char>,
    r: V,
)
    requires
        v.pending is Idle,
        !is_operator_token(ta),
        !is_operator_token(tb),
        is_binary_token(top),
    ensures
        ({
            let v1 = resolve_step(apply_step(v, ta).0, a);
            let v2 = resolve_step(apply_step(v1, tb).0, b);
            apply_step(v2, top).1 == ActionView::Binary(binary_op_of(top), a, b)
        }),
        ({
            let v1 = resolve_step(apply_step(v, ta).0, a);
            let v2 = resolve_step(apply_step(v1, tb).0, b);
            let v3 = resolve_step(apply_step(v2, top).0, r);
            &&& v3.stack == v.stack.push(r)
            &&& v3.history == v.history.push(ta).push(tb).push(top)
            &&& v3.pending is Idle
        }),
{
    let v1 = resolve_step(apply_step(v, ta).0, a);
    let v2 = resolve_step(apply_step(v1, tb).0, b);
    let v3 = resolve_step(apply_step(v2, top).0, r);
    assert(v2.stack =~= v.stack.push(a).push(b));
    assert(v2.stack.drop_last().drop_last() =~= v.stack);
    assert(v3.stack =~= v.stack.push(r));
}

/// Law: a whole-stack reduction hands out every value on the stack, bottom
/// first, and the one value computed from them is afterwards the whole stack.
pub proof fn lemma_reduce_takes_whole_stack<V>(v: CalcView<V>, t: Seq<char>, r: V)
    requires
        v.pending is Idle,
        spec_classify(t) is Reduce,
    ensures
        apply_step(v, t).1 == ActionView::Reduce(reduce_op_of(t), v.stack),
        resolve_step(apply_step(v, t).0, r).stack == seq![r],
        resolve_step(apply_step(v, t).0, r).history == v.history.push(t),
        resolve_step(apply_step(v, t).0, r).pending is Idle,
{
    assert(resolve_step(apply_step(v, t).0, r).stack =~= seq![r]);
}

} // verus!
