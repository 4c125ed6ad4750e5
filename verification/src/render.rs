//! Reconstruction of an expression from the history log.
//!
//! The history encodes a postfix expression; reconstruction pops it from the
//! tail and rebuilds a fully parenthesized rendering, in infix or in LaTeX
//! syntax.  It is destructive: every token it reads leaves the log.  A binary
//! operator rebuilds its right operand first (the log is read back to front),
//! a unary operator rebuilds one operand, and a whole-stack reduction keeps
//! rebuilding operands until the log is exhausted.

use vstd::prelude::*;

use crate::token::{
    classify_token, spec_classify, str_eq, ReduceOp, TokenClass,
};

verus! {

/// The two surface syntaxes a history can be rebuilt into.
#[derive(Clone, Copy, PartialEq, Eq, Structural, Debug)]
pub enum RenderStyle {
    Infix,
    Latex,
}

/// The rendering of a binary application of the operator token `t`.
pub open spec fn binary_text(
    style: RenderStyle,
    t: Seq<char>,
    left: Seq<char>,
    right: Seq<char>,
) -> Seq<char> {
    match style {
        RenderStyle::Infix => "("@ + left + " "@ + t + " "@ + right + ")"@,
        RenderStyle::Latex => {
            if t == "*"@ {
                "{"@ + left + " \\cdot "@ + right + "}"@
            } else if t == "/"@ {
                "{\\frac{"@ + left + "}{"@ + right + "}}"@
            } else if t == "^"@ {
                "{"@ + left + "^{"@ + right + "}}"@
            } else {
                "{"@ + left + " "@ + t + " "@ + right + "}"@
            }
        },
    }
}

/// The rendering of a unary application of the operator token `t`.
pub open spec fn unary_text(style: RenderStyle, t: Seq<char>, operand: Seq<char>) -> Seq<char> {
    match style {
        RenderStyle::Infix => {
            if t == "!"@ {
                "("@ + operand + "!)"@
            } else if t == "abs"@ {
                "abs("@ + operand + ")"@
            } else if t == "sqrt"@ {
                "sqrt("@ + operand + ")"@
            } else {
                "log10("@ + operand + ")"@
            }
        },
        RenderStyle::Latex => {
            if t == "!"@ {
                "{"@ + operand + "}!"@
            } else if t == "abs"@ {
                "\\left| {"@ + operand + "} \\right|"@
            } else if t == "sqrt"@ {
                "\\sqrt{"@ + operand + "}"@
            } else {
                "\\log_{10} {"@ + operand + "}"@
            }
        },
    }
}

/// The separator a reduction joins its collected terms with.
pub open spec fn reduce_sep(style: RenderStyle, op: ReduceOp) -> Seq<char> {
    match style {
        RenderStyle::Infix => match op {
            ReduceOp::Sum => " + "@,
            ReduceOp::Product => " * "@,
        },
        RenderStyle::Latex => match op {
            ReduceOp::Sum => " + "@,
            ReduceOp::Product => " \\cdot "@,
        },
    }
}

/// The one outer grouping around a reduction's joined terms.
pub open spec fn reduce_text(style: RenderStyle, joined: Seq<char>) -> Seq<char> {
    match style {
        RenderStyle::Infix => "("@ + joined + ")"@,
        RenderStyle::Latex => "{"@ + joined + "}"@,
    }
}

/// The terms joined with the separator between each two.
pub open spec fn join_terms(terms: Seq<Seq<char>>, sep: Seq<char>) -> Seq<char>
    decreases terms.len(),
{
    if terms.len() == 0 {
        Seq::<char>::empty()
    } else if terms.len() == 1 {
        terms[0]
    } else {
        join_terms(terms.drop_last(), sep) + sep + terms.last()
    }
}

/// One expression popped off the tail of the history: the history that
/// remains, and the rendering.  An empty history renders to the empty string.
///
/// The guards comparing the remaining history against the one given only
/// justify the recursion: [`lemma_render_consumes`] shows that rendering
/// never leaves the history longer, so the guarded branches are never taken.
pub open spec fn render_expr(style: RenderStyle, hist: Seq<Seq<char>>) -> (Seq<Seq<char>>, Seq<
    char,
>)
    decreases hist.len(), 0int,
{
    if hist.len() == 0 {
        (hist, Seq::<char>::empty())
    } else {
        let t = hist.last();
        let rest = hist.drop_last();
        match spec_classify(t) {
            TokenClass::Binary(_) => {
                let (rest1, right) = render_expr(style, rest);
                if rest1.len() < hist.len() {
                    let (rest2, left) = render_expr(style, rest1);
                    (rest2, binary_text(style, t, left, right))
                } else {
                    (rest1, Seq::<char>::empty())
                }
            },
            TokenClass::Unary(_) => {
                let (rest1, operand) = render_expr(style, rest);
                (rest1, unary_text(style, t, operand))
            },
            TokenClass::Reduce(op) => (
                Seq::<Seq<char>>::empty(),
                reduce_text(style, join_terms(render_terms(style, rest), reduce_sep(style, op))),
            ),
            TokenClass::Literal => (rest, t),
        }
    }
}

/// Expressions popped off the tail of the history, one after the other, until
/// it is exhausted, in the order popped.
pub open spec fn render_terms(style: RenderStyle, hist: Seq<Seq<char>>) -> Seq<Seq<char>>
    decreases hist.len(), 1int,
{
    if hist.len() == 0 {
        Seq::<Seq<char>>::empty()
    } else {
        let (rest, s) = render_expr(style, hist);
        if rest.len() < hist.len() {
            seq![s] + render_terms(style, rest)
        } else {
            seq![s]
        }
    }
}

/// Rendering one expression never leaves the history longer, and shortens a
/// non-empty history.
pub proof fn lemma_render_consumes(style: RenderStyle, hist: Seq<Seq<char>>)
    ensures
        render_expr(style, hist).0.len() <= hist.len(),
        hist.len() > 0 ==> render_expr(style, hist).0.len() < hist.len(),
    decreases hist.len(),
{
    if hist.len() > 0 {
        let t = hist.last();
        let rest = hist.drop_last();
        match spec_classify(t) {
            TokenClass::Binary(_) => {
                lemma_render_consumes(style, rest);
                lemma_render_consumes(style, render_expr(style, rest).0);
            },
            TokenClass::Unary(_) => {
                lemma_render_consumes(style, rest);
            },
            TokenClass::Reduce(_) => {},
            TokenClass::Literal => {},
        }
    }
}

fn binary_text_exec(style: RenderStyle, token: &String, left: &String, right: &String) -> (out:
    String)
    ensures
        out@ == binary_text(style, token@, left@, right@),
{
    let mut s = String::new();
    match style {
        RenderStyle::Infix => {
            s.append("(");
            s.append(left.as_str());
            s.append(" ");
            s.append(token.as_str());
            s.append(" ");
            s.append(right.as_str());
            s.append(")");
        },
        RenderStyle::Latex => {
            if str_eq(token.as_str(), "*") {
                s.append("{");
                s.append(left.as_str());
                s.append(" \\cdot ");
                s.append(right.as_str());
                s.append("}");
            } else if str_eq(token.as_str(), "/") {
                s.append("{\\frac{");
                s.append(left.as_str());
                s.append("}{");
                s.append(right.as_str());
                s.append("}}");
            } else if str_eq(token.as_str(), "^") {
                s.append("{");
                s.append(left.as_str());
                s.append("^{");
                s.append(right.as_str());
                s.append("}}");
            } else {
                s.append("{");
                s.append(left.as_str());
                s.append(" ");
                s.append(token.as_str());
                s.append(" ");
                s.append(right.as_str());
                s.append("}");
            }
        },
    }
    proof {
        assert(s@ =~= binary_text(style, token@, left@, right@));
    }
    s
}

fn unary_text_exec(style: RenderStyle, token: &String, operand: &String) -> (out: String)
    ensures
        out@ == unary_text(style, token@, operand@),
{
    let mut s = String::new();
    match style {
        RenderStyle::Infix => {
            if str_eq(token.as_str(), "!") {
                s.append("(");
                s.append(operand.as_str());
                s.append("!)");
            } else if str_eq(token.as_str(), "abs") {
                s.append("abs(");
                s.append(operand.as_str());
                s.append(")");
            } else if str_eq(token.as_str(), "sqrt") {
                s.append("sqrt(");
                s.append(operand.as_str());
                s.append(")");
            } else {
                s.append("log10(");
                s.append(operand.as_str());
                s.append(")");
            }
        },
        RenderStyle::Latex => {
            if str_eq(token.as_str(), "!") {
                s.append("{");
                s.append(operand.as_str());
                s.append("}!");
            } else if str_eq(token.as_str(), "abs") {
                s.append("\\left| {");
                s.append(operand.as_str());
                s.append("} \\right|");
            } else if str_eq(token.as_str(), "sqrt") {
                s.append("\\sqrt{");
                s.append(operand.as_str());
                s.append("}");
            } else {
                s.append("\\log_{10} {");
                s.append(operand.as_str());
                s.append("}");
            }
        },
    }
    proof {
        assert(s@ =~= unary_text(style, token@, operand@));
    }
    s
}

fn join_with(terms: &Vec<String>, sep: &str) -> (out: String)
    ensures
        out@ == join_terms(terms.deep_view(), sep@),
{
    let mut out = String::new();
    let mut i: usize = 0;
    while i < terms.len()
        invariant
            i <= terms@.len(),
            out@ == join_terms(terms.deep_view().take(i as int), sep@),
        decreases terms@.len() - i,
    {
        if i > 0 {
            out.append(sep);
        }
        out.append(terms[i].as_str());
        i = i + 1;
        proof {
            let dv = terms.deep_view();
            assert(dv.take(i as int).drop_last() =~= dv.take(i - 1));
            assert(dv.take(i as int).last() == dv[i - 1]);
        }
    }
    proof {
        assert(terms.deep_view().take(terms@.len() as int) =~= terms.deep_view());
    }
    out
}

/// Pops one expression off the tail of the history and renders it, exactly as
/// [`render_expr`] says: returns what remains of the history and the
/// rendering.
pub fn render_history(style: RenderStyle, hist: Vec<String>) -> (res: (Vec<String>, String))
    ensures
        res.0.deep_view() == render_expr(style, hist.deep_view()).0,
        res.1@ == render_expr(style, hist.deep_view()).1,
    decreases hist@.len(),
{
    let ghost h0 = hist.deep_view();
    let mut h = hist;
    if h.len() == 0 {
        let out = String::new();
        return (h, out);
    }
    let tok = h.pop().unwrap();
    proof {
        assert(h.deep_view() =~= h0.drop_last());
        assert(tok@ == h0.last());
    }
    match classify_token(tok.as_str()) {
        TokenClass::Binary(_) => {
            let (h1, right) = render_history(style, h);
            proof {
                lemma_render_consumes(style, h0.drop_last());
            }
            let (h2, left) = render_history(style, h1);
            let out = binary_text_exec(style, &tok, &left, &right);
            (h2, out)
        },
        TokenClass::Unary(_) => {
            let (h1, operand) = render_history(style, h);
            let out = unary_text_exec(style, &tok, &operand);
            (h1, out)
        },
        TokenClass::Reduce(op) => {
            let ghost rest0 = h.deep_view();
            let mut terms: Vec<String> = Vec::new();
            while h.len() > 0
                invariant
                    h.deep_view().len() <= rest0.len(),
                    h@.len() == h.deep_view().len(),
                    rest0.len() < h0.len(),
                    h0.len() == hist@.len(),
                    render_terms(style, rest0) =~= terms.deep_view() + render_terms(
                        style,
                        h.deep_view(),
                    ),
                decreases h@.len(),
            {
                let ghost pre_h = h.deep_view();
                let ghost pre_terms = terms.deep_view();
                proof {
                    lemma_render_consumes(style, pre_h);
                }
                let (h2, s) = render_history(style, h);
                h = h2;
                terms.push(s);
                proof {
                    assert(terms.deep_view() =~= pre_terms.push(s@));
                    assert(render_terms(style, pre_h) =~= seq![s@] + render_terms(
                        style,
                        h.deep_view(),
                    ));
                    assert(terms.deep_view() + render_terms(style, h.deep_view()) =~= pre_terms
                        + render_terms(style, pre_h));
                }
            }
            proof {
                assert(h.deep_view() =~= Seq::<Seq<char>>::empty());
                assert(render_terms(style, rest0) =~= terms.deep_view());
            }
            let sep: &str = match style {
                RenderStyle::Infix => match op {
                    ReduceOp::Sum => " + ",
                    ReduceOp::Product => " * ",
                },
                RenderStyle::Latex => match op {
                    ReduceOp::Sum => " + ",
                    ReduceOp::Product => " \\cdot ",
                },
            };
            let joined = join_with(&terms, sep);
            let mut out = String::new();
            match style {
                RenderStyle::Infix => {
                    out.append("(");
                    out.append(joined.as_str());
                    out.append(")");
                },
                RenderStyle::Latex => {
                    out.append("{");
                    out.append(joined.as_str());
                    out.append("}");
                },
            }
            proof {
                assert(out@ =~= render_expr(style, h0).1);
            }
            (h, out)
        },
        TokenClass::Literal => {
            (h, tok)
        },
    }
}

/// Rendering a non-empty history whose tokens are non-empty yields a
/// non-empty string.
pub proof fn lemma_rendered_nonempty(style: RenderStyle, hist: Seq<Seq<char>>)
    requires
        hist.len() > 0,
        forall|i: int| 0 <= i < hist.len() ==> #[trigger] hist[i].len() > 0,
    ensures
        render_expr(style, hist).1.len() > 0,
{
    reveal_strlit("(");
    reveal_strlit("{");
    reveal_strlit("{\\frac{");
    reveal_strlit("abs(");
    reveal_strlit("sqrt(");
    reveal_strlit("log10(");
    reveal_strlit("\\left| {");
    reveal_strlit("\\sqrt{");
    reveal_strlit("\\log_{10} {");
    let t = hist.last();
    assert(hist[hist.len() - 1].len() > 0);
    let rest = hist.drop_last();
    match spec_classify(t) {
        TokenClass::Binary(_) => {
            lemma_render_consumes(style, rest);
        },
        TokenClass::Unary(_) => {},
        TokenClass::Reduce(_) => {},
        TokenClass::Literal => {},
    }
}

/// Law: reconstruction is destructive.  On a history that one reconstruction
/// fully consumes, the first call yields a non-empty rendering, and a second
/// call without duplication in between yields the empty string.
pub proof fn lemma_reconstruction_destructive(style: RenderStyle, hist: Seq<Seq<char>>)
    requires
        hist.len() > 0,
        forall|i: int| 0 <= i < hist.len() ==> #[trigger] hist[i].len() > 0,
        render_expr(style, hist).0.len() == 0,
    ensures
        render_expr(style, hist).1.len() > 0,
        render_expr(style, render_expr(style, hist).0).1 == Seq::<char>::empty(),
{
    lemma_rendered_nonempty(style, hist);
}

} // verus!
