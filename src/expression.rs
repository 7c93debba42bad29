use vstd::prelude::*;
use crate::ast::Expression;
use crate::tokens::{Failure, Kind, ParseError, Token, TokenStream, kind_at, reports};

verus! {

/// Whether a token of kind `k` can stand as an operand.
pub open spec fn is_operand(k: Option<Kind>) -> bool {
    k == Some(Kind::Identifier) || k == Some(Kind::AbstractLiteral) || k == Some(
        Kind::StringLiteral,
    )
}

/// Whether a token of kind `k` is a binary operator.
pub open spec fn is_operator(k: Option<Kind>) -> bool {
    k == Some(Kind::Plus) || k == Some(Kind::Minus) || k == Some(Kind::Times)
}

pub open spec fn operand_kinds() -> Seq<Kind> {
    seq![Kind::Identifier, Kind::AbstractLiteral, Kind::StringLiteral]
}

/// Where the expression `operand { operator operand }` starting at `p` ends, or where it
/// fails.
pub open spec fn expr_end(toks: Seq<Token>, p: int) -> Result<int, Failure>
    decreases toks.len() - p,
{
    if is_operand(kind_at(toks, p)) {
        if is_operator(kind_at(toks, p + 1)) {
            expr_end(toks, p + 2)
        } else {
            Ok(p + 1)
        }
    } else {
        Err((p, operand_kinds()))
    }
}

/// An expression that parses ends after its start, within the tokens.
pub proof fn lemma_expr_end_bounds(toks: Seq<Token>, p: int)
    ensures
        expr_end(toks, p) matches Ok(q) ==> p < q <= toks.len(),
    decreases toks.len() - p,
{
    if is_operand(kind_at(toks, p)) && is_operator(kind_at(toks, p + 1)) {
        lemma_expr_end_bounds(toks, p + 2);
    }
}

/// `e` is the expression that starts at `p`.
pub open spec fn expr_at(e: Expression, toks: Seq<Token>, p: int) -> bool {
    expr_end(toks, p) == Ok::<int, Failure>(p + e.items@.len()) && e.items@ == toks.subrange(
        p,
        p + e.items@.len(),
    )
}

/// Parses an expression: operands joined by `+`, `-` or `*`.
pub fn parse_expression(stream: &mut TokenStream) -> (r: Result<Expression, ParseError>)
    requires
        old(stream).wf(),
    ensures
        final(stream).wf(),
        final(stream).toks() == old(stream).toks(),
        match r {
            Ok(e) => expr_at(e, old(stream).toks(), old(stream).at()) && final(stream).at()
                == old(stream).at() + e.items@.len(),
            Err(e) => expr_end(old(stream).toks(), old(stream).at()) matches Err(f) && reports(
                e,
                old(stream).toks(),
                f,
            ),
        },
{
    let ghost toks = stream.toks();
    let ghost start = stream.at();
    let operands = [Kind::Identifier, Kind::AbstractLiteral, Kind::StringLiteral];
    let mut items: Vec<Token> = Vec::new();
    assert(operands@ =~= operand_kinds());
    loop
        invariant
            stream.wf(),
            stream.toks() == toks,
            toks == old(stream).toks(),
            start == old(stream).at(),
            0 <= start <= stream.at(),
            stream.at() == start + items@.len(),
            items@ == toks.subrange(start, stream.at()),
            expr_end(toks, stream.at()) == expr_end(toks, start),
            operands@ == operand_kinds(),
        decreases toks.len() - stream.at(),
    {
        match stream.dispatch_next(&operands) {
            Ok(_) => {},
            Err(e) => {
                return Err(e);
            },
        }
        let t = crate::tokens::copy_token(&stream.tokens[stream.idx]);
        stream.move_after(&t);
        items.push(t);
        assert(items@ =~= toks.subrange(start, stream.at()));
        match stream.peek_kind() {
            Some(Kind::Plus) | Some(Kind::Minus) | Some(Kind::Times) => {
                let op = crate::tokens::copy_token(&stream.tokens[stream.idx]);
                stream.move_after(&op);
                items.push(op);
                assert(items@ =~= toks.subrange(start, stream.at()));
            },
            _ => {
                return Ok(Expression { items });
            },
        }
    }
}

} // verus!
