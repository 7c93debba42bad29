use vstd::prelude::*;
use crate::ast::{LabeledSequentialStatement, ObjectDeclaration, SequentialStatement};
use crate::expression::{expr_at, expr_end, lemma_expr_end_bounds, parse_expression};
use crate::names::{lemma_name_end_bounds, name_at, name_end, parse_selected_name};
use crate::tokens::{
    Failure, Kind, MessageHandler, ParseError, Token, TokenStream, WithPos, ident_of, kind_at,
    reports,
};

verus! {

/// Where the object declaration `constant|variable X : T [:= E];` whose keyword is at `p`
/// ends, or where it fails.
pub open spec fn object_end(toks: Seq<Token>, p: int) -> Result<int, Failure> {
    if kind_at(toks, p + 1) != Some(Kind::Identifier) {
        Err((p + 1, seq![Kind::Identifier]))
    } else if kind_at(toks, p + 2) != Some(Kind::Colon) {
        Err((p + 2, seq![Kind::Colon]))
    } else {
        match name_end(toks, p + 3) {
            Err(f) => Err(f),
            Ok(q) => if kind_at(toks, q) == Some(Kind::ColonEq) {
                match expr_end(toks, q + 1) {
                    Err(f) => Err(f),
                    Ok(x) => if kind_at(toks, x) == Some(Kind::SemiColon) {
                        Ok(x + 1)
                    } else {
                        Err((x, seq![Kind::SemiColon]))
                    },
                }
            } else if kind_at(toks, q) == Some(Kind::SemiColon) {
                Ok(q + 1)
            } else {
                Err((q, seq![Kind::SemiColon]))
            },
        }
    }
}

pub proof fn lemma_object_end_bounds(toks: Seq<Token>, p: int)
    ensures
        object_end(toks, p) matches Ok(e) ==> p < e <= toks.len(),
{
    lemma_name_end_bounds(toks, p + 3);
    if let Ok(q) = name_end(toks, p + 3) {
        lemma_expr_end_bounds(toks, q + 1);
    }
}

/// `o` is the object declaration whose keyword is at `p`.
pub open spec fn object_at(o: ObjectDeclaration, toks: Seq<Token>, p: int) -> bool {
    &&& o.class == toks[p].kind
    &&& ident_of(o.ident, toks[p + 1])
    &&& name_at(o.subtype@, toks, p + 3)
    &&& name_end(toks, p + 3) matches Ok(q) && if kind_at(toks, q) == Some(Kind::ColonEq) {
        o.expr matches Some(e) && expr_at(e, toks, q + 1)
    } else {
        o.expr.is_none()
    }
}

pub open spec fn declarative_kinds() -> Seq<Kind> {
    seq![Kind::Constant, Kind::Variable, Kind::Begin]
}

/// The declarative part from `p` up to and including `begin`, with the declarations
/// found so far starting at `starts`.
pub open spec fn declarative_loop(toks: Seq<Token>, p: int, starts: Seq<int>) -> Result<
    (int, Seq<int>),
    Failure,
>
    decreases toks.len() - p,
    via declarative_loop_decreases
{
    match kind_at(toks, p) {
        Some(Kind::Constant) | Some(Kind::Variable) => match object_end(toks, p) {
            Err(f) => Err(f),
            Ok(q) => declarative_loop(toks, q, starts.push(p)),
        },
        Some(Kind::Begin) => Ok((p + 1, starts)),
        _ => Err((p, declarative_kinds())),
    }
}

#[via_fn]
proof fn declarative_loop_decreases(toks: Seq<Token>, p: int, starts: Seq<int>) {
    lemma_object_end_bounds(toks, p);
}

/// `v` holds the object declarations that start at `starts`, in order.
pub open spec fn objects_at(v: Seq<ObjectDeclaration>, toks: Seq<Token>, starts: Seq<int>) -> bool {
    &&& v.len() == starts.len()
    &&& forall|k: int| 0 <= k < v.len() ==> object_at(#[trigger] v[k], toks, starts[k])
}

/// Parses the declarations of a subprogram body up to and including `begin`.
pub fn parse_declarative_part(stream: &mut TokenStream, messages: &mut MessageHandler) -> (r:
    Result<Vec<ObjectDeclaration>, ParseError>)
    requires
        old(stream).wf(),
    ensures
        final(stream).wf(),
        final(stream).toks() == old(stream).toks(),
        old(messages).messages@.is_prefix_of(final(messages).messages@),
        match r {
            Ok(v) => declarative_loop(old(stream).toks(), old(stream).at(), Seq::empty()) matches Ok(
                (e, starts),
            ) && final(stream).at() == e && objects_at(v@, old(stream).toks(), starts),
            Err(e) => declarative_loop(old(stream).toks(), old(stream).at(), Seq::empty()) matches Err(
                f,
            ) && reports(e, old(stream).toks(), f),
        },
{
    let ghost toks = stream.toks();
    let ghost start = stream.at();
    let arms = [Kind::Constant, Kind::Variable, Kind::Begin];
    assert(arms@ =~= declarative_kinds());
    let mut list: Vec<ObjectDeclaration> = Vec::new();
    let ghost mut starts: Seq<int> = Seq::empty();
    loop
        invariant_except_break
            declarative_loop(toks, stream.at(), starts) == declarative_loop(
                toks,
                start,
                Seq::empty(),
            ),
        invariant
            stream.wf(),
            stream.toks() == toks,
            toks == old(stream).toks(),
            start == old(stream).at(),
            messages.messages@ == old(messages).messages@,
            0 <= start <= stream.at(),
            arms@ == declarative_kinds(),
            objects_at(list@, toks, starts),
        ensures
            declarative_loop(toks, start, Seq::empty()) == Ok::<(int, Seq<int>), Failure>(
                (stream.at(), starts),
            ),
        decreases toks.len() - stream.at(),
    {
        let ghost p = stream.at();
        let arm = match stream.dispatch_next(&arms) {
            Ok(i) => i,
            Err(e) => {
                return Err(e);
            },
        };
        let class = stream.tokens[stream.idx].kind;
        let t = crate::tokens::copy_token(&stream.tokens[stream.idx]);
        stream.move_after(&t);
        if arm == 2 {
            break ;
        }
        let ident = match stream.expect_ident() {
            Ok(id) => id,
            Err(e) => {
                return Err(e);
            },
        };
        match stream.expect_kind(Kind::Colon) {
            Ok(_) => {},
            Err(e) => {
                return Err(e);
            },
        }
        let subtype = match parse_selected_name(stream) {
            Ok(n) => n,
            Err(e) => {
                return Err(e);
            },
        };
        let expr = match stream.pop_if_kind(Kind::ColonEq) {
            Some(_) => match parse_expression(stream) {
                Ok(x) => Some(x),
                Err(e) => {
                    return Err(e);
                },
            },
            None => None,
        };
        match stream.expect_kind(Kind::SemiColon) {
            Ok(_) => {},
            Err(e) => {
                return Err(e);
            },
        }
        let ghost old_list = list@;
        list.push(ObjectDeclaration { class, ident, subtype, expr });
        proof {
            starts = starts.push(p);
            assert forall|k: int| 0 <= k < list@.len() implies object_at(
                #[trigger] list@[k],
                toks,
                starts[k],
            ) by {
                if k < old_list.len() {
                    assert(list@[k] == old_list[k]);
                }
            }
        }
    }
    proof {
        assert(messages.messages@ =~= old(messages).messages@);
    }
    Ok(list)
}

pub open spec fn statement_kinds() -> Seq<Kind> {
    seq![Kind::Return, Kind::Null, Kind::End]
}

/// Where the statement that starts at `p` ends, or where it fails.
pub open spec fn statement_end(toks: Seq<Token>, p: int) -> Result<int, Failure> {
    if kind_at(toks, p) == Some(Kind::Return) {
        if kind_at(toks, p + 1) == Some(Kind::SemiColon) {
            Ok(p + 2)
        } else {
            match expr_end(toks, p + 1) {
                Err(f) => Err(f),
                Ok(x) => if kind_at(toks, x) == Some(Kind::SemiColon) {
                    Ok(x + 1)
                } else {
                    Err((x, seq![Kind::SemiColon]))
                },
            }
        }
    } else if kind_at(toks, p + 1) == Some(Kind::SemiColon) {
        Ok(p + 2)
    } else {
        Err((p + 1, seq![Kind::SemiColon]))
    }
}

/// The statements from `p` up to and including `end`, with the statements found so far
/// starting at `starts`.
pub open spec fn statements_loop(toks: Seq<Token>, p: int, starts: Seq<int>) -> Result<
    (int, Seq<int>),
    Failure,
>
    decreases toks.len() - p,
    via statements_loop_decreases
{
    match kind_at(toks, p) {
        Some(Kind::Return) | Some(Kind::Null) => match statement_end(toks, p) {
            Err(f) => Err(f),
            Ok(q) => statements_loop(toks, q, starts.push(p)),
        },
        Some(Kind::End) => Ok((p + 1, starts)),
        _ => Err((p, statement_kinds())),
    }
}

#[via_fn]
proof fn statements_loop_decreases(toks: Seq<Token>, p: int, starts: Seq<int>) {
    lemma_expr_end_bounds(toks, p + 1);
}

/// `s` is the statement that starts at `p`.
pub open spec fn statement_at(s: LabeledSequentialStatement, toks: Seq<Token>, p: int) -> bool {
    s.pos == toks[p].pos && match s.item {
        SequentialStatement::Return(None) => kind_at(toks, p) == Some(Kind::Return) && kind_at(
            toks,
            p + 1,
        ) == Some(Kind::SemiColon),
        SequentialStatement::Return(Some(e)) => kind_at(toks, p) == Some(Kind::Return) && kind_at(
            toks,
            p + 1,
        ) != Some(Kind::SemiColon) && expr_at(e, toks, p + 1),
        SequentialStatement::Null => kind_at(toks, p) == Some(Kind::Null),
    }
}

/// `v` holds the statements that start at `starts`, in order.
pub open spec fn statements_at(
    v: Seq<LabeledSequentialStatement>,
    toks: Seq<Token>,
    starts: Seq<int>,
) -> bool {
    &&& v.len() == starts.len()
    &&& forall|k: int| 0 <= k < v.len() ==> statement_at(#[trigger] v[k], toks, starts[k])
}

/// Parses statements up to and including `end`, which it returns too.
pub fn parse_labeled_sequential_statements(
    stream: &mut TokenStream,
    messages: &mut MessageHandler,
) -> (r: Result<(Vec<LabeledSequentialStatement>, Token), ParseError>)
    requires
        old(stream).wf(),
    ensures
        final(stream).wf(),
        final(stream).toks() == old(stream).toks(),
        old(messages).messages@.is_prefix_of(final(messages).messages@),
        match r {
            Ok((v, end)) => statements_loop(old(stream).toks(), old(stream).at(), Seq::empty()) matches Ok(
                (e, starts),
            ) && final(stream).at() == e && end == old(stream).toks()[e - 1] && end.kind == Kind::End
                && statements_at(
                v@,
                old(stream).toks(),
                starts,
            ),
            Err(e) => statements_loop(old(stream).toks(), old(stream).at(), Seq::empty()) matches Err(
                f,
            ) && reports(e, old(stream).toks(), f),
        },
{
    let ghost toks = stream.toks();
    let ghost start = stream.at();
    let arms = [Kind::Return, Kind::Null, Kind::End];
    assert(arms@ =~= statement_kinds());
    let mut list: Vec<LabeledSequentialStatement> = Vec::new();
    let ghost mut starts: Seq<int> = Seq::empty();
    let end_token: Token;
    loop
        invariant_except_break
            statements_loop(toks, stream.at(), starts) == statements_loop(
                toks,
                start,
                Seq::empty(),
            ),
        invariant
            stream.wf(),
            stream.toks() == toks,
            toks == old(stream).toks(),
            start == old(stream).at(),
            messages.messages@ == old(messages).messages@,
            0 <= start <= stream.at(),
            arms@ == statement_kinds(),
            statements_at(list@, toks, starts),
        ensures
            statements_loop(toks, start, Seq::empty()) == Ok::<(int, Seq<int>), Failure>(
                (stream.at(), starts),
            ),
            stream.at() > 0 && end_token == toks[stream.at() - 1],
            end_token.kind == Kind::End,
        decreases toks.len() - stream.at(),
    {
        let ghost p = stream.at();
        let arm = match stream.dispatch_next(&arms) {
            Ok(i) => i,
            Err(e) => {
                return Err(e);
            },
        };
        let t = crate::tokens::copy_token(&stream.tokens[stream.idx]);
        let pos = t.pos;
        stream.move_after(&t);
        if arm == 2 {
            end_token = t;
            break ;
        }
        let item = if arm == 0 {
            match stream.peek_kind() {
                Some(Kind::SemiColon) => SequentialStatement::Return(None),
                _ => match parse_expression(stream) {
                    Ok(x) => SequentialStatement::Return(Some(x)),
                    Err(e) => {
                        return Err(e);
                    },
                },
            }
        } else {
            SequentialStatement::Null
        };
        match stream.expect_kind(Kind::SemiColon) {
            Ok(_) => {},
            Err(e) => {
                return Err(e);
            },
        }
        let ghost old_list = list@;
        list.push(WithPos { item, pos });
        proof {
            starts = starts.push(p);
            assert forall|k: int| 0 <= k < list@.len() implies statement_at(
                #[trigger] list@[k],
                toks,
                starts[k],
            ) by {
                if k < old_list.len() {
                    assert(list@[k] == old_list[k]);
                }
            }
        }
    }
    proof {
        assert(messages.messages@ =~= old(messages).messages@);
    }
    Ok((list, end_token))
}

} // verus!
