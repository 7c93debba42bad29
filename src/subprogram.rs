use vstd::prelude::*;
use crate::ast::{
    Declaration, Designator, FunctionSpecification, InterfaceDeclaration, ProcedureSpecification,
    SelectedName, Signature, SubprogramBody, SubprogramDeclaration,
};
use crate::body::{
    declarative_loop, objects_at, parse_declarative_part, parse_labeled_sequential_statements,
    statements_at, statements_loop,
};
use crate::interface::{params_at, params_parse, parse_parameter_interface_list};
use crate::names::{lemma_name_end_bounds, name_at, name_end, parse_selected_name};
use crate::tokens::{
    Failure, Kind, MessageHandler, ParseError, Token, TokenStream, WithPos, dispatch, kind_at,
    reports,
};

verus! {

/// The kinds that may follow a type mark inside a signature.
pub open spec fn sig_separators() -> Seq<Kind> {
    seq![Kind::Comma, Kind::RightSquare, Kind::Return]
}

/// The kinds that may start an item of a signature.
pub open spec fn sig_items() -> Seq<Kind> {
    seq![Kind::Identifier, Kind::Return, Kind::RightSquare]
}

/// The signature loop from index `p`, with the type marks found so far starting at
/// `marks` and the return mark, if any, at `ret`: the end of the signature with the
/// starts of all its type marks and of its return mark, or where it fails.
pub open spec fn sig_loop(toks: Seq<Token>, p: int, marks: Seq<int>, ret: Option<int>) -> Result<
    (int, Seq<int>, Option<int>),
    Failure,
>
    decreases toks.len() - p,
    via sig_loop_decreases
{
    match kind_at(toks, p) {
        Some(Kind::Identifier) => match name_end(toks, p) {
            Err(f) => Err(f),
            Ok(q) => match kind_at(toks, q) {
                Some(Kind::Comma) => sig_loop(toks, q + 1, marks.push(p), ret),
                Some(Kind::RightSquare) => Ok((q + 1, marks.push(p), ret)),
                Some(Kind::Return) => if ret.is_some() {
                    Err((q, Seq::empty()))
                } else {
                    match name_end(toks, q + 1) {
                        Err(f) => Err(f),
                        Ok(r) => sig_loop(toks, r, marks.push(p), Some(q + 1)),
                    }
                },
                _ => Err((q, sig_separators())),
            },
        },
        Some(Kind::Return) => if ret.is_some() {
            Err((p, Seq::empty()))
        } else {
            match name_end(toks, p + 1) {
                Err(f) => Err(f),
                Ok(r) => sig_loop(toks, r, marks, Some(p + 1)),
            }
        },
        Some(Kind::RightSquare) => Ok((p + 1, marks, ret)),
        _ => Err((p, sig_items())),
    }
}

#[via_fn]
proof fn sig_loop_decreases(toks: Seq<Token>, p: int, marks: Seq<int>, ret: Option<int>) {
    lemma_name_end_bounds(toks, p);
    lemma_name_end_bounds(toks, p + 1);
    if let Ok(q) = name_end(toks, p) {
        lemma_name_end_bounds(toks, q + 1);
    }
}

/// A signature that parses ends after where its loop started.
pub proof fn lemma_sig_loop_bounds(toks: Seq<Token>, p: int, marks: Seq<int>, ret: Option<int>)
    ensures
        sig_loop(toks, p, marks, ret) matches Ok((e, _, _)) ==> p < e <= toks.len(),
    decreases toks.len() - p,
{
    lemma_name_end_bounds(toks, p);
    lemma_name_end_bounds(toks, p + 1);
    if kind_at(toks, p) == Some(Kind::Identifier) {
        if let Ok(q) = name_end(toks, p) {
            lemma_name_end_bounds(toks, q + 1);
            if kind_at(toks, q) == Some(Kind::Comma) {
                lemma_sig_loop_bounds(toks, q + 1, marks.push(p), ret);
            } else if kind_at(toks, q) == Some(Kind::Return) && ret.is_none() {
                if let Ok(r) = name_end(toks, q + 1) {
                    lemma_sig_loop_bounds(toks, r, marks.push(p), Some(q + 1));
                }
            }
        }
    } else if kind_at(toks, p) == Some(Kind::Return) && ret.is_none() {
        if let Ok(r) = name_end(toks, p + 1) {
            lemma_sig_loop_bounds(toks, r, marks, Some(p + 1));
        }
    }
}

/// The signature `[ ... ]` that starts at `p`.
pub open spec fn sig_parse(toks: Seq<Token>, p: int) -> Result<
    (int, Seq<int>, Option<int>),
    Failure,
> {
    if kind_at(toks, p) == Some(Kind::LeftSquare) {
        sig_loop(toks, p + 1, Seq::empty(), None)
    } else {
        Err((p, seq![Kind::LeftSquare]))
    }
}

/// `ms` holds the selected names that start at `starts`, in order.
pub open spec fn names_at(ms: Seq<SelectedName>, toks: Seq<Token>, starts: Seq<int>) -> bool {
    &&& ms.len() == starts.len()
    &&& forall|k: int| 0 <= k < ms.len() ==> name_at(#[trigger] ms[k]@, toks, starts[k])
}

/// `s` is the signature whose type marks start at `marks` and whose return mark, if
/// any, starts at `ret`.
pub open spec fn sig_matches(s: Signature, toks: Seq<Token>, marks: Seq<int>, ret: Option<int>) -> bool {
    match s {
        Signature::Procedure(ms) => ret.is_none() && names_at(ms@, toks, marks),
        Signature::Function(ms, r) => ret matches Some(rp) && names_at(ms@, toks, marks)
            && name_at(r@, toks, rp),
    }
}

/// `s` is the signature that starts at `p`, wherever it ends.
pub open spec fn sig_value_at(s: Signature, toks: Seq<Token>, p: int) -> bool {
    sig_parse(toks, p) matches Ok((_, marks, ret)) && sig_matches(s, toks, marks, ret)
}

/// `s` is the signature that starts at `p` and ends at `end`.
pub open spec fn sig_at(s: Signature, toks: Seq<Token>, p: int, end: int) -> bool {
    sig_parse(toks, p) matches Ok((e, marks, ret)) && e == end && sig_matches(
        s,
        toks,
        marks,
        ret,
    )
}

/// The tokens from `p` up to `t` are `[ T1 , T2 , ... , Tn` with the type marks
/// starting at `starts`: `t` is just past the last of them, or `p + 1` when there are
/// none.
pub open spec fn sig_prefix(toks: Seq<Token>, p: int, starts: Seq<int>, t: int) -> bool {
    let n = starts.len();
    &&& kind_at(toks, p) == Some(Kind::LeftSquare)
    &&& n == 0 ==> t == p + 1
    &&& n > 0 ==> starts[0] == p + 1 && name_end(toks, starts[n - 1]) == Ok::<int, Failure>(t)
    &&& forall|k: int|
        0 <= k < n - 1 ==> name_end(toks, #[trigger] starts[k]) == Ok::<int, Failure>(
            starts[k + 1] - 1,
        ) && kind_at(toks, starts[k + 1] - 1) == Some(Kind::Comma)
}

/// What the signature loop does at `t`, just past the type marks `starts`, when it finds
/// `]` or `return` there.
pub open spec fn after_marks(toks: Seq<Token>, t: int, starts: Seq<int>) -> Result<
    (int, Seq<int>, Option<int>),
    Failure,
> {
    if kind_at(toks, t) == Some(Kind::RightSquare) {
        Ok((t + 1, starts, None))
    } else {
        match name_end(toks, t + 1) {
            Err(f) => Err(f),
            Ok(r) => sig_loop(toks, r, starts, Some(t + 1)),
        }
    }
}

proof fn lemma_sig_prefix_from(toks: Seq<Token>, p: int, starts: Seq<int>, t: int, i: int)
    requires
        sig_prefix(toks, p, starts, t),
        kind_at(toks, t) == Some(Kind::RightSquare) || kind_at(toks, t) == Some(Kind::Return),
        0 <= i < starts.len(),
    ensures
        sig_loop(toks, starts[i], starts.take(i), None) == after_marks(toks, t, starts),
    decreases starts.len() - i,
{
    let n = starts.len();
    assert(starts.take(i).push(starts[i]) =~= starts.take(i + 1));
    if i < n - 1 {
        assert(name_end(toks, starts[i]) == Ok::<int, Failure>(starts[i + 1] - 1));
        lemma_sig_prefix_from(toks, p, starts, t, i + 1);
    } else {
        assert(starts.take(n as int) =~= starts);
    }
}

proof fn lemma_sig_prefix(toks: Seq<Token>, p: int, starts: Seq<int>, t: int)
    requires
        sig_prefix(toks, p, starts, t),
        kind_at(toks, t) == Some(Kind::RightSquare) || kind_at(toks, t) == Some(Kind::Return),
    ensures
        sig_parse(toks, p) == after_marks(toks, t, starts),
{
    assert(sig_parse(toks, p) == sig_loop(toks, p + 1, Seq::empty(), None));
    if starts.len() > 0 {
        lemma_sig_prefix_from(toks, p, starts, t, 0);
        assert(starts.take(0) =~= Seq::<int>::empty());
    } else {
        assert(starts =~= Seq::<int>::empty());
    }
}

/// A well-formed signature `[T1, ..., Tn return R]` parses, with the type marks at
/// `starts` and the return mark at `r`: `parse_signature` then returns
/// `Signature::Function` of those marks.
pub proof fn lemma_function_signature(toks: Seq<Token>, p: int, starts: Seq<int>, t: int, r: int)
    requires
        sig_prefix(toks, p, starts, t),
        kind_at(toks, t) == Some(Kind::Return),
        r == t + 1,
        name_end(toks, r) matches Ok(q) && kind_at(toks, q) == Some(Kind::RightSquare),
    ensures
        sig_parse(toks, p) matches Ok((e, marks, ret)) && marks == starts && ret == Some(r)
            && kind_at(toks, e - 1) == Some(Kind::RightSquare),
{
    lemma_sig_prefix(toks, p, starts, t);
}

/// A well-formed signature `[T1, ..., Tn]` without a return clause parses, with the type
/// marks at `starts`: `parse_signature` then returns `Signature::Procedure` of them.
pub proof fn lemma_procedure_signature(toks: Seq<Token>, p: int, starts: Seq<int>, t: int)
    requires
        sig_prefix(toks, p, starts, t),
        kind_at(toks, t) == Some(Kind::RightSquare),
    ensures
        sig_parse(toks, p) == Ok::<(int, Seq<int>, Option<int>), Failure>((t + 1, starts, None)),
{
    lemma_sig_prefix(toks, p, starts, t);
}

/// A signature with a second `return` clause, `[T1, ..., Tn return R return ...`, with or
/// without type marks, fails at the second `return` token, as a duplicate return.
pub proof fn lemma_duplicate_return(toks: Seq<Token>, p: int, starts: Seq<int>, t: int, d: int)
    requires
        sig_prefix(toks, p, starts, t),
        kind_at(toks, t) == Some(Kind::Return),
        name_end(toks, t + 1) == Ok::<int, Failure>(d),
        kind_at(toks, d) == Some(Kind::Return),
    ensures
        sig_parse(toks, p) == Err::<(int, Seq<int>, Option<int>), Failure>((d, Seq::empty())),
{
    lemma_sig_prefix(toks, p, starts, t);
}

/// Parses a signature: `[ [type_mark {, type_mark}] [return type_mark] ]`.
pub fn parse_signature(stream: &mut TokenStream) -> (r: Result<Signature, ParseError>)
    requires
        old(stream).wf(),
    ensures
        final(stream).wf(),
        final(stream).toks() == old(stream).toks(),
        match r {
            Ok(s) => sig_at(s, old(stream).toks(), old(stream).at(), final(stream).at()),
            Err(e) => sig_parse(old(stream).toks(), old(stream).at()) matches Err(f) && reports(
                e,
                old(stream).toks(),
                f,
            ),
        },
{
    let ghost toks = stream.toks();
    let ghost start = stream.at();
    match stream.expect_kind(Kind::LeftSquare) {
        Ok(_) => {},
        Err(e) => {
            return Err(e);
        },
    }
    let items = [Kind::Identifier, Kind::Return, Kind::RightSquare];
    let separators = [Kind::Comma, Kind::RightSquare, Kind::Return];
    assert(items@ =~= sig_items());
    assert(separators@ =~= sig_separators());
    let mut type_marks: Vec<SelectedName> = Vec::new();
    let mut return_mark: Option<SelectedName> = None;
    let ghost mut marks: Seq<int> = Seq::empty();
    let ghost mut ret: Option<int> = None;
    loop
        invariant_except_break
            sig_loop(toks, stream.at(), marks, ret) == sig_parse(toks, start),
        invariant
            stream.wf(),
            stream.toks() == toks,
            toks == old(stream).toks(),
            start == old(stream).at(),
            0 <= start < stream.at(),
            items@ == sig_items(),
            separators@ == sig_separators(),
            names_at(type_marks@, toks, marks),
            return_mark.is_some() == ret.is_some(),
            return_mark matches Some(rm) ==> ret matches Some(rp) && name_at(rm@, toks, rp),
        ensures
            sig_parse(toks, start) == Ok::<(int, Seq<int>, Option<int>), Failure>(
                (stream.at(), marks, ret),
            ),
        decreases toks.len() - stream.at(),
    {
        let ghost p = stream.at();
        let arm = match stream.dispatch_next(&items) {
            Ok(i) => i,
            Err(e) => {
                return Err(e);
            },
        };
        if arm == 0 {
            let name = match parse_selected_name(stream) {
                Ok(n) => n,
                Err(e) => {
                    return Err(e);
                },
            };
            type_marks.push(name);
            proof {
                marks = marks.push(p);
            }
            let ghost q = stream.at();
            let sep = match stream.expect(&separators) {
                Ok(t) => t,
                Err(e) => {
                    return Err(e);
                },
            };
            let sep_arm = match dispatch(&sep, &separators) {
                Ok(i) => i,
                Err(e) => {
                    return Err(e);
                },
            };
            if sep_arm == 1 {
                break ;
            } else if sep_arm == 2 {
                if return_mark.is_some() {
                    return Err(ParseError::DuplicateReturn { pos: sep.pos });
                }
                let rm = match parse_selected_name(stream) {
                    Ok(n) => n,
                    Err(e) => {
                        return Err(e);
                    },
                };
                return_mark = Some(rm);
                proof {
                    ret = Some(q + 1);
                }
            }
        } else if arm == 1 {
            let pos = stream.tokens[stream.idx].pos;
            if return_mark.is_some() {
                return Err(ParseError::DuplicateReturn { pos });
            }
            let t = crate::tokens::copy_token(&stream.tokens[stream.idx]);
            stream.move_after(&t);
            let rm = match parse_selected_name(stream) {
                Ok(n) => n,
                Err(e) => {
                    return Err(e);
                },
            };
            return_mark = Some(rm);
            proof {
                ret = Some(p + 1);
            }
        } else {
            let t = crate::tokens::copy_token(&stream.tokens[stream.idx]);
            stream.move_after(&t);
            break ;
        }
    }
    match return_mark {
        Some(rm) => Ok(Signature::Function(type_marks, rm)),
        None => Ok(Signature::Procedure(type_marks)),
    }
}

/// `d` is the designator that the token `t` spells.
pub open spec fn designator_of(d: WithPos<Designator>, t: Token) -> bool {
    d.pos == t.pos && match t.kind {
        Kind::Identifier => d.item == Designator::Identifier(t.text),
        Kind::StringLiteral => d.item == Designator::OperatorSymbol(t.text),
        _ => false,
    }
}

pub open spec fn designator_kinds() -> Seq<Kind> {
    seq![Kind::Identifier, Kind::StringLiteral]
}

/// Parses a designator: an identifier or a quoted operator symbol.
pub fn parse_designator(stream: &mut TokenStream) -> (r: Result<WithPos<Designator>, ParseError>)
    requires
        old(stream).wf(),
    ensures
        final(stream).wf(),
        final(stream).toks() == old(stream).toks(),
        match r {
            Ok(d) => old(stream).at() < old(stream).toks().len() && designator_of(
                d,
                old(stream).toks()[old(stream).at()],
            ) && final(stream).at() == old(stream).at() + 1,
            Err(e) => !(kind_at(old(stream).toks(), old(stream).at()) == Some(Kind::Identifier)
                || kind_at(old(stream).toks(), old(stream).at()) == Some(Kind::StringLiteral))
                && reports(e, old(stream).toks(), (old(stream).at(), designator_kinds())),
        },
{
    let arms = [Kind::Identifier, Kind::StringLiteral];
    assert(arms@ =~= designator_kinds());
    let token = match stream.expect(&arms) {
        Ok(t) => t,
        Err(e) => {
            return Err(e);
        },
    };
    match dispatch(&token, &arms) {
        Ok(0) => Ok(WithPos { item: Designator::Identifier(token.text), pos: token.pos }),
        Ok(_) => Ok(WithPos { item: Designator::OperatorSymbol(token.text), pos: token.pos }),
        Err(e) => Err(e),
    }
}

pub open spec fn subprogram_kinds() -> Seq<Kind> {
    seq![Kind::Procedure, Kind::Function, Kind::Impure]
}

/// The keywords of the subprogram specification at `p`: the index of the designator,
/// whether it is a function, and whether it is pure.
pub open spec fn decl_head(toks: Seq<Token>, p: int) -> Result<(int, bool, bool), Failure> {
    match kind_at(toks, p) {
        Some(Kind::Procedure) => Ok((p + 1, false, false)),
        Some(Kind::Function) => Ok((p + 1, true, true)),
        Some(Kind::Impure) => if kind_at(toks, p + 1) == Some(Kind::Function) {
            Ok((p + 2, true, false))
        } else {
            Err((p + 1, seq![Kind::Function]))
        },
        _ => Err((p, subprogram_kinds())),
    }
}

/// The subprogram specification, without semicolon, that starts at `p`: where it ends,
/// with the starts of its parameters and of its return type mark, or where it fails.
pub open spec fn decl_parse(toks: Seq<Token>, p: int) -> Result<
    (int, Seq<int>, Option<int>),
    Failure,
> {
    match decl_head(toks, p) {
        Err(f) => Err(f),
        Ok((d, is_function, _)) => if !(kind_at(toks, d) == Some(Kind::Identifier) || kind_at(
            toks,
            d,
        ) == Some(Kind::StringLiteral)) {
            Err((d, designator_kinds()))
        } else {
            let params = if kind_at(toks, d + 1) == Some(Kind::LeftPar) {
                params_parse(toks, d + 1)
            } else {
                Ok((d + 1, Seq::empty()))
            };
            match params {
                Err(f) => Err(f),
                Ok((q, starts)) => if !is_function {
                    Ok((q, starts, None))
                } else if kind_at(toks, q) != Some(Kind::Return) {
                    Err((q, seq![Kind::Return]))
                } else {
                    match name_end(toks, q + 1) {
                        Err(f) => Err(f),
                        Ok(e) => Ok((e, starts, Some(q + 1))),
                    }
                },
            }
        },
    }
}

/// `sd` is the specification at `p` with its parameters at `starts` and its return type
/// mark, if any, at `ret`.
pub open spec fn decl_matches(
    sd: SubprogramDeclaration,
    toks: Seq<Token>,
    p: int,
    starts: Seq<int>,
    ret: Option<int>,
) -> bool {
    decl_head(toks, p) matches Ok((d, is_function, pure)) && match sd {
        SubprogramDeclaration::Procedure(ps) => !is_function && designator_of(
            ps.designator,
            toks[d],
        ) && params_at(ps.parameter_list@, toks, starts),
        SubprogramDeclaration::Function(fs) => is_function && fs.pure == pure && designator_of(
            fs.designator,
            toks[d],
        ) && params_at(fs.parameter_list@, toks, starts) && (ret matches Some(rp) && name_at(
            fs.return_type@,
            toks,
            rp,
        )),
    }
}

/// `sd` is the specification that starts at `p` and ends at `end`.
pub open spec fn decl_at(sd: SubprogramDeclaration, toks: Seq<Token>, p: int, end: int) -> bool {
    decl_parse(toks, p) matches Ok((e, starts, ret)) && e == end && decl_matches(
        sd,
        toks,
        p,
        starts,
        ret,
    )
}

/// Parses a procedure or function specification without its closing semicolon. A function
/// is pure unless marked `impure`.
pub fn parse_subprogram_declaration_no_semi(
    stream: &mut TokenStream,
    messages: &mut MessageHandler,
) -> (r: Result<SubprogramDeclaration, ParseError>)
    requires
        old(stream).wf(),
    ensures
        final(stream).wf(),
        final(stream).toks() == old(stream).toks(),
        old(messages).messages@.is_prefix_of(final(messages).messages@),
        match r {
            Ok(sd) => decl_at(sd, old(stream).toks(), old(stream).at(), final(stream).at()),
            Err(e) => decl_parse(old(stream).toks(), old(stream).at()) matches Err(f) && reports(
                e,
                old(stream).toks(),
                f,
            ),
        },
        r matches Ok(SubprogramDeclaration::Function(fs)) ==> fs.pure == (kind_at(
            old(stream).toks(),
            old(stream).at(),
        ) != Some(Kind::Impure)),
        r matches Ok(SubprogramDeclaration::Procedure(_)) ==> kind_at(
            old(stream).toks(),
            old(stream).at(),
        ) == Some(Kind::Procedure),
{
    let arms = [Kind::Procedure, Kind::Function, Kind::Impure];
    assert(arms@ =~= subprogram_kinds());
    let token = match stream.expect(&arms) {
        Ok(t) => t,
        Err(e) => {
            return Err(e);
        },
    };
    let (is_function, is_pure) = match dispatch(&token, &arms) {
        Ok(0) => (false, false),
        Ok(1) => (true, true),
        Ok(_) => {
            match stream.expect_kind(Kind::Function) {
                Ok(_) => {},
                Err(e) => {
                    return Err(e);
                },
            }
            (true, false)
        },
        Err(e) => {
            return Err(e);
        },
    };
    let designator = match parse_designator(stream) {
        Ok(d) => d,
        Err(e) => {
            return Err(e);
        },
    };
    let parameter_list = match stream.peek_kind() {
        Some(Kind::LeftPar) => match parse_parameter_interface_list(stream, messages) {
            Ok(v) => v,
            Err(e) => {
                return Err(e);
            },
        },
        _ => {
            let v: Vec<InterfaceDeclaration> = Vec::new();
            assert(params_at(v@, stream.toks(), Seq::empty()));
            v
        },
    };
    if is_function {
        match stream.expect_kind(Kind::Return) {
            Ok(_) => {},
            Err(e) => {
                return Err(e);
            },
        }
        let return_type = match parse_selected_name(stream) {
            Ok(n) => n,
            Err(e) => {
                return Err(e);
            },
        };
        Ok(
            SubprogramDeclaration::Function(
                FunctionSpecification { pure: is_pure, designator, parameter_list, return_type },
            ),
        )
    } else {
        Ok(
            SubprogramDeclaration::Procedure(
                ProcedureSpecification { designator, parameter_list },
            ),
        )
    }
}

/// Parses a procedure or function specification ended by a semicolon.
pub fn parse_subprogram_declaration(
    stream: &mut TokenStream,
    messages: &mut MessageHandler,
) -> (r: Result<SubprogramDeclaration, ParseError>)
    requires
        old(stream).wf(),
    ensures
        final(stream).wf(),
        final(stream).toks() == old(stream).toks(),
        old(messages).messages@.is_prefix_of(final(messages).messages@),
        match r {
            Ok(sd) => decl_at(sd, old(stream).toks(), old(stream).at(), final(stream).at() - 1)
                && kind_at(old(stream).toks(), final(stream).at() - 1) == Some(Kind::SemiColon),
            Err(e) => match decl_parse(old(stream).toks(), old(stream).at()) {
                Err(f) => reports(e, old(stream).toks(), f),
                Ok((q, _, _)) => kind_at(old(stream).toks(), q) != Some(Kind::SemiColon) && reports(
                    e,
                    old(stream).toks(),
                    (q, seq![Kind::SemiColon]),
                ),
            },
        },
        r matches Ok(SubprogramDeclaration::Function(fs)) ==> fs.pure == (kind_at(
            old(stream).toks(),
            old(stream).at(),
        ) != Some(Kind::Impure)),
        r matches Ok(SubprogramDeclaration::Procedure(_)) ==> kind_at(
            old(stream).toks(),
            old(stream).at(),
        ) == Some(Kind::Procedure),
{
    let sd = match parse_subprogram_declaration_no_semi(stream, messages) {
        Ok(sd) => sd,
        Err(e) => {
            return Err(e);
        },
    };
    match stream.expect_kind(Kind::SemiColon) {
        Ok(_) => Ok(sd),
        Err(e) => Err(e),
    }
}

/// The keyword that may close the body of `sd`.
pub open spec fn end_kind(sd: SubprogramDeclaration) -> Kind {
    match sd {
        SubprogramDeclaration::Procedure(_) => Kind::Procedure,
        SubprogramDeclaration::Function(_) => Kind::Function,
    }
}

/// After `end` at `q - 1`: an optional `k`, an optional identifier and an optional string,
/// in that order, then a semicolon. Where that ends, or where it fails.
pub open spec fn body_tail(toks: Seq<Token>, q: int, k: Kind) -> Result<int, Failure> {
    let q1 = if kind_at(toks, q) == Some(k) { q + 1 } else { q };
    let q2 = if kind_at(toks, q1) == Some(Kind::Identifier) { q1 + 1 } else { q1 };
    let q3 = if kind_at(toks, q2) == Some(Kind::StringLiteral) { q2 + 1 } else { q2 };
    if kind_at(toks, q3) == Some(Kind::SemiColon) {
        Ok(q3 + 1)
    } else {
        Err((q3, seq![Kind::SemiColon]))
    }
}

/// Every combination of the echoes after `end` is accepted: none, the keyword, the
/// keyword and the name, and so on, each present or absent, always in the order keyword,
/// name, operator symbol, then the semicolon.
pub proof fn lemma_body_tail_echoes(
    toks: Seq<Token>,
    q: int,
    k: Kind,
    keyword: bool,
    name: bool,
    symbol: bool,
)
    requires
        k == Kind::Procedure || k == Kind::Function,
        keyword ==> kind_at(toks, q) == Some(k),
        name ==> kind_at(toks, q + if keyword { 1int } else { 0int }) == Some(Kind::Identifier),
        symbol ==> kind_at(
            toks,
            q + if keyword { 1int } else { 0int } + if name { 1int } else { 0int },
        ) == Some(Kind::StringLiteral),
        kind_at(
            toks,
            q + if keyword { 1int } else { 0int } + if name { 1int } else { 0int } + if symbol {
                1int
            } else {
                0int
            },
        ) == Some(Kind::SemiColon),
    ensures
        body_tail(toks, q, k) == Ok::<int, Failure>(
            q + if keyword { 1int } else { 0int } + if name { 1int } else { 0int } + if symbol {
                1int
            } else {
                0int
            } + 1,
        ),
{
}

/// The body at `p`, after `is`, of a subprogram whose body ends with `end [k]`: where
/// it ends with the starts of its declarations and statements, or where it fails.
pub open spec fn body_parse(toks: Seq<Token>, p: int, k: Kind) -> Result<
    (int, Seq<int>, Seq<int>),
    Failure,
> {
    match declarative_loop(toks, p, Seq::empty()) {
        Err(f) => Err(f),
        Ok((b, decls)) => match statements_loop(toks, b, Seq::empty()) {
            Err(f) => Err(f),
            Ok((x, stmts)) => match body_tail(toks, x, k) {
                Err(f) => Err(f),
                Ok(e) => Ok((e, decls, stmts)),
            },
        },
    }
}

/// `b` holds `sd` and the declarations and statements that start at `decls` and `stmts`.
pub open spec fn body_matches(
    b: SubprogramBody,
    sd: SubprogramDeclaration,
    toks: Seq<Token>,
    decls: Seq<int>,
    stmts: Seq<int>,
) -> bool {
    b.specification == sd && objects_at(b.declarations@, toks, decls) && statements_at(
        b.statements@,
        toks,
        stmts,
    )
}

/// Parses the body of a subprogram whose specification and `is` were parsed already:
/// declarations, `begin`, statements, `end`, the optional echoes of the keyword, name
/// and operator symbol, and the closing semicolon.
pub fn parse_subprogram_body(
    stream: &mut TokenStream,
    specification: SubprogramDeclaration,
    messages: &mut MessageHandler,
) -> (r: Result<SubprogramBody, ParseError>)
    requires
        old(stream).wf(),
    ensures
        final(stream).wf(),
        final(stream).toks() == old(stream).toks(),
        old(messages).messages@.is_prefix_of(final(messages).messages@),
        match r {
            Ok(b) => body_parse(old(stream).toks(), old(stream).at(), end_kind(specification)) matches Ok(
                (e, decls, stmts),
            ) && final(stream).at() == e && body_matches(
                b,
                specification,
                old(stream).toks(),
                decls,
                stmts,
            ),
            Err(e) => body_parse(
                old(stream).toks(),
                old(stream).at(),
                end_kind(specification),
            ) matches Err(f) && reports(e, old(stream).toks(), f),
        },
{
    let ghost toks = stream.toks();
    let end_kind = match specification {
        SubprogramDeclaration::Procedure(_) => Kind::Procedure,
        SubprogramDeclaration::Function(_) => Kind::Function,
    };
    let declarations = match parse_declarative_part(stream, messages) {
        Ok(v) => v,
        Err(e) => {
            return Err(e);
        },
    };
    let (statements, end_token) = match parse_labeled_sequential_statements(stream, messages) {
        Ok(r) => r,
        Err(e) => {
            return Err(e);
        },
    };
    let ends = [Kind::End];
    match dispatch(&end_token, &ends) {
        Ok(_) => {},
        Err(e) => {
            return Err(e);
        },
    }
    stream.pop_if_kind(end_kind);
    stream.pop_if_kind(Kind::Identifier);
    stream.pop_if_kind(Kind::StringLiteral);
    match stream.expect_kind(Kind::SemiColon) {
        Ok(_) => {},
        Err(e) => {
            return Err(e);
        },
    }
    Ok(SubprogramBody { specification, declarations, statements })
}

/// The subprogram declaration or body that starts at `p`: where it ends, or where it
/// fails.
pub open spec fn subprogram_parse(toks: Seq<Token>, p: int) -> Result<int, Failure> {
    match decl_parse(toks, p) {
        Err(f) => Err(f),
        Ok((q, _, _)) => if kind_at(toks, q) == Some(Kind::Is) {
            match decl_head(toks, p) {
                Ok((_, is_function, _)) => match body_parse(
                    toks,
                    q + 1,
                    if is_function {
                        Kind::Function
                    } else {
                        Kind::Procedure
                    },
                ) {
                    Err(f) => Err(f),
                    Ok((e, _, _)) => Ok(e),
                },
                Err(f) => Err(f),
            }
        } else if kind_at(toks, q) == Some(Kind::SemiColon) {
            Ok(q + 1)
        } else {
            Err((q, seq![Kind::Is, Kind::SemiColon]))
        },
    }
}

/// `d` is the subprogram declaration or body that starts at `p`: a bare specification
/// when it is followed by `;`, and a body when it is followed by `is`, whose
/// specification, declarations and statements are what the rules for each of them
/// yield at their own places.
pub open spec fn subprogram_matches(d: Declaration, toks: Seq<Token>, p: int) -> bool {
    decl_parse(toks, p) matches Ok((q, starts, ret)) && match d {
        Declaration::SubprogramDeclaration(sd) => kind_at(toks, q) == Some(Kind::SemiColon)
            && decl_matches(sd, toks, p, starts, ret),
        Declaration::SubprogramBody(b) => kind_at(toks, q) == Some(Kind::Is) && decl_matches(
            b.specification,
            toks,
            p,
            starts,
            ret,
        ) && (body_parse(toks, q + 1, end_kind(b.specification)) matches Ok((_, decls, stmts))
            && objects_at(b.declarations@, toks, decls) && statements_at(
            b.statements@,
            toks,
            stmts,
        )),
        Declaration::Object(_) => false,
    }
}

/// Parses a subprogram declaration (`...;`) or a subprogram body (`... is ... end ...;`).
pub fn parse_subprogram(stream: &mut TokenStream, messages: &mut MessageHandler) -> (r: Result<
    Declaration,
    ParseError,
>)
    requires
        old(stream).wf(),
    ensures
        final(stream).wf(),
        final(stream).toks() == old(stream).toks(),
        old(messages).messages@.is_prefix_of(final(messages).messages@),
        match r {
            Ok(d) => subprogram_parse(old(stream).toks(), old(stream).at()) == Ok::<int, Failure>(
                final(stream).at(),
            ) && subprogram_matches(d, old(stream).toks(), old(stream).at()),
            Err(e) => subprogram_parse(old(stream).toks(), old(stream).at()) matches Err(f)
                && reports(e, old(stream).toks(), f),
        },
{
    let ghost toks = stream.toks();
    let ghost p = stream.at();
    let specification = match parse_subprogram_declaration_no_semi(stream, messages) {
        Ok(sd) => sd,
        Err(e) => {
            return Err(e);
        },
    };
    let arms = [Kind::Is, Kind::SemiColon];
    assert(arms@ =~= seq![Kind::Is, Kind::SemiColon]);
    let token = match stream.expect(&arms) {
        Ok(t) => t,
        Err(e) => {
            return Err(e);
        },
    };
    match dispatch(&token, &arms) {
        Ok(0) => match parse_subprogram_body(stream, specification, messages) {
            Ok(b) => Ok(Declaration::SubprogramBody(b)),
            Err(e) => Err(e),
        },
        Ok(_) => Ok(Declaration::SubprogramDeclaration(specification)),
        Err(e) => Err(e),
    }
}

} // verus!
