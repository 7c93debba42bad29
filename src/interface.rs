use vstd::prelude::*;
use crate::ast::{InterfaceDeclaration, copy_ident};
use crate::names::{lemma_name_end_bounds, name_at, name_end, parse_selected_name};
use crate::tokens::{
    Failure, Kind, MessageHandler, ParseError, Token, TokenStream, dispatch, ident_of, kind_at,
    reports,
};

verus! {

/// The loop over `name : type_mark { ; name : type_mark } )` from `p`, with the
/// parameters found so far starting at `starts`: the index just past the closing
/// parenthesis with the start of every parameter, or where it fails.
pub open spec fn params_loop(toks: Seq<Token>, p: int, starts: Seq<int>) -> Result<
    (int, Seq<int>),
    Failure,
>
    decreases toks.len() - p,
    via params_loop_decreases
{
    if kind_at(toks, p) != Some(Kind::Identifier) {
        Err((p, seq![Kind::Identifier]))
    } else if kind_at(toks, p + 1) != Some(Kind::Colon) {
        Err((p + 1, seq![Kind::Colon]))
    } else {
        match name_end(toks, p + 2) {
            Err(f) => Err(f),
            Ok(q) => if kind_at(toks, q) == Some(Kind::SemiColon) {
                params_loop(toks, q + 1, starts.push(p))
            } else if kind_at(toks, q) == Some(Kind::RightPar) {
                Ok((q + 1, starts.push(p)))
            } else {
                Err((q, seq![Kind::SemiColon, Kind::RightPar]))
            },
        }
    }
}

#[via_fn]
proof fn params_loop_decreases(toks: Seq<Token>, p: int, starts: Seq<int>) {
    lemma_name_end_bounds(toks, p + 2);
}

/// The parenthesised parameter list that starts at `p`.
pub open spec fn params_parse(toks: Seq<Token>, p: int) -> Result<(int, Seq<int>), Failure> {
    if kind_at(toks, p) == Some(Kind::LeftPar) {
        params_loop(toks, p + 1, Seq::empty())
    } else {
        Err((p, seq![Kind::LeftPar]))
    }
}

/// `v` holds the parameters that start at `starts`, in order.
pub open spec fn params_at(v: Seq<InterfaceDeclaration>, toks: Seq<Token>, starts: Seq<int>) -> bool {
    &&& v.len() == starts.len()
    &&& forall|k: int|
        0 <= k < v.len() ==> ident_of(#[trigger] v[k].ident, toks[starts[k]]) && name_at(
            v[k].subtype@,
            toks,
            starts[k] + 2,
        )
}

/// Parses a parameter list `( name : type_mark { ; name : type_mark } )`.
pub fn parse_parameter_interface_list(
    stream: &mut TokenStream,
    messages: &mut MessageHandler,
) -> (r: Result<Vec<InterfaceDeclaration>, ParseError>)
    requires
        old(stream).wf(),
    ensures
        final(stream).wf(),
        final(stream).toks() == old(stream).toks(),
        old(messages).messages@.is_prefix_of(final(messages).messages@),
        match r {
            Ok(v) => params_parse(old(stream).toks(), old(stream).at()) matches Ok((e, starts))
                && final(stream).at() == e && params_at(v@, old(stream).toks(), starts),
            Err(e) => params_parse(old(stream).toks(), old(stream).at()) matches Err(f)
                && reports(e, old(stream).toks(), f),
        },
{
    let ghost toks = stream.toks();
    let ghost start = stream.at();
    match stream.expect_kind(Kind::LeftPar) {
        Ok(_) => {},
        Err(e) => {
            return Err(e);
        },
    }
    let separators = [Kind::SemiColon, Kind::RightPar];
    assert(separators@ =~= seq![Kind::SemiColon, Kind::RightPar]);
    let mut list: Vec<InterfaceDeclaration> = Vec::new();
    let ghost mut starts: Seq<int> = Seq::empty();
    loop
        invariant_except_break
            params_loop(toks, stream.at(), starts) == params_parse(toks, start),
        invariant
            stream.wf(),
            stream.toks() == toks,
            toks == old(stream).toks(),
            start == old(stream).at(),
            messages.messages@ == old(messages).messages@,
            0 <= start < stream.at(),
            separators@ == seq![Kind::SemiColon, Kind::RightPar],
            params_at(list@, toks, starts),
        ensures
            params_parse(toks, start) == Ok::<(int, Seq<int>), Failure>((stream.at(), starts)),
        decreases toks.len() - stream.at(),
    {
        let ghost p = stream.at();
        let ident = match stream.expect_ident() {
            Ok(id) => id,
            Err(e) => {
                return Err(e);
            },
        };
        match stream.expect_kind(Kind::Colon) {
            Ok(_) => {},
            Err(e) => {
                return Err(e);
            },
        }
        let subtype = match parse_selected_name(stream) {
            Ok(n) => n,
            Err(e) => {
                return Err(e);
            },
        };
        let ghost old_list = list@;
        list.push(InterfaceDeclaration { ident, subtype });
        proof {
            starts = starts.push(p);
            assert forall|k: int| 0 <= k < list@.len() implies ident_of(
                #[trigger] list@[k].ident,
                toks[starts[k]],
            ) && name_at(list@[k].subtype@, toks, starts[k] + 2) by {
                if k < old_list.len() {
                    assert(list@[k] == old_list[k]);
                }
            }
        }
        let sep = match stream.expect(&separators) {
            Ok(t) => t,
            Err(e) => {
                return Err(e);
            },
        };
        match dispatch(&sep, &separators) {
            Ok(0) => {},
            Ok(_) => {
                break ;
            },
            Err(e) => {
                return Err(e);
            },
        }
    }
    proof {
        assert(messages.messages@ =~= old(messages).messages@);
    }
    Ok(list)
}

} // verus!
