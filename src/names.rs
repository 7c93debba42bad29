use vstd::prelude::*;
use crate::ast::{Ident, SelectedName};
use crate::tokens::{Failure, Kind, ParseError, Token, TokenStream, ident_of, kind_at, reports};

verus! {

/// Where the selected name starting at `p` ends (just past its last identifier), or
/// where it fails: `ident { . ident }`.
pub open spec fn name_end(toks: Seq<Token>, p: int) -> Result<int, Failure>
    decreases toks.len() - p,
{
    if kind_at(toks, p) == Some(Kind::Identifier) {
        if kind_at(toks, p + 1) == Some(Kind::Dot) {
            name_end(toks, p + 2)
        } else {
            Ok(p + 1)
        }
    } else {
        Err((p, seq![Kind::Identifier]))
    }
}

/// `n` holds, in order, the identifiers of the selected name that starts at `p`.
pub open spec fn name_at(n: Seq<Ident>, toks: Seq<Token>, p: int) -> bool {
    &&& name_end(toks, p) == Ok::<int, Failure>(p + 2 * n.len() - 1)
    &&& n.len() >= 1
    &&& forall|k: int| 0 <= k < n.len() ==> ident_of(#[trigger] n[k], toks[p + 2 * k])
}

/// A selected name that parses ends after its start, within the tokens.
pub proof fn lemma_name_end_bounds(toks: Seq<Token>, p: int)
    ensures
        name_end(toks, p) matches Ok(q) ==> p < q <= toks.len(),
    decreases toks.len() - p,
{
    if kind_at(toks, p) == Some(Kind::Identifier) && kind_at(toks, p + 1) == Some(Kind::Dot) {
        lemma_name_end_bounds(toks, p + 2);
    }
}

/// Parses a dot-separated name.
pub fn parse_selected_name(stream: &mut TokenStream) -> (r: Result<SelectedName, ParseError>)
    requires
        old(stream).wf(),
    ensures
        final(stream).wf(),
        final(stream).toks() == old(stream).toks(),
        match r {
            Ok(n) => name_at(n@, old(stream).toks(), old(stream).at()) && final(stream).at()
                == old(stream).at() + 2 * n@.len() - 1,
            Err(e) => name_end(old(stream).toks(), old(stream).at()) matches Err(f) && reports(
                e,
                old(stream).toks(),
                f,
            ),
        },
{
    let ghost toks = stream.toks();
    let ghost start = stream.at();
    let mut name: Vec<Ident> = Vec::new();
    loop
        invariant
            stream.wf(),
            stream.toks() == toks,
            0 <= start <= toks.len(),
            toks == old(stream).toks(),
            start == old(stream).at(),
            stream.at() == start + 2 * name@.len(),
            name_end(toks, stream.at()) == name_end(toks, start),
            forall|k: int| 0 <= k < name@.len() ==> ident_of(#[trigger] name@[k], toks[start + 2 * k]),
        decreases toks.len() - stream.at(),
    {
        let id = match stream.expect_ident() {
            Ok(id) => id,
            Err(e) => {
                return Err(e);
            },
        };
        name.push(id);
        match stream.peek_kind() {
            Some(Kind::Dot) => {
                let dot = stream.expect_kind(Kind::Dot);
            },
            _ => {
                return Ok(name);
            },
        }
    }
}

} // verus!
