use vstd::prelude::*;
use crate::ast::{
    Attribute, AttributeDeclaration, AttributeSpecification, Designator, EntityClass, EntityName,
    EntityTag, Expression, copy_expression, copy_ident,
};
use crate::expression::{expr_at, expr_end, parse_expression};
use crate::names::{name_at, name_end, parse_selected_name};
use crate::subprogram::{lemma_sig_loop_bounds, parse_signature, sig_parse, sig_value_at};
use crate::tokens::{
    Failure, Kind, ParseError, Token, TokenStream, WithPos, dispatch, ident_of, kind_at, reports,
};

verus! {

/// The kinds that name an entity class, in the order `parse_entity_class` tries them.
pub open spec fn class_kinds() -> Seq<Kind> {
    seq![
        Kind::Entity,
        Kind::Architecture,
        Kind::Configuration,
        Kind::Package,
        Kind::Signal,
        Kind::Variable,
        Kind::Procedure,
        Kind::Function,
    ]
}

/// The entity class that a keyword of kind `k` names.
pub open spec fn class_of(k: Option<Kind>) -> Option<EntityClass> {
    match k {
        Some(Kind::Entity) => Some(EntityClass::Entity),
        Some(Kind::Architecture) => Some(EntityClass::Architecture),
        Some(Kind::Configuration) => Some(EntityClass::Configuration),
        Some(Kind::Package) => Some(EntityClass::Package),
        Some(Kind::Signal) => Some(EntityClass::Signal),
        Some(Kind::Variable) => Some(EntityClass::Variable),
        Some(Kind::Procedure) => Some(EntityClass::Procedure),
        Some(Kind::Function) => Some(EntityClass::Function),
        _ => None,
    }
}

/// Parses an entity class keyword.
pub fn parse_entity_class(stream: &mut TokenStream) -> (r: Result<EntityClass, ParseError>)
    requires
        old(stream).wf(),
    ensures
        final(stream).wf(),
        final(stream).toks() == old(stream).toks(),
        match r {
            Ok(c) => class_of(kind_at(old(stream).toks(), old(stream).at())) == Some(c) && final(stream).at() == old(stream).at() + 1,
            Err(e) => class_of(kind_at(old(stream).toks(), old(stream).at())).is_none() && reports(
                e,
                old(stream).toks(),
                (old(stream).at(), class_kinds()),
            ),
        },
{
    let arms = [
        Kind::Entity,
        Kind::Architecture,
        Kind::Configuration,
        Kind::Package,
        Kind::Signal,
        Kind::Variable,
        Kind::Procedure,
        Kind::Function,
    ];
    assert(arms@ =~= class_kinds());
    let token = match stream.expect(&arms) {
        Ok(t) => t,
        Err(e) => {
            return Err(e);
        },
    };
    match dispatch(&token, &arms) {
        Ok(0) => Ok(EntityClass::Entity),
        Ok(1) => Ok(EntityClass::Architecture),
        Ok(2) => Ok(EntityClass::Configuration),
        Ok(3) => Ok(EntityClass::Package),
        Ok(4) => Ok(EntityClass::Signal),
        Ok(5) => Ok(EntityClass::Variable),
        Ok(6) => Ok(EntityClass::Procedure),
        Ok(_) => Ok(EntityClass::Function),
        Err(e) => Err(e),
    }
}

/// One entity name of a list: the index of its designator and of its signature, if any.
pub type TagAt = (int, Option<int>);

/// The loop over `designator [signature] { , designator [signature] }` from `p`, with the
/// names found so far in `tags`: the index of the closing colon with all the names, or
/// where it fails.
pub open spec fn name_list_loop(toks: Seq<Token>, p: int, tags: Seq<TagAt>) -> Result<
    (int, Seq<TagAt>),
    Failure,
>
    decreases toks.len() - p, 0int,
    via name_list_loop_decreases
{
    if kind_at(toks, p) != Some(Kind::Identifier) {
        Err((p, seq![Kind::Identifier]))
    } else if kind_at(toks, p + 1) == Some(Kind::LeftSquare) {
        match sig_parse(toks, p + 1) {
            Err(f) => Err(f),
            Ok((q, _, _)) => name_list_next(toks, q, tags.push((p, Some(p + 1)))),
        }
    } else {
        name_list_next(toks, p + 1, tags.push((p, None)))
    }
}

/// The list goes on after a comma at `q`, or ends at a colon there.
pub open spec fn name_list_next(toks: Seq<Token>, q: int, tags: Seq<TagAt>) -> Result<
    (int, Seq<TagAt>),
    Failure,
>
    decreases toks.len() - q, 1int,
{
    if kind_at(toks, q) == Some(Kind::Comma) {
        name_list_loop(toks, q + 1, tags)
    } else if kind_at(toks, q) == Some(Kind::Colon) {
        Ok((q, tags))
    } else {
        Err((q, seq![Kind::Comma, Kind::Colon]))
    }
}

#[via_fn]
proof fn name_list_loop_decreases(toks: Seq<Token>, p: int, tags: Seq<TagAt>) {
    lemma_sig_loop_bounds(toks, p + 2, Seq::empty(), None);
    if kind_at(toks, p + 1) == Some(Kind::LeftSquare) {
        assert(sig_parse(toks, p + 1) == crate::subprogram::sig_loop(toks, p + 2, Seq::empty(), None));
    }
}

/// The entity name list that starts at `p`: the index just past it with its names
/// (none for `others` and `all`), or where it fails.
pub open spec fn name_list_parse(toks: Seq<Token>, p: int) -> Result<(int, Seq<TagAt>), Failure> {
    match kind_at(toks, p) {
        Some(Kind::Identifier) => name_list_loop(toks, p, Seq::empty()),
        Some(Kind::Others) => Ok((p + 1, Seq::empty())),
        Some(Kind::All) => Ok((p + 1, Seq::empty())),
        _ => Err((p, seq![Kind::Identifier, Kind::Others, Kind::All])),
    }
}

/// `n` is the entity name whose designator is at `tag.0` and whose signature, if any,
/// starts at `tag.1`.
pub open spec fn entity_name_at(n: EntityName, toks: Seq<Token>, tag: TagAt) -> bool {
    match n {
        EntityName::Name(t) => t.designator.pos == toks[tag.0].pos && t.designator.item
            == Designator::Identifier(toks[tag.0].text) && match (t.signature, tag.1) {
            (None, None) => true,
            (Some(s), Some(sp)) => sig_value_at(s, toks, sp),
            _ => false,
        },
        _ => false,
    }
}

/// `v` holds the entity names of the list that starts at `p`, found at `tags`.
pub open spec fn names_match(v: Seq<EntityName>, toks: Seq<Token>, p: int, tags: Seq<TagAt>) -> bool {
    match kind_at(toks, p) {
        Some(Kind::Others) => v.len() == 1 && v[0] is Others,
        Some(Kind::All) => v.len() == 1 && v[0] is All,
        _ => v.len() == tags.len() && forall|k: int|
            0 <= k < v.len() ==> entity_name_at(#[trigger] v[k], toks, tags[k]),
    }
}

/// Parses the targets of an attribute specification: a list of designators with
/// optional signatures, ended by a colon that is left in the stream, or `others`, or
/// `all`.
pub fn parse_entity_name_list(stream: &mut TokenStream) -> (r: Result<Vec<EntityName>, ParseError>)
    requires
        old(stream).wf(),
    ensures
        final(stream).wf(),
        final(stream).toks() == old(stream).toks(),
        match r {
            Ok(v) => name_list_parse(old(stream).toks(), old(stream).at()) matches Ok((q, tags))
                && final(stream).at() == q && names_match(
                v@,
                old(stream).toks(),
                old(stream).at(),
                tags,
            ),
            Err(e) => name_list_parse(old(stream).toks(), old(stream).at()) matches Err(f)
                && reports(e, old(stream).toks(), f),
        },
{
    let ghost toks = stream.toks();
    let ghost start = stream.at();
    let heads = [Kind::Identifier, Kind::Others, Kind::All];
    assert(heads@ =~= seq![Kind::Identifier, Kind::Others, Kind::All]);
    let arm = match stream.dispatch_next(&heads) {
        Ok(i) => i,
        Err(e) => {
            return Err(e);
        },
    };
    if arm == 1 {
        let t = crate::tokens::copy_token(&stream.tokens[stream.idx]);
        stream.move_after(&t);
        return Ok(vec![EntityName::Others]);
    } else if arm == 2 {
        let t = crate::tokens::copy_token(&stream.tokens[stream.idx]);
        stream.move_after(&t);
        return Ok(vec![EntityName::All]);
    }
    let separators = [Kind::Comma, Kind::Colon];
    assert(separators@ =~= seq![Kind::Comma, Kind::Colon]);
    let mut list: Vec<EntityName> = Vec::new();
    let ghost mut tags: Seq<TagAt> = Seq::empty();
    loop
        invariant_except_break
            name_list_loop(toks, stream.at(), tags) == name_list_parse(toks, start),
        invariant
            stream.wf(),
            stream.toks() == toks,
            toks == old(stream).toks(),
            start == old(stream).at(),
            kind_at(toks, start) == Some(Kind::Identifier),
            0 <= start <= stream.at(),
            separators@ == seq![Kind::Comma, Kind::Colon],
            list@.len() == tags.len(),
            forall|k: int| 0 <= k < list@.len() ==> entity_name_at(#[trigger] list@[k], toks, tags[k]),
        ensures
            name_list_parse(toks, start) == Ok::<(int, Seq<TagAt>), Failure>((stream.at(), tags)),
        decreases toks.len() - stream.at(),
    {
        let ghost p = stream.at();
        let id = match stream.expect_ident() {
            Ok(id) => id,
            Err(e) => {
                return Err(e);
            },
        };
        let signature = match stream.peek_kind() {
            Some(Kind::LeftSquare) => {
                proof {
                    lemma_sig_loop_bounds(toks, p + 2, Seq::empty(), None);
                }
                match parse_signature(stream) {
                    Ok(s) => Some(s),
                    Err(e) => {
                        return Err(e);
                    },
                }
            },
            _ => None,
        };
        let ghost sig_at: Option<int> = if signature.is_some() { Some(p + 1) } else { None };
        list.push(
            EntityName::Name(
                EntityTag { designator: WithPos { item: Designator::Identifier(id.item), pos: id.pos }, signature },
            ),
        );
        proof {
            tags = tags.push((p, sig_at));
        }
        let sep = match stream.peek_expect(&separators) {
            Ok(t) => t,
            Err(e) => {
                return Err(e);
            },
        };
        match dispatch(&sep, &separators) {
            Ok(0) => {
                stream.move_after(&sep);
            },
            Ok(_) => {
                break ;
            },
            Err(e) => {
                return Err(e);
            },
        }
    }
    Ok(list)
}

/// The attribute declaration or specification that starts at `p`: the index just past
/// its semicolon, or where it fails.
pub open spec fn attr_parse(toks: Seq<Token>, p: int) -> Result<int, Failure> {
    if kind_at(toks, p) != Some(Kind::Attribute) {
        Err((p, seq![Kind::Attribute]))
    } else if kind_at(toks, p + 1) != Some(Kind::Identifier) {
        Err((p + 1, seq![Kind::Identifier]))
    } else if kind_at(toks, p + 2) == Some(Kind::Colon) {
        match name_end(toks, p + 3) {
            Err(f) => Err(f),
            Ok(q) => if kind_at(toks, q) == Some(Kind::SemiColon) {
                Ok(q + 1)
            } else {
                Err((q, seq![Kind::SemiColon]))
            },
        }
    } else if kind_at(toks, p + 2) == Some(Kind::Of) {
        match name_list_parse(toks, p + 3) {
            Err(f) => Err(f),
            Ok((q, _)) => if kind_at(toks, q) != Some(Kind::Colon) {
                Err((q, seq![Kind::Colon]))
            } else if class_of(kind_at(toks, q + 1)).is_none() {
                Err((q + 1, class_kinds()))
            } else if kind_at(toks, q + 2) != Some(Kind::Is) {
                Err((q + 2, seq![Kind::Is]))
            } else {
                match expr_end(toks, q + 3) {
                    Err(f) => Err(f),
                    Ok(x) => if kind_at(toks, x) == Some(Kind::SemiColon) {
                        Ok(x + 1)
                    } else {
                        Err((x, seq![Kind::SemiColon]))
                    },
                }
            },
        }
    } else {
        Err((p + 2, seq![Kind::Colon, Kind::Of]))
    }
}

/// The entity name that an attribute specification carries.
pub open spec fn entity_name_of(a: Attribute) -> EntityName {
    match a {
        Attribute::Specification(s) => s.entity_name,
        Attribute::Declaration(_) => EntityName::All,
    }
}

/// `a` is a specification of the attribute named at `p + 1`, with the entity class at
/// `q + 1` and the expression at `q + 3`, where `q` is the colon after the entity names.
pub open spec fn spec_fields_at(a: Attribute, toks: Seq<Token>, p: int, q: int) -> bool {
    match a {
        Attribute::Specification(s) => ident_of(s.ident, toks[p + 1]) && class_of(
            kind_at(toks, q + 1),
        ) == Some(s.entity_class) && expr_at(s.expr, toks, q + 3),
        Attribute::Declaration(_) => false,
    }
}

/// `v` is what the attribute statement at `p` yields: one declaration for
/// `attribute X : T;`, and for `attribute X of L1, ..., Ln : C is E;` one specification
/// per entity name, in order, each with the same identifier, class and expression.
pub open spec fn attr_matches(v: Seq<Attribute>, toks: Seq<Token>, p: int) -> bool {
    if kind_at(toks, p + 2) == Some(Kind::Colon) {
        v.len() == 1 && match v[0] {
            Attribute::Declaration(d) => ident_of(d.ident, toks[p + 1]) && name_at(
                d.type_mark@,
                toks,
                p + 3,
            ),
            Attribute::Specification(_) => false,
        }
    } else {
        name_list_parse(toks, p + 3) matches Ok((q, tags)) && names_match(
            v.map_values(|a: Attribute| entity_name_of(a)),
            toks,
            p + 3,
            tags,
        ) && forall|k: int| 0 <= k < v.len() ==> spec_fields_at(#[trigger] v[k], toks, p, q)
    }
}

/// An expression that parses has one extent.
proof fn lemma_expr_at_unique(e1: Expression, e2: Expression, toks: Seq<Token>, p: int)
    requires
        expr_at(e1, toks, p),
        expr_at(e2, toks, p),
    ensures
        e1.items@ == e2.items@,
{
}

/// The specifications that one `attribute X of L1, ..., Ln : C is E;` statement yields
/// all carry the same identifier, entity class and expression.
pub proof fn lemma_specifications_share_fields(v: Seq<Attribute>, toks: Seq<Token>, p: int)
    requires
        attr_matches(v, toks, p),
        kind_at(toks, p + 2) == Some(Kind::Of),
    ensures
        forall|i: int, j: int|
            0 <= i < v.len() && 0 <= j < v.len() ==> match (#[trigger] v[i], #[trigger] v[j]) {
                (Attribute::Specification(a), Attribute::Specification(b)) => a.ident == b.ident
                    && a.entity_class == b.entity_class && a.expr.items@ == b.expr.items@,
                _ => false,
            },
{
    let q = name_list_parse(toks, p + 3)->Ok_0.0;
    assert forall|i: int, j: int| 0 <= i < v.len() && 0 <= j < v.len() implies match (
        #[trigger] v[i],
        #[trigger] v[j],
    ) {
        (Attribute::Specification(a), Attribute::Specification(b)) => a.ident == b.ident
            && a.entity_class == b.entity_class && a.expr.items@ == b.expr.items@,
        _ => false,
    } by {
        assert(spec_fields_at(v[i], toks, p, q));
        assert(spec_fields_at(v[j], toks, p, q));
        if let (Attribute::Specification(a), Attribute::Specification(b)) = (v[i], v[j]) {
            lemma_expr_at_unique(a.expr, b.expr, toks, q + 3);
        }
    }
}

/// Parses an attribute declaration or specification. A specification that lists several
/// entity names yields one node per name.
pub fn parse_attribute(stream: &mut TokenStream) -> (r: Result<Vec<Attribute>, ParseError>)
    requires
        old(stream).wf(),
    ensures
        final(stream).wf(),
        final(stream).toks() == old(stream).toks(),
        match r {
            Ok(v) => attr_parse(old(stream).toks(), old(stream).at()) == Ok::<int, Failure>(
                final(stream).at(),
            ) && attr_matches(v@, old(stream).toks(), old(stream).at()),
            Err(e) => attr_parse(old(stream).toks(), old(stream).at()) matches Err(f) && reports(
                e,
                old(stream).toks(),
                f,
            ),
        },
{
    let ghost toks = stream.toks();
    let ghost p = stream.at();
    match stream.expect_kind(Kind::Attribute) {
        Ok(_) => {},
        Err(e) => {
            return Err(e);
        },
    }
    let ident = match stream.expect_ident() {
        Ok(id) => id,
        Err(e) => {
            return Err(e);
        },
    };
    let forms = [Kind::Colon, Kind::Of];
    assert(forms@ =~= seq![Kind::Colon, Kind::Of]);
    let token = match stream.expect(&forms) {
        Ok(t) => t,
        Err(e) => {
            return Err(e);
        },
    };
    let form = match dispatch(&token, &forms) {
        Ok(i) => i,
        Err(e) => {
            return Err(e);
        },
    };
    if form == 0 {
        let type_mark = match parse_selected_name(stream) {
            Ok(n) => n,
            Err(e) => {
                return Err(e);
            },
        };
        match stream.expect_kind(Kind::SemiColon) {
            Ok(_) => {},
            Err(e) => {
                return Err(e);
            },
        }
        return Ok(vec![Attribute::Declaration(AttributeDeclaration { ident, type_mark })]);
    }
    let mut entity_names = match parse_entity_name_list(stream) {
        Ok(v) => v,
        Err(e) => {
            return Err(e);
        },
    };
    let ghost q = stream.at();
    match stream.expect_kind(Kind::Colon) {
        Ok(_) => {},
        Err(e) => {
            return Err(e);
        },
    }
    let entity_class = match parse_entity_class(stream) {
        Ok(c) => c,
        Err(e) => {
            return Err(e);
        },
    };
    match stream.expect_kind(Kind::Is) {
        Ok(_) => {},
        Err(e) => {
            return Err(e);
        },
    }
    let expr = match parse_expression(stream) {
        Ok(x) => x,
        Err(e) => {
            return Err(e);
        },
    };
    match stream.expect_kind(Kind::SemiColon) {
        Ok(_) => {},
        Err(e) => {
            return Err(e);
        },
    }
    let ghost all = entity_names@;
    let mut attributes: Vec<Attribute> = Vec::new();
    while entity_names.len() > 0
        invariant
            attributes@.len() + entity_names@.len() == all.len(),
            entity_names@ == all.subrange(attributes@.len() as int, all.len() as int),
            forall|k: int|
                0 <= k < attributes@.len() ==> spec_fields_at(#[trigger] attributes@[k], toks, p, q)
                    && entity_name_of(attributes@[k]) == all[k],
            ident_of(ident, toks[p + 1]),
            class_of(kind_at(toks, q + 1)) == Some(entity_class),
            expr_at(expr, toks, q + 3),
        decreases entity_names@.len(),
    {
        let entity_name = entity_names.remove(0);
        attributes.push(
            Attribute::Specification(
                AttributeSpecification {
                    ident: copy_ident(&ident),
                    entity_name,
                    entity_class,
                    expr: copy_expression(&expr),
                },
            ),
        );
        assert(entity_names@ =~= all.subrange(attributes@.len() as int, all.len() as int));
    }
    assert(attributes@.map_values(|a: Attribute| entity_name_of(a)) =~= all);
    Ok(attributes)
}

} // verus!
