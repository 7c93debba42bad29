use vstd::prelude::*;
use crate::tokens::{Kind, SrcPos, Token, WithPos};

verus! {

/// An identifier with the position of its token.
pub type Ident = WithPos<String>;

/// A dot-separated name such as `lib.pkg.natural`, one identifier per part.
pub type SelectedName = Vec<Ident>;

/// The name of a declared entity.
#[derive(Clone, Debug, PartialEq, Eq)]
pub enum Designator {
    Identifier(String),
    /// A quoted operator symbol, such as `"+"`, holding the text between the quotes.
    OperatorSymbol(String),
}

/// The parameter and result profile that picks one of several overloads.
#[derive(Clone, Debug, PartialEq, Eq)]
pub enum Signature {
    Procedure(Vec<SelectedName>),
    Function(Vec<SelectedName>, SelectedName),
}

/// One target of an attribute specification: a designator and an optional signature.
#[derive(Clone, Debug, PartialEq, Eq)]
pub struct EntityTag {
    pub designator: WithPos<Designator>,
    pub signature: Option<Signature>,
}

/// What an attribute specification applies to.
#[derive(Clone, Debug, PartialEq, Eq)]
pub enum EntityName {
    Name(EntityTag),
    Others,
    All,
}

/// The syntactic category that an attribute specification targets.
#[derive(Clone, Copy, Debug, PartialEq, Eq, Structural)]
pub enum EntityClass {
    Entity,
    Architecture,
    Configuration,
    Package,
    Signal,
    Variable,
    Procedure,
    Function,
}

/// An expression, as the alternating sequence of its operand and operator tokens.
#[derive(Clone, Debug, PartialEq, Eq)]
pub struct Expression {
    pub items: Vec<Token>,
}

/// `attribute X : T;`
#[derive(Clone, Debug, PartialEq, Eq)]
pub struct AttributeDeclaration {
    pub ident: Ident,
    pub type_mark: SelectedName,
}

/// One target of `attribute X of ... : C is E;`
#[derive(Clone, Debug, PartialEq, Eq)]
pub struct AttributeSpecification {
    pub ident: Ident,
    pub entity_name: EntityName,
    pub entity_class: EntityClass,
    pub expr: Expression,
}

#[derive(Clone, Debug, PartialEq, Eq)]
pub enum Attribute {
    Declaration(AttributeDeclaration),
    Specification(AttributeSpecification),
}

/// One parameter, `name : type_mark`.
#[derive(Clone, Debug, PartialEq, Eq)]
pub struct InterfaceDeclaration {
    pub ident: Ident,
    pub subtype: SelectedName,
}

#[derive(Clone, Debug, PartialEq, Eq)]
pub struct ProcedureSpecification {
    pub designator: WithPos<Designator>,
    pub parameter_list: Vec<InterfaceDeclaration>,
}

#[derive(Clone, Debug, PartialEq, Eq)]
pub struct FunctionSpecification {
    pub pure: bool,
    pub designator: WithPos<Designator>,
    pub parameter_list: Vec<InterfaceDeclaration>,
    pub return_type: SelectedName,
}

#[derive(Clone, Debug, PartialEq, Eq)]
pub enum SubprogramDeclaration {
    Procedure(ProcedureSpecification),
    Function(FunctionSpecification),
}

/// An object declaration of a declarative part: `constant|variable X : T [:= E];`
#[derive(Clone, Debug, PartialEq, Eq)]
pub struct ObjectDeclaration {
    pub class: Kind,
    pub ident: Ident,
    pub subtype: SelectedName,
    pub expr: Option<Expression>,
}

#[derive(Clone, Debug, PartialEq, Eq)]
pub enum SequentialStatement {
    Return(Option<Expression>),
    Null,
}

/// A statement with the position of its first token.
pub type LabeledSequentialStatement = WithPos<SequentialStatement>;

#[derive(Clone, Debug, PartialEq, Eq)]
pub struct SubprogramBody {
    pub specification: SubprogramDeclaration,
    pub declarations: Vec<ObjectDeclaration>,
    pub statements: Vec<LabeledSequentialStatement>,
}

#[derive(Clone, Debug, PartialEq, Eq)]
pub enum Declaration {
    Object(ObjectDeclaration),
    SubprogramDeclaration(SubprogramDeclaration),
    SubprogramBody(SubprogramBody),
}

/// Copies an identifier, text included.
pub fn copy_ident(id: &Ident) -> (r: Ident)
    ensures
        r == *id,
{
    WithPos { item: id.item.clone(), pos: id.pos }
}

/// Copies an expression token by token.
pub fn copy_expression(e: &Expression) -> (r: Expression)
    ensures
        r.items@ == e.items@,
{
    let mut items: Vec<Token> = Vec::new();
    let mut i: usize = 0;
    while i < e.items.len()
        invariant
            i <= e.items@.len(),
            items@ == e.items@.subrange(0, i as int),
        decreases e.items@.len() - i,
    {
        items.push(crate::tokens::copy_token(&e.items[i]));
        i = i + 1;
    }
    assert(items@ =~= e.items@);
    Expression { items }
}

} // verus!
