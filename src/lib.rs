//! Declaration grammar of a hardware-description language front end: attribute
//! declarations and specifications, subprogram specifications, signatures and
//! subprogram bodies, parsed by recursive descent from a stream of classified tokens.
//!
//! Every rule inspects the next token's kind and picks one production through the
//! dispatch primitive of `tokens`, or fails with an error that names the acceptable
//! kinds. Each rule's contract states its outcome through a spec function over the
//! token sequence: where the construct ends, or which token makes it fail.

pub mod ast;
pub mod attributes;
pub mod body;
pub mod expression;
pub mod interface;
pub mod names;
pub mod subprogram;
pub mod tokens;
