use vstd::prelude::*;

verus! {

/// The lexical category of a token.
#[derive(Clone, Copy, Debug, PartialEq, Eq, Structural)]
pub enum Kind {
    Identifier,
    StringLiteral,
    AbstractLiteral,
    Attribute,
    Of,
    Is,
    Others,
    All,
    Entity,
    Architecture,
    Configuration,
    Package,
    Signal,
    Variable,
    Constant,
    Procedure,
    Function,
    Impure,
    Return,
    Begin,
    End,
    Null,
    Colon,
    SemiColon,
    Comma,
    Dot,
    LeftSquare,
    RightSquare,
    LeftPar,
    RightPar,
    ColonEq,
    Plus,
    Minus,
    Times,
}

/// A place in the source text.
#[derive(Clone, Copy, Debug, PartialEq, Eq, Structural)]
pub struct SrcPos {
    pub line: usize,
    pub column: usize,
}

/// A classified token: its kind, its text (identifier name or string contents) and where it starts.
#[derive(Clone, Debug, PartialEq, Eq)]
pub struct Token {
    pub kind: Kind,
    pub text: String,
    pub pos: SrcPos,
}

/// A value paired with the position of the token that introduced it.
#[derive(Clone, Debug, PartialEq, Eq)]
pub struct WithPos<T> {
    pub item: T,
    pub pos: SrcPos,
}

/// Why a grammar rule failed.
#[derive(Clone, Debug, PartialEq, Eq)]
pub enum ParseError {
    /// The token at `pos` has kind `got`, which is none of `expected`.
    Unexpected { pos: SrcPos, got: Kind, expected: Vec<Kind> },
    /// The input ended where one of `expected` was needed.
    EndOfInput { expected: Vec<Kind> },
    /// A signature holds a second `return` clause, reported at its `return` token.
    DuplicateReturn { pos: SrcPos },
}

/// A failure as the grammar's spec functions describe it: the index of the offending
/// token and the kinds that were acceptable there. An empty set of kinds stands for a
/// duplicate `return` clause.
pub type Failure = (int, Seq<Kind>);

/// The kind of the token at index `i`, or `None` past the end.
pub open spec fn kind_at(toks: Seq<Token>, i: int) -> Option<Kind> {
    if 0 <= i < toks.len() {
        Some(toks[i].kind)
    } else {
        None
    }
}

/// `e` is the error that a rule reports for the failure `f` on `toks`.
pub open spec fn reports(e: ParseError, toks: Seq<Token>, f: Failure) -> bool {
    let (i, expected) = f;
    if expected.len() == 0 {
        0 <= i < toks.len() && e == (ParseError::DuplicateReturn { pos: toks[i].pos })
    } else if 0 <= i < toks.len() {
        match e {
            ParseError::Unexpected { pos, got, expected: ex } => pos == toks[i].pos && got
                == toks[i].kind && ex@ == expected,
            _ => false,
        }
    } else {
        match e {
            ParseError::EndOfInput { expected: ex } => ex@ == expected,
            _ => false,
        }
    }
}

/// `e` reports a token of kind `k` at `p` where one of `expected` was needed.
pub open spec fn unexpected_at(e: ParseError, p: SrcPos, k: Kind, expected: Seq<Kind>) -> bool {
    match e {
        ParseError::Unexpected { pos, got, expected: ex } => pos == p && got == k && ex@ == expected,
        _ => false,
    }
}

/// Whether `k` is one of `arms`.
pub open spec fn accepts(arms: Seq<Kind>, k: Kind) -> bool {
    exists|i: int| 0 <= i < arms.len() && arms[i] == k
}

/// Copies a kind list element by element.
pub fn copy_kinds(arms: &[Kind]) -> (r: Vec<Kind>)
    ensures
        r@ == arms@,
{
    let mut r: Vec<Kind> = Vec::new();
    let mut i: usize = 0;
    while i < arms.len()
        invariant
            i <= arms@.len(),
            r@ == arms@.subrange(0, i as int),
        decreases arms@.len() - i,
    {
        r.push(arms[i]);
        i = i + 1;
    }
    assert(r@ =~= arms@);
    r
}

/// The error for a token whose kind is none of `arms`.
pub fn unexpected(token: &Token, arms: &[Kind]) -> (e: ParseError)
    ensures
        unexpected_at(e, token.pos, token.kind, arms@),
{
    ParseError::Unexpected { pos: token.pos, got: token.kind, expected: copy_kinds(arms) }
}

/// The dispatch primitive: picks the arm of `arms` that `token`'s kind selects, trying
/// them in order. It consumes nothing; when no arm matches it reports the token's kind
/// and position together with every acceptable kind.
pub fn dispatch(token: &Token, arms: &[Kind]) -> (r: Result<usize, ParseError>)
    ensures
        match r {
            Ok(i) => i < arms@.len() && arms@[i as int] == token.kind && forall|j: int|
                0 <= j < i ==> arms@[j] != token.kind,
            Err(e) => !accepts(arms@, token.kind) && unexpected_at(e, token.pos, token.kind, arms@),
        },
{
    let mut i: usize = 0;
    while i < arms.len()
        invariant
            i <= arms@.len(),
            forall|j: int| 0 <= j < i ==> arms@[j] != token.kind,
        decreases arms@.len() - i,
    {
        if arms[i] == token.kind {
            return Ok(i);
        }
        i = i + 1;
    }
    Err(unexpected(token, arms))
}

/// Copies a token, text included.
pub fn copy_token(t: &Token) -> (r: Token)
    ensures
        r == *t,
{
    Token { kind: t.kind, text: t.text.clone(), pos: t.pos }
}

/// Collects the diagnostics of nested rules that do not abort the parse. Diagnostics
/// are only ever appended.
pub struct MessageHandler {
    pub messages: Vec<ParseError>,
}

impl MessageHandler {
    pub fn new() -> (m: MessageHandler)
        ensures
            m.messages@.len() == 0,
    {
        MessageHandler { messages: Vec::new() }
    }

    /// Appends a diagnostic.
    pub fn push(&mut self, e: ParseError)
        ensures
            final(self).messages@ == old(self).messages@.push(e),
    {
        self.messages.push(e);
    }
}

/// A cursor over a sequence of tokens.
pub struct TokenStream {
    pub tokens: Vec<Token>,
    pub idx: usize,
}

impl TokenStream {
    /// The tokens, independent of the cursor.
    pub open spec fn toks(&self) -> Seq<Token> {
        self.tokens@
    }

    /// The index of the next token.
    pub open spec fn at(&self) -> int {
        self.idx as int
    }

    pub open spec fn wf(&self) -> bool {
        self.idx <= self.tokens@.len()
    }

    /// A stream positioned before the first token.
    pub fn new(tokens: Vec<Token>) -> (s: TokenStream)
        ensures
            s.wf(),
            s.toks() == tokens@,
            s.at() == 0,
    {
        TokenStream { tokens, idx: 0 }
    }

    /// Whether every token has been consumed.
    pub fn is_exhausted(&self) -> (r: bool)
        requires
            self.wf(),
        ensures
            r == (self.at() == self.toks().len()),
    {
        self.idx == self.tokens.len()
    }

    /// The kind of the next token, without consuming it; `None` at the end of input.
    pub fn peek_kind(&self) -> (r: Option<Kind>)
        requires
            self.wf(),
        ensures
            r == kind_at(self.toks(), self.at()),
    {
        if self.idx < self.tokens.len() {
            Some(self.tokens[self.idx].kind)
        } else {
            None
        }
    }

    /// The next token, without consuming it; fails at the end of input.
    pub fn peek_expect(&self, expected: &[Kind]) -> (r: Result<Token, ParseError>)
        requires
            self.wf(),
            expected@.len() > 0,
        ensures
            match r {
                Ok(t) => self.at() < self.toks().len() && t == self.toks()[self.at()],
                Err(e) => self.at() == self.toks().len() && reports(
                    e,
                    self.toks(),
                    (self.at(), expected@),
                ),
            },
    {
        if self.idx < self.tokens.len() {
            Ok(copy_token(&self.tokens[self.idx]))
        } else {
            Err(ParseError::EndOfInput { expected: copy_kinds(expected) })
        }
    }

    /// Consumes and returns the next token; fails at the end of input.
    pub fn expect(&mut self, expected: &[Kind]) -> (r: Result<Token, ParseError>)
        requires
            old(self).wf(),
            expected@.len() > 0,
        ensures
            final(self).wf(),
            final(self).toks() == old(self).toks(),
            match r {
                Ok(t) => old(self).at() < old(self).toks().len() && t == old(self).toks()[old(self).at()] && final(self).at() == old(self).at() + 1,
                Err(e) => old(self).at() == old(self).toks().len() && final(self).at() == old(self).at() && reports(e, old(self).toks(), (old(self).at(), expected@)),
            },
    {
        let r = self.peek_expect(expected);
        if self.idx < self.tokens.len() {
            self.idx = self.idx + 1;
        }
        r
    }

    /// Consumes the next token if it has kind `k`; fails, consuming nothing, otherwise.
    pub fn expect_kind(&mut self, k: Kind) -> (r: Result<Token, ParseError>)
        requires
            old(self).wf(),
        ensures
            final(self).wf(),
            final(self).toks() == old(self).toks(),
            match r {
                Ok(t) => kind_at(old(self).toks(), old(self).at()) == Some(k) && t == old(self).toks()[old(self).at()] && final(self).at() == old(self).at() + 1,
                Err(e) => kind_at(old(self).toks(), old(self).at()) != Some(k) && final(self).at() == old(self).at() && reports(
                    e,
                    old(self).toks(),
                    (old(self).at(), seq![k]),
                ),
            },
    {
        let arms = [k];
        if self.idx < self.tokens.len() {
            if self.tokens[self.idx].kind == k {
                let t = copy_token(&self.tokens[self.idx]);
                self.idx = self.idx + 1;
                Ok(t)
            } else {
                let e = unexpected(&self.tokens[self.idx], &arms);
                assert(arms@ =~= seq![k]);
                Err(e)
            }
        } else {
            let ex = copy_kinds(&arms);
            assert(ex@ =~= seq![k]);
            Err(ParseError::EndOfInput { expected: ex })
        }
    }

    /// Consumes an identifier and returns its name with its position.
    pub fn expect_ident(&mut self) -> (r: Result<WithPos<String>, ParseError>)
        requires
            old(self).wf(),
        ensures
            final(self).wf(),
            final(self).toks() == old(self).toks(),
            match r {
                Ok(id) => kind_at(old(self).toks(), old(self).at()) == Some(Kind::Identifier)
                    && ident_of(id, old(self).toks()[old(self).at()]) && final(self).at() == old(self).at() + 1,
                Err(e) => kind_at(old(self).toks(), old(self).at()) != Some(Kind::Identifier)
                    && final(self).at() == old(self).at() && reports(
                    e,
                    old(self).toks(),
                    (old(self).at(), seq![Kind::Identifier]),
                ),
            },
    {
        match self.expect_kind(Kind::Identifier) {
            Ok(t) => Ok(WithPos { item: t.text, pos: t.pos }),
            Err(e) => Err(e),
        }
    }

    /// Steps past `token`, which is the next token, already peeked.
    pub fn move_after(&mut self, token: &Token)
        requires
            old(self).wf(),
            old(self).at() < old(self).toks().len(),
            *token == old(self).toks()[old(self).at()],
        ensures
            final(self).wf(),
            final(self).toks() == old(self).toks(),
            final(self).at() == old(self).at() + 1,
    {
        if self.idx < self.tokens.len() {
            self.idx = self.idx + 1;
        }
    }

    /// Consumes and returns the next token when it has kind `k`; otherwise leaves the
    /// cursor where it is.
    pub fn pop_if_kind(&mut self, k: Kind) -> (r: Option<Token>)
        requires
            old(self).wf(),
        ensures
            final(self).wf(),
            final(self).toks() == old(self).toks(),
            if kind_at(old(self).toks(), old(self).at()) == Some(k) {
                r == Some(old(self).toks()[old(self).at()]) && final(self).at() == old(self).at()
                    + 1
            } else {
                r.is_none() && final(self).at() == old(self).at()
            },
    {
        if self.idx < self.tokens.len() && self.tokens[self.idx].kind == k {
            let t = copy_token(&self.tokens[self.idx]);
            self.idx = self.idx + 1;
            Some(t)
        } else {
            None
        }
    }

    /// The dispatch primitive applied to the next token, which it does not consume:
    /// the index of the arm that its kind selects, or the error naming every
    /// acceptable kind (also at the end of input).
    pub fn dispatch_next(&self, arms: &[Kind]) -> (r: Result<usize, ParseError>)
        requires
            self.wf(),
            arms@.len() > 0,
        ensures
            self.at() == self.toks().len() ==> r is Err,
            match r {
                Ok(i) => i < arms@.len() && kind_at(self.toks(), self.at()) == Some(
                    arms@[i as int],
                ) && forall|j: int| 0 <= j < i ==> arms@[j] != arms@[i as int],
                Err(e) => (kind_at(self.toks(), self.at()) matches Some(k) ==> !accepts(
                    arms@,
                    k,
                )) && reports(e, self.toks(), (self.at(), arms@)),
            },
    {
        if self.idx < self.tokens.len() {
            dispatch(&self.tokens[self.idx], arms)
        } else {
            Err(ParseError::EndOfInput { expected: copy_kinds(arms) })
        }
    }
}

/// `id` carries the text and the position of `t`.
pub open spec fn ident_of(id: WithPos<String>, t: Token) -> bool {
    id.item == t.text && id.pos == t.pos
}

} // verus!
