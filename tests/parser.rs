use vhdl_parser::ast::{
    Attribute, AttributeDeclaration, AttributeSpecification, Declaration, Designator, EntityClass,
    EntityName, EntityTag, Expression, InterfaceDeclaration, LabeledSequentialStatement,
    ObjectDeclaration, SelectedName, Signature, SubprogramBody, SubprogramDeclaration,
    FunctionSpecification, ProcedureSpecification, Ident,
};
use vhdl_parser::attributes::{parse_attribute, parse_entity_class, parse_entity_name_list};
use vhdl_parser::body::{parse_declarative_part, parse_labeled_sequential_statements};
use vhdl_parser::expression::parse_expression;
use vhdl_parser::interface::parse_parameter_interface_list;
use vhdl_parser::names::parse_selected_name;
use vhdl_parser::subprogram::{
    parse_signature, parse_subprogram, parse_subprogram_body, parse_subprogram_declaration,
    parse_subprogram_declaration_no_semi,
};
use vhdl_parser::tokens::{
    dispatch, Kind, MessageHandler, ParseError, SrcPos, Token, TokenStream, WithPos,
};

fn keyword(word: &str) -> Option<Kind> {
    let kind = match word.to_ascii_lowercase().as_str() {
        "attribute" => Kind::Attribute,
        "of" => Kind::Of,
        "is" => Kind::Is,
        "others" => Kind::Others,
        "all" => Kind::All,
        "entity" => Kind::Entity,
        "architecture" => Kind::Architecture,
        "configuration" => Kind::Configuration,
        "package" => Kind::Package,
        "signal" => Kind::Signal,
        "variable" => Kind::Variable,
        "constant" => Kind::Constant,
        "procedure" => Kind::Procedure,
        "function" => Kind::Function,
        "impure" => Kind::Impure,
        "return" => Kind::Return,
        "begin" => Kind::Begin,
        "end" => Kind::End,
        "null" => Kind::Null,
        _ => return None,
    };
    Some(kind)
}

/// Splits source text into tokens, positions counted from `base`.
fn lex_at(code: &str, base: SrcPos) -> Vec<Token> {
    let chars: Vec<char> = code.chars().collect();
    let mut tokens = Vec::new();
    let mut line = base.line;
    let mut column = base.column;
    let mut i = 0;
    while i < chars.len() {
        let c = chars[i];
        let pos = SrcPos { line, column };
        if c == '\n' {
            line += 1;
            column = 1;
            i += 1;
            continue;
        }
        if c.is_whitespace() {
            column += 1;
            i += 1;
            continue;
        }
        let start = i;
        let (kind, text) = if c.is_ascii_alphabetic() {
            while i < chars.len() && (chars[i].is_ascii_alphanumeric() || chars[i] == '_') {
                i += 1;
            }
            let word: String = chars[start..i].iter().collect();
            match keyword(&word) {
                Some(k) => (k, word),
                None => (Kind::Identifier, word),
            }
        } else if c.is_ascii_digit() {
            while i < chars.len() && chars[i].is_ascii_digit() {
                i += 1;
            }
            (Kind::AbstractLiteral, chars[start..i].iter().collect())
        } else if c == '"' {
            i += 1;
            while chars[i] != '"' {
                i += 1;
            }
            i += 1;
            (Kind::StringLiteral, chars[start + 1..i - 1].iter().collect())
        } else if c == ':' && i + 1 < chars.len() && chars[i + 1] == '=' {
            i += 2;
            (Kind::ColonEq, String::from(":="))
        } else {
            i += 1;
            let kind = match c {
                ':' => Kind::Colon,
                ';' => Kind::SemiColon,
                ',' => Kind::Comma,
                '.' => Kind::Dot,
                '[' => Kind::LeftSquare,
                ']' => Kind::RightSquare,
                '(' => Kind::LeftPar,
                ')' => Kind::RightPar,
                '+' => Kind::Plus,
                '-' => Kind::Minus,
                '*' => Kind::Times,
                _ => panic!("unexpected character {}", c),
            };
            (kind, c.to_string())
        };
        column += i - start;
        tokens.push(Token { kind, text, pos });
    }
    tokens
}

fn stream_of(code: &str) -> TokenStream {
    TokenStream::new(lex_at(code, SrcPos { line: 1, column: 1 }))
}

/// The position of the `occurrence`-th (from 1) appearance of `substr` in `code`.
fn substr_pos(code: &str, substr: &str, occurrence: usize) -> SrcPos {
    let mut from = 0;
    let mut found = 0;
    for _ in 0..occurrence {
        found = from + code[from..].find(substr).expect("substring present");
        from = found + substr.len();
    }
    let before = &code[..found];
    let line = before.matches('\n').count() + 1;
    let column = match before.rfind('\n') {
        Some(nl) => found - nl,
        None => found + 1,
    };
    SrcPos { line, column }
}

/// Parses the first appearance of `substr` in `code` with `parse`, at its own position.
fn parse_substr<T>(
    code: &str,
    substr: &str,
    parse: impl FnOnce(&mut TokenStream) -> Result<T, ParseError>,
) -> T {
    let base = substr_pos(code, substr, 1);
    let mut stream = TokenStream::new(lex_at(substr, base));
    let r = parse(&mut stream).expect("substring parses");
    assert!(stream.is_exhausted());
    r
}

fn ident(code: &str, name: &str) -> Ident {
    WithPos { item: String::from(name), pos: substr_pos(code, name, 1) }
}

fn designator(code: &str, name: &str) -> WithPos<Designator> {
    let id = ident(code, name);
    WithPos { item: Designator::Identifier(id.item), pos: id.pos }
}

fn selected_name(code: &str, substr: &str) -> SelectedName {
    parse_substr(code, substr, parse_selected_name)
}

fn expr(code: &str, substr: &str) -> Expression {
    parse_substr(code, substr, parse_expression)
}

fn signature(code: &str, substr: &str) -> Signature {
    parse_substr(code, substr, parse_signature)
}

fn parameter(code: &str, substr: &str) -> InterfaceDeclaration {
    let text = format!("({})", substr);
    let base = substr_pos(code, substr, 1);
    let base = SrcPos { line: base.line, column: base.column - 1 };
    let mut stream = TokenStream::new(lex_at(&text, base));
    let mut messages = MessageHandler::new();
    let mut list = parse_parameter_interface_list(&mut stream, &mut messages).unwrap();
    assert_eq!(list.len(), 1);
    list.remove(0)
}

fn subprogram_decl(code: &str, substr: &str) -> SubprogramDeclaration {
    let mut messages = MessageHandler::new();
    let r = parse_substr(code, substr, |s| parse_subprogram_declaration_no_semi(s, &mut messages));
    assert!(messages.messages.is_empty());
    r
}

fn declarative_part(code: &str, substr: &str) -> Vec<ObjectDeclaration> {
    let text = format!("{} begin", substr);
    let base = substr_pos(code, substr, 1);
    let mut stream = TokenStream::new(lex_at(&text, base));
    let mut messages = MessageHandler::new();
    let r = parse_declarative_part(&mut stream, &mut messages).unwrap();
    assert!(stream.is_exhausted());
    r
}

fn sequential_statement(code: &str, substr: &str) -> LabeledSequentialStatement {
    let text = format!("{} end", substr);
    let base = substr_pos(code, substr, 1);
    let mut stream = TokenStream::new(lex_at(&text, base));
    let mut messages = MessageHandler::new();
    let (mut statements, _) = parse_labeled_sequential_statements(&mut stream, &mut messages).unwrap();
    assert_eq!(statements.len(), 1);
    statements.remove(0)
}

fn with_stream<T>(parse: impl FnOnce(&mut TokenStream) -> Result<T, ParseError>, code: &str) -> T {
    let mut stream = stream_of(code);
    let r = parse(&mut stream).expect("code parses");
    assert!(stream.is_exhausted());
    r
}

fn with_stream_no_messages<T>(
    parse: impl FnOnce(&mut TokenStream, &mut MessageHandler) -> Result<T, ParseError>,
    code: &str,
) -> T {
    let mut messages = MessageHandler::new();
    let r = with_stream(|s| parse(s, &mut messages), code);
    assert!(messages.messages.is_empty());
    r
}

fn with_partial_stream<T>(
    parse: impl FnOnce(&mut TokenStream) -> Result<T, ParseError>,
    code: &str,
) -> Result<T, ParseError> {
    let mut stream = stream_of(code);
    parse(&mut stream)
}

#[test]
fn parse_simple_attribute_declaration() {
    let code = "attribute foo : lib.name;";
    let result = with_stream(parse_attribute, code);
    assert_eq!(
        result,
        vec![Attribute::Declaration(AttributeDeclaration {
            ident: ident(code, "foo"),
            type_mark: selected_name(code, "lib.name")
        })]
    )
}

#[test]
fn parse_simple_attribute_specification() {
    let code = "attribute attr_name of foo : signal is 0+1;";
    let result = with_stream(parse_attribute, code);
    assert_eq!(
        result,
        vec![Attribute::Specification(AttributeSpecification {
            ident: ident(code, "attr_name"),
            entity_name: EntityName::Name(EntityTag {
                designator: designator(code, "foo"),
                signature: None
            }),
            entity_class: EntityClass::Signal,
            expr: expr(code, "0+1")
        })]
    )
}

#[test]
fn parse_attribute_specification_list() {
    let code = "attribute attr_name of foo, bar : signal is 0+1;";
    let result = with_stream(parse_attribute, code);
    assert_eq!(
        result,
        vec![
            Attribute::Specification(AttributeSpecification {
                ident: ident(code, "attr_name"),
                entity_name: EntityName::Name(EntityTag {
                    designator: designator(code, "foo"),
                    signature: None
                }),
                entity_class: EntityClass::Signal,
                expr: expr(code, "0+1")
            }),
            Attribute::Specification(AttributeSpecification {
                ident: ident(code, "attr_name"),
                entity_name: EntityName::Name(EntityTag {
                    designator: designator(code, "bar"),
                    signature: None
                }),
                entity_class: EntityClass::Signal,
                expr: expr(code, "0+1")
            })
        ]
    )
}

#[test]
fn parse_attribute_specification_all() {
    let code = "attribute attr_name of all : signal is 0+1;";
    let result = with_stream(parse_attribute, code);
    assert_eq!(
        result,
        vec![Attribute::Specification(AttributeSpecification {
            ident: ident(code, "attr_name"),
            entity_name: EntityName::All,
            entity_class: EntityClass::Signal,
            expr: expr(code, "0+1")
        })]
    )
}

#[test]
fn parse_attribute_specification_others() {
    let code = "attribute attr_name of others : signal is 0+1;";
    let result = with_stream(parse_attribute, code);
    assert_eq!(
        result,
        vec![Attribute::Specification(AttributeSpecification {
            ident: ident(code, "attr_name"),
            entity_name: EntityName::Others,
            entity_class: EntityClass::Signal,
            expr: expr(code, "0+1")
        })]
    )
}

#[test]
fn parse_attribute_specification_with_signature() {
    let code = "attribute attr_name of foo[return natural] : signal is 0+1;";
    let result = with_stream(parse_attribute, code);
    assert_eq!(
        result,
        vec![Attribute::Specification(AttributeSpecification {
            ident: ident(code, "attr_name"),
            entity_name: EntityName::Name(EntityTag {
                designator: designator(code, "foo"),
                signature: Some(signature(code, "[return natural]"))
            }),
            entity_class: EntityClass::Signal,
            expr: expr(code, "0+1")
        })]
    )
}

#[test]
fn parses_procedure_specification() {
    let code = "\
procedure foo;
";
    let result = with_stream_no_messages(parse_subprogram_declaration, code);
    assert_eq!(
        result,
        SubprogramDeclaration::Procedure(ProcedureSpecification {
            designator: designator(code, "foo"),
            parameter_list: Vec::new(),
        })
    );
}

#[test]
fn parses_function_specification() {
    let code = "\
function foo return lib.foo.natural;
";
    let result = with_stream_no_messages(parse_subprogram_declaration, code);
    assert_eq!(
        result,
        SubprogramDeclaration::Function(FunctionSpecification {
            pure: true,
            designator: designator(code, "foo"),
            parameter_list: Vec::new(),
            return_type: selected_name(code, "lib.foo.natural")
        })
    );
}

#[test]
fn parses_function_specification_operator() {
    let code = "\
function \"+\" return lib.foo.natural;
";
    let result = with_stream_no_messages(parse_subprogram_declaration, code);
    assert_eq!(
        result,
        SubprogramDeclaration::Function(FunctionSpecification {
            pure: true,
            designator: WithPos {
                item: Designator::OperatorSymbol(String::from("+")),
                pos: substr_pos(code, "\"+\"", 1)
            },
            parameter_list: Vec::new(),
            return_type: selected_name(code, "lib.foo.natural")
        })
    );
}

#[test]
fn parses_impure_function_specification() {
    let code = "\
impure function foo return lib.foo.natural;
";
    let result = with_stream_no_messages(parse_subprogram_declaration, code);
    assert_eq!(
        result,
        SubprogramDeclaration::Function(FunctionSpecification {
            pure: false,
            designator: designator(code, "foo"),
            parameter_list: Vec::new(),
            return_type: selected_name(code, "lib.foo.natural")
        })
    );
}

#[test]
fn parses_procedure_specification_with_parameters() {
    let code = "\
procedure foo(foo : natural);
";
    let result = with_stream_no_messages(parse_subprogram_declaration, code);
    assert_eq!(
        result,
        SubprogramDeclaration::Procedure(ProcedureSpecification {
            designator: designator(code, "foo"),
            parameter_list: vec![parameter(code, "foo : natural")],
        })
    );
}

#[test]
fn parses_function_specification_with_parameters() {
    let code = "\
function foo(foo : natural) return lib.foo.natural;
";
    let result = with_stream_no_messages(parse_subprogram_declaration, code);
    assert_eq!(
        result,
        SubprogramDeclaration::Function(FunctionSpecification {
            pure: true,
            designator: designator(code, "foo"),
            parameter_list: vec![parameter(code, "foo : natural")],
            return_type: selected_name(code, "lib.foo.natural")
        })
    );
}

#[test]
fn parses_function_signature_only_return() {
    let code = "[return bar.type_mark]";
    let result = with_stream(parse_signature, code);
    assert_eq!(
        result,
        Signature::Function(vec![], selected_name(code, "bar.type_mark"))
    );
}

#[test]
fn parses_function_signature_one_argument() {
    let code = "[foo.type_mark return bar.type_mark]";
    let result = with_stream(parse_signature, code);
    assert_eq!(
        result,
        Signature::Function(
            vec![selected_name(code, "foo.type_mark")],
            selected_name(code, "bar.type_mark")
        )
    );
}

#[test]
fn parses_procedure_signature() {
    let code = "[foo.type_mark]";
    let result = with_stream(parse_signature, code);
    assert_eq!(
        result,
        Signature::Procedure(vec![selected_name(code, "foo.type_mark")])
    );
}

#[test]
fn parses_function_signature_many_arguments() {
    let code = "[foo.type_mark, foo2.type_mark return bar.type_mark]";
    let result = with_stream(parse_signature, code);
    assert_eq!(
        result,
        Signature::Function(
            vec![
                selected_name(code, "foo.type_mark"),
                selected_name(code, "foo2.type_mark")
            ],
            selected_name(code, "bar.type_mark")
        )
    );
}

#[test]
fn parses_function_signature_many_return_error() {
    let code = "[return bar.type_mark return bar2]";
    let result = with_partial_stream(parse_signature, code);
    assert_eq!(
        result,
        Err(ParseError::DuplicateReturn { pos: substr_pos(code, "return", 2) })
    );

    let code = "[foo return bar.type_mark return bar2]";
    let result = with_partial_stream(parse_signature, code);
    assert_eq!(
        result,
        Err(ParseError::DuplicateReturn { pos: substr_pos(code, "return", 2) })
    );
}

#[test]
fn parses_subprogram_body() {
    let code = "\
function foo(arg : natural) return natural is
  constant foo : natural := 0;
begin
  return foo + arg;
end function;
";
    let decl = with_stream_no_messages(parse_subprogram, code);
    let specification = subprogram_decl(code, "function foo(arg : natural) return natural");
    let declarations = declarative_part(code, "constant foo : natural := 0;");
    let statements = vec![sequential_statement(code, "return foo + arg;")];
    let body = SubprogramBody { specification, declarations, statements };
    assert_eq!(decl, Declaration::SubprogramBody(body));
}

#[test]
fn parses_subprogram_declaration() {
    let code = "\
function foo(arg : natural) return natural;
";
    let decl = with_stream_no_messages(parse_subprogram, code);
    let specification = subprogram_decl(code, "function foo(arg : natural) return natural");
    assert_eq!(decl, Declaration::SubprogramDeclaration(specification));
}

#[test]
fn attribute_specification_expands_each_name() {
    let code = "attribute a of x, y[t return r], z : procedure is 1 + b;";
    let result = with_stream(parse_attribute, code);
    assert_eq!(result.len(), 3);
    let names = ["x", "y", "z"];
    for (i, attr) in result.iter().enumerate() {
        match attr {
            Attribute::Specification(s) => {
                assert_eq!(s.ident, WithPos { item: String::from("a"), pos: SrcPos { line: 1, column: 11 } });
                assert_eq!(s.entity_class, EntityClass::Procedure);
                assert_eq!(s.expr, expr(code, "1 + b"));
                match &s.entity_name {
                    EntityName::Name(tag) => {
                        assert_eq!(tag.designator, designator(code, names[i]));
                        assert_eq!(tag.signature.is_some(), i == 1);
                    }
                    _ => panic!("expected a name"),
                }
            }
            _ => panic!("expected a specification"),
        }
    }
}

#[test]
fn attribute_with_unknown_form_is_rejected() {
    let code = "attribute a is b;";
    let result = with_partial_stream(parse_attribute, code);
    assert_eq!(
        result,
        Err(ParseError::Unexpected {
            pos: substr_pos(code, "is", 1),
            got: Kind::Is,
            expected: vec![Kind::Colon, Kind::Of]
        })
    );
}

#[test]
fn entity_class_rejects_other_keywords() {
    let code = "constant";
    let result = with_partial_stream(parse_entity_class, code);
    match result {
        Err(ParseError::Unexpected { pos, got, expected }) => {
            assert_eq!(pos, SrcPos { line: 1, column: 1 });
            assert_eq!(got, Kind::Constant);
            assert_eq!(expected.len(), 8);
        }
        other => panic!("unexpected result {:?}", other),
    }
    assert_eq!(with_stream(parse_entity_class, "architecture"), EntityClass::Architecture);
    assert_eq!(with_stream(parse_entity_class, "function"), EntityClass::Function);
}

#[test]
fn entity_name_list_leaves_colon() {
    let mut stream = stream_of("foo, bar : signal");
    let names = parse_entity_name_list(&mut stream).unwrap();
    assert_eq!(names.len(), 2);
    assert_eq!(stream.peek_kind(), Some(Kind::Colon));
}

#[test]
fn entity_name_list_rejects_bad_separator() {
    let code = "foo bar";
    let result = with_partial_stream(parse_entity_name_list, code);
    assert_eq!(
        result,
        Err(ParseError::Unexpected {
            pos: substr_pos(code, "bar", 1),
            got: Kind::Identifier,
            expected: vec![Kind::Comma, Kind::Colon]
        })
    );
}

#[test]
fn attribute_ending_early_reports_end_of_input() {
    let result = with_partial_stream(parse_attribute, "attribute a");
    assert_eq!(result, Err(ParseError::EndOfInput { expected: vec![Kind::Colon, Kind::Of] }));
}

#[test]
fn empty_signature_is_procedure() {
    assert_eq!(with_stream(parse_signature, "[]"), Signature::Procedure(vec![]));
}

#[test]
fn signature_with_three_marks_and_return() {
    let code = "[a, b.c, d return e.f]";
    let result = with_stream(parse_signature, code);
    assert_eq!(
        result,
        Signature::Function(
            vec![selected_name(code, "a"), selected_name(code, "b.c"), selected_name(code, "d")],
            selected_name(code, "e.f")
        )
    );
}

#[test]
fn signature_with_bad_separator_is_rejected() {
    let code = "[a; b]";
    let result = with_partial_stream(parse_signature, code);
    assert_eq!(
        result,
        Err(ParseError::Unexpected {
            pos: substr_pos(code, ";", 1),
            got: Kind::SemiColon,
            expected: vec![Kind::Comma, Kind::RightSquare, Kind::Return]
        })
    );
}

#[test]
fn duplicate_return_after_marks_reports_second_return() {
    let code = "[a, b return c return d]";
    let result = with_partial_stream(parse_signature, code);
    assert_eq!(result, Err(ParseError::DuplicateReturn { pos: substr_pos(code, "return", 2) }));
}

#[test]
fn purity_follows_the_keywords() {
    match with_stream_no_messages(parse_subprogram_declaration, "procedure p;") {
        SubprogramDeclaration::Procedure(_) => {}
        other => panic!("unexpected {:?}", other),
    }
    match with_stream_no_messages(parse_subprogram_declaration, "function f return t;") {
        SubprogramDeclaration::Function(f) => assert!(f.pure),
        other => panic!("unexpected {:?}", other),
    }
    match with_stream_no_messages(parse_subprogram_declaration, "impure function f return t;") {
        SubprogramDeclaration::Function(f) => assert!(!f.pure),
        other => panic!("unexpected {:?}", other),
    }
}

#[test]
fn impure_requires_function() {
    let code = "impure procedure p;";
    let mut messages = MessageHandler::new();
    let result = with_partial_stream(|s| parse_subprogram_declaration(s, &mut messages), code);
    assert_eq!(
        result,
        Err(ParseError::Unexpected {
            pos: substr_pos(code, "procedure", 1),
            got: Kind::Procedure,
            expected: vec![Kind::Function]
        })
    );
}

#[test]
fn function_requires_return() {
    let code = "function f;";
    let mut messages = MessageHandler::new();
    let result = with_partial_stream(|s| parse_subprogram_declaration(s, &mut messages), code);
    assert_eq!(
        result,
        Err(ParseError::Unexpected {
            pos: substr_pos(code, ";", 1),
            got: Kind::SemiColon,
            expected: vec![Kind::Return]
        })
    );
}

#[test]
fn operator_designator_keeps_symbol_text() {
    let code = "function \"and\" return t;";
    match with_stream_no_messages(parse_subprogram_declaration, code) {
        SubprogramDeclaration::Function(f) => {
            assert_eq!(f.designator.item, Designator::OperatorSymbol(String::from("and")));
            assert_eq!(f.designator.pos, SrcPos { line: 1, column: 10 });
        }
        other => panic!("unexpected {:?}", other),
    }
}

#[test]
fn body_end_echoes_are_optional() {
    let endings = [
        "end;",
        "end function;",
        "end function foo;",
        "end foo;",
        "end \"+\";",
        "end function foo \"+\";",
    ];
    for ending in endings.iter() {
        let code = format!("function foo return natural is begin return 1; {}", ending);
        match with_stream_no_messages(parse_subprogram, &code) {
            Declaration::SubprogramBody(b) => assert_eq!(b.statements.len(), 1),
            other => panic!("unexpected {:?}", other),
        }
    }
}

#[test]
fn procedure_body_rejects_function_echo() {
    let code = "procedure p is begin null; end function;";
    let mut messages = MessageHandler::new();
    let result = with_partial_stream(|s| parse_subprogram(s, &mut messages), code);
    assert_eq!(
        result,
        Err(ParseError::Unexpected {
            pos: substr_pos(code, "function", 1),
            got: Kind::Function,
            expected: vec![Kind::SemiColon]
        })
    );
}

#[test]
fn subprogram_body_keeps_specification() {
    let code = "procedure p(a : t) is variable v : t; begin null; return; end procedure p;";
    let mut stream = stream_of(code);
    let mut messages = MessageHandler::new();
    let spec = parse_subprogram_declaration_no_semi(&mut stream, &mut messages).unwrap();
    assert_eq!(stream.expect_kind(Kind::Is).map(|t| t.kind), Ok(Kind::Is));
    let body = parse_subprogram_body(&mut stream, spec.clone(), &mut messages).unwrap();
    assert!(stream.is_exhausted());
    assert_eq!(body.specification, spec);
    assert_eq!(body.declarations.len(), 1);
    assert_eq!(body.declarations[0].expr, None);
    assert_eq!(body.statements.len(), 2);
}

#[test]
fn subprogram_rejects_other_followers() {
    let code = "procedure p begin";
    let mut messages = MessageHandler::new();
    let result = with_partial_stream(|s| parse_subprogram(s, &mut messages), code);
    assert_eq!(
        result,
        Err(ParseError::Unexpected {
            pos: substr_pos(code, "begin", 1),
            got: Kind::Begin,
            expected: vec![Kind::Is, Kind::SemiColon]
        })
    );
}

#[test]
fn dispatch_on_exhausted_stream_reports_end_of_input() {
    let mut stream = stream_of("foo");
    stream.expect_kind(Kind::Identifier).unwrap();
    let arms = [Kind::Identifier, Kind::Comma];
    assert_eq!(
        stream.dispatch_next(&arms),
        Err(ParseError::EndOfInput { expected: vec![Kind::Identifier, Kind::Comma] })
    );
    assert_eq!(
        stream.dispatch_next(&arms),
        Err(ParseError::EndOfInput { expected: vec![Kind::Identifier, Kind::Comma] })
    );
    assert_eq!(
        with_partial_stream(parse_signature, ""),
        Err(ParseError::EndOfInput { expected: vec![Kind::LeftSquare] })
    );
}

#[test]
fn dispatch_picks_first_matching_arm() {
    let token = Token { kind: Kind::Comma, text: String::from(","), pos: SrcPos { line: 2, column: 3 } };
    assert_eq!(dispatch(&token, &[Kind::Colon, Kind::Comma]), Ok(1));
    assert_eq!(
        dispatch(&token, &[Kind::Colon]),
        Err(ParseError::Unexpected {
            pos: SrcPos { line: 2, column: 3 },
            got: Kind::Comma,
            expected: vec![Kind::Colon]
        })
    );
}

#[test]
fn selected_name_rejects_trailing_dot() {
    let result = with_partial_stream(parse_selected_name, "a.");
    assert_eq!(result, Err(ParseError::EndOfInput { expected: vec![Kind::Identifier] }));
    assert_eq!(with_stream(parse_selected_name, "a.b.c").len(), 3);
}

#[test]
fn expression_keeps_operands_and_operators() {
    let e = with_stream(parse_expression, "a + 1 * b");
    let kinds: Vec<Kind> = e.items.iter().map(|t| t.kind).collect();
    assert_eq!(
        kinds,
        vec![Kind::Identifier, Kind::Plus, Kind::AbstractLiteral, Kind::Times, Kind::Identifier]
    );
}
