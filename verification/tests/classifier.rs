use sql_aware::classify::{
    brace_part_of, check_expression, classify_literal, digits_at, dollar_part_of, literal_part_of,
    SqlInput,
};
use sql_aware::error::CompileError;
use sql_aware::part::SqlPart;
use sql_aware::token::RawToken;

fn word(text: &str) -> RawToken {
    RawToken::Ident(text.to_string())
}

fn lit(text: &str) -> RawToken {
    RawToken::Literal(text.to_string())
}

fn braces(text: &str) -> RawToken {
    RawToken::Braced(text.to_string())
}

fn parts_of(tokens: Vec<RawToken>) -> Vec<SqlPart> {
    match SqlInput::parse(&tokens) {
        Ok(input) => input.parts,
        Err(error) => panic!("no template: {:?}", error),
    }
}

#[test]
fn no_tokens_give_no_parts() {
    assert_eq!(parts_of(Vec::new()), Vec::new());
}

#[test]
fn an_identifier_is_a_keyword() {
    assert_eq!(
        parts_of(vec![word("SELECT"), word("where"), word("r#type")]),
        vec![
            SqlPart::Keyword("SELECT".to_string()),
            SqlPart::Keyword("where".to_string()),
            SqlPart::Keyword("r#type".to_string()),
        ]
    );
}

#[test]
fn a_string_literal_is_taken_by_its_value() {
    assert_eq!(
        parts_of(vec![lit("\"blue\""), lit("\"a\\nb\\\"c\""), lit("r#\"x\"y\"#"), lit("\"\"")]),
        vec![
            SqlPart::StringLiteral("blue".to_string()),
            SqlPart::StringLiteral("a\nb\"c".to_string()),
            SqlPart::StringLiteral("x\"y".to_string()),
            SqlPart::StringLiteral("".to_string()),
        ]
    );
}

#[test]
fn a_text_between_double_quotes_loses_them() {
    assert_eq!(
        classify_literal("\"a\" \"b\""),
        SqlPart::StringLiteral("a\" \"b".to_string())
    );
    assert_eq!(classify_literal("\"\\q\""), SqlPart::StringLiteral("\\q".to_string()));
}

#[test]
fn any_other_literal_stays_as_it_is() {
    assert_eq!(classify_literal("10"), SqlPart::Other("10".to_string()));
    assert_eq!(classify_literal("1.5"), SqlPart::Other("1.5".to_string()));
    assert_eq!(classify_literal("'c'"), SqlPart::Other("'c'".to_string()));
    assert_eq!(classify_literal("b\"ab\""), SqlPart::Other("b\"ab\"".to_string()));
    assert_eq!(classify_literal("\""), SqlPart::Other("\"".to_string()));
    assert_eq!(classify_literal(""), SqlPart::Other("".to_string()));
}

#[test]
fn a_symbol_is_a_punct() {
    assert_eq!(
        parts_of(vec![RawToken::Punct('='), RawToken::Punct('*'), RawToken::Punct(',')]),
        vec![SqlPart::Punct('='), SqlPart::Punct('*'), SqlPart::Punct(',')]
    );
}

#[test]
fn parentheses_and_what_stands_between_them_are_parts_of_their_own() {
    assert_eq!(
        parts_of(vec![
            RawToken::Punct('('),
            word("name"),
            RawToken::Punct(','),
            word("email"),
            RawToken::Punct(')'),
        ]),
        vec![
            SqlPart::Punct('('),
            SqlPart::Keyword("name".to_string()),
            SqlPart::Punct(','),
            SqlPart::Keyword("email".to_string()),
            SqlPart::Punct(')'),
        ]
    );
    assert_eq!(
        parts_of(vec![RawToken::Punct('['), lit("1"), RawToken::Punct(']')]),
        vec![SqlPart::Punct('['), SqlPart::Other("1".to_string()), SqlPart::Punct(']')]
    );
}

#[test]
fn a_brace_group_between_parentheses_is_an_interpolation() {
    assert_eq!(
        parts_of(vec![
            RawToken::Punct('('),
            braces("a"),
            RawToken::Punct(','),
            RawToken::Punct('$'),
            lit("1"),
            RawToken::Punct(')'),
        ]),
        vec![
            SqlPart::Punct('('),
            SqlPart::Interpolation("a".to_string()),
            SqlPart::Punct(','),
            SqlPart::Placeholder("$1".to_string()),
            SqlPart::Punct(')'),
        ]
    );
    match SqlInput::parse(&vec![word("SELECT"), RawToken::Punct('('), braces(""), RawToken::Punct(')')]) {
        Err(CompileError::TemplateMalformed { position, .. }) => assert_eq!(position, 2),
        other => panic!("no malformed template: {:?}", other),
    }
}

#[test]
fn the_same_tokens_classify_to_the_same_result() {
    let good = vec![word("SELECT"), braces("a"), lit("\"b\"")];
    assert_eq!(SqlInput::parse(&good), SqlInput::parse(&good));
    let bad = vec![word("SELECT"), braces("a b")];
    assert_eq!(SqlInput::parse(&bad), SqlInput::parse(&bad));
}

#[test]
fn a_brace_group_is_an_interpolation() {
    assert_eq!(
        parts_of(vec![braces("table_name"), braces("limit + 1"), braces("f(a, b)[0]")]),
        vec![
            SqlPart::Interpolation("table_name".to_string()),
            SqlPart::Interpolation("limit + 1".to_string()),
            SqlPart::Interpolation("f(a, b)[0]".to_string()),
        ]
    );
}

#[test]
fn a_brace_group_without_an_expression_is_malformed() {
    for content in ["", "let", "a b", "+", "fn f() {}", "\""] {
        match SqlInput::parse(&vec![word("SELECT"), braces(content)]) {
            Err(CompileError::TemplateMalformed { position, reason }) => {
                assert_eq!(position, 1, "{:?}", content);
                assert!(!reason.is_empty());
            }
            other => panic!("{:?} is no expression, but: {:?}", content, other),
        }
    }
}

#[test]
fn the_first_malformed_brace_group_is_reported() {
    let tokens = vec![braces("a"), RawToken::Punct('$'), lit("1"), braces("let"), braces("+")];
    match SqlInput::parse(&tokens) {
        Err(CompileError::TemplateMalformed { position, .. }) => assert_eq!(position, 3),
        other => panic!("no malformed template: {:?}", other),
    }
}

#[test]
fn a_dollar_sign_with_an_integer_is_a_placeholder() {
    assert_eq!(
        parts_of(vec![
            RawToken::Punct('$'),
            lit("1"),
            RawToken::Punct(','),
            RawToken::Punct('$'),
            lit("22"),
        ]),
        vec![
            SqlPart::Placeholder("$1".to_string()),
            SqlPart::Punct(','),
            SqlPart::Placeholder("$22".to_string()),
        ]
    );
}

#[test]
fn a_placeholder_holds_the_base_ten_digits() {
    assert_eq!(
        parts_of(vec![
            RawToken::Punct('$'),
            lit("0x10"),
            RawToken::Punct('$'),
            lit("1_000u32"),
        ]),
        vec![
            SqlPart::Placeholder("$16".to_string()),
            SqlPart::Placeholder("$1000".to_string()),
        ]
    );
}

#[test]
fn a_lone_dollar_sign_is_a_punct() {
    assert_eq!(parts_of(vec![RawToken::Punct('$')]), vec![SqlPart::Punct('$')]);
    assert_eq!(
        parts_of(vec![RawToken::Punct('$'), word("a")]),
        vec![SqlPart::Punct('$'), SqlPart::Keyword("a".to_string())]
    );
    assert_eq!(
        parts_of(vec![RawToken::Punct('$'), lit("1.5")]),
        vec![SqlPart::Punct('$'), SqlPart::Other("1.5".to_string())]
    );
    assert_eq!(
        parts_of(vec![RawToken::Punct('$'), lit("\"1\"")]),
        vec![SqlPart::Punct('$'), SqlPart::StringLiteral("1".to_string())]
    );
    assert_eq!(
        parts_of(vec![RawToken::Punct('$'), RawToken::Punct('$'), lit("1")]),
        vec![SqlPart::Punct('$'), SqlPart::Placeholder("$1".to_string())]
    );
}

#[test]
fn an_integer_without_a_dollar_sign_is_another_token() {
    assert_eq!(
        parts_of(vec![word("LIMIT"), lit("10")]),
        vec![SqlPart::Keyword("LIMIT".to_string()), SqlPart::Other("10".to_string())]
    );
}

#[test]
fn digits_at_reads_integer_literals_only() {
    let tokens = vec![lit("7"), word("a"), lit("\"7\""), lit("0b101"), lit("7.0")];
    assert_eq!(digits_at(&tokens, 0), Some("7".to_string()));
    assert_eq!(digits_at(&tokens, 1), None);
    assert_eq!(digits_at(&tokens, 2), None);
    assert_eq!(digits_at(&tokens, 3), Some("5".to_string()));
    assert_eq!(digits_at(&tokens, 4), None);
    assert_eq!(digits_at(&tokens, 5), None);
}

#[test]
fn every_token_is_covered_once_and_in_order() {
    assert_eq!(
        parts_of(vec![
            word("SELECT"),
            word("users"),
            RawToken::Punct('.'),
            word("name"),
            word("FROM"),
            braces("table_name"),
            word("WHERE"),
            word("id"),
            RawToken::Punct('='),
            RawToken::Punct('$'),
            lit("1"),
            word("AND"),
            word("color"),
            RawToken::Punct('='),
            lit("\"blue\""),
            word("LIMIT"),
            lit("10"),
            RawToken::Punct('('),
            word("x"),
            RawToken::Punct(')'),
        ]),
        vec![
            SqlPart::Keyword("SELECT".to_string()),
            SqlPart::Keyword("users".to_string()),
            SqlPart::Punct('.'),
            SqlPart::Keyword("name".to_string()),
            SqlPart::Keyword("FROM".to_string()),
            SqlPart::Interpolation("table_name".to_string()),
            SqlPart::Keyword("WHERE".to_string()),
            SqlPart::Keyword("id".to_string()),
            SqlPart::Punct('='),
            SqlPart::Placeholder("$1".to_string()),
            SqlPart::Keyword("AND".to_string()),
            SqlPart::Keyword("color".to_string()),
            SqlPart::Punct('='),
            SqlPart::StringLiteral("blue".to_string()),
            SqlPart::Keyword("LIMIT".to_string()),
            SqlPart::Other("10".to_string()),
            SqlPart::Punct('('),
            SqlPart::Keyword("x".to_string()),
            SqlPart::Punct(')'),
        ]
    );
}

#[test]
fn a_literal_with_a_value_is_a_string_literal() {
    assert_eq!(
        literal_part_of("\"a\\nb\"", Some("a\nb".to_string())),
        SqlPart::StringLiteral("a\nb".to_string())
    );
    assert_eq!(
        literal_part_of("10", Some("ten".to_string())),
        SqlPart::StringLiteral("ten".to_string())
    );
}

#[test]
fn a_literal_without_a_value_is_told_by_its_quotes() {
    assert_eq!(literal_part_of("\"blue\"", None), SqlPart::StringLiteral("blue".to_string()));
    assert_eq!(literal_part_of("\"\"", None), SqlPart::StringLiteral("".to_string()));
    assert_eq!(literal_part_of("\"é\"", None), SqlPart::StringLiteral("é".to_string()));
    assert_eq!(literal_part_of("\"", None), SqlPart::Other("\"".to_string()));
    assert_eq!(literal_part_of("\"a", None), SqlPart::Other("\"a".to_string()));
    assert_eq!(literal_part_of("a\"", None), SqlPart::Other("a\"".to_string()));
    assert_eq!(literal_part_of("10", None), SqlPart::Other("10".to_string()));
    assert_eq!(literal_part_of("", None), SqlPart::Other("".to_string()));
}

#[test]
fn a_dollar_sign_takes_the_digits_behind_it() {
    assert_eq!(dollar_part_of(Some("1".to_string())), SqlPart::Placeholder("$1".to_string()));
    assert_eq!(dollar_part_of(Some("".to_string())), SqlPart::Placeholder("$".to_string()));
    assert_eq!(dollar_part_of(None), SqlPart::Punct('$'));
}

#[test]
fn a_brace_group_follows_what_its_content_parsed_to() {
    assert_eq!(
        brace_part_of("limit + 1", 4, Ok(())),
        Ok(SqlPart::Interpolation("limit + 1".to_string()))
    );
    assert_eq!(
        brace_part_of("let", 4, Err("expected an expression".to_string())),
        Err(CompileError::TemplateMalformed {
            position: 4,
            reason: "expected an expression".to_string(),
        })
    );
}

#[test]
fn check_expression_tells_expressions_from_the_rest() {
    assert_eq!(check_expression("a.b(c) + 1"), Ok(()));
    assert_eq!(check_expression("\"text\""), Ok(()));
    assert!(check_expression("a b").is_err());
    assert!(check_expression("").is_err());
    assert!(check_expression("(").is_err());
}
