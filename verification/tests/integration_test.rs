use sql_aware::artifact::Artifact;
use sql_aware::classify::check_expression;
use sql_aware::error::CompileError;
use sql_aware::sql;
use sql_aware::token::RawToken;
use sql_aware::validate::validate;

fn word(text: &str) -> RawToken {
    RawToken::Ident(text.to_string())
}

fn string(value: &str) -> RawToken {
    RawToken::Literal(format!("{:?}", value))
}

fn number(text: &str) -> RawToken {
    RawToken::Literal(text.to_string())
}

fn braces(expression: &str) -> RawToken {
    RawToken::Braced(expression.to_string())
}

fn punct(c: char) -> RawToken {
    RawToken::Punct(c)
}

fn select_users() -> Vec<RawToken> {
    vec![
        word("SELECT"),
        word("users"),
        punct('.'),
        word("name"),
        word("FROM"),
        braces("table_name"),
        word("WHERE"),
        word("deleted"),
        word("IS"),
        word("NULL"),
        word("AND"),
        word("name"),
        punct('='),
        string("{name}"),
        word("AND"),
        word("color"),
        punct('='),
        string("blue"),
    ]
}

fn insert_users(table: RawToken) -> Vec<RawToken> {
    vec![
        word("INSERT"),
        word("INTO"),
        table,
        punct('('),
        word("name"),
        punct(','),
        word("email"),
        punct(')'),
        word("VALUES"),
        punct('('),
        punct('$'),
        number("1"),
        punct(','),
        punct('$'),
        number("2"),
        punct(')'),
    ]
}

fn select_page() -> Vec<RawToken> {
    vec![
        word("SELECT"),
        word("id"),
        punct(','),
        word("name"),
        word("FROM"),
        word("users"),
        word("WHERE"),
        word("active"),
        punct('='),
        word("true"),
        word("LIMIT"),
        braces("limit"),
        word("OFFSET"),
        braces("offset"),
    ]
}

#[test]
fn test_sql() {
    let table_name = "users";
    let name = "John Doe";
    let input = match sql(select_users()) {
        Ok(Artifact::Formatter { template, arguments }) => {
            assert_eq!(
                template,
                "SELECT users.name FROM {} WHERE deleted IS NULL AND name = '{name}' AND color = 'blue'"
            );
            assert_eq!(arguments, vec!["table_name".to_string()]);
            format!(
                "SELECT users.name FROM {} WHERE deleted IS NULL AND name = '{name}' AND color = 'blue'",
                table_name
            )
        }
        other => panic!("no formatter: {:?}", other),
    };

    let limit = 10;
    let offset = 20;

    let query = match sql(insert_users(word("users"))) {
        Ok(Artifact::Constant(text)) => text,
        other => panic!("no constant: {:?}", other),
    };
    assert_eq!(query, "INSERT INTO users (name, email) VALUES ($1, $2)");

    let query = match sql(select_page()) {
        Ok(Artifact::Formatter { template, arguments }) => {
            assert_eq!(
                template,
                "SELECT id, name FROM users WHERE active = true LIMIT {} OFFSET {}"
            );
            assert_eq!(arguments, vec!["limit".to_string(), "offset".to_string()]);
            format!(
                "SELECT id, name FROM users WHERE active = true LIMIT {} OFFSET {}",
                limit, offset
            )
        }
        other => panic!("no formatter: {:?}", other),
    };

    println!("query: {:#?}\n\n", query);

    let expected = "SELECT users.name FROM users WHERE deleted IS NULL AND name = 'John Doe' AND color = 'blue'";

    println!("{:#?}\n\n", input);

    assert_eq!(expected.to_string(), input.to_string());
}

#[test]
fn test_sql_with_dollar_sign() {
    let table_name = "users";
    let input = match sql(insert_users(braces("table_name"))) {
        Ok(Artifact::Formatter { template, arguments }) => {
            assert_eq!(template, "INSERT INTO {} (name, email) VALUES ($1, $2)");
            assert_eq!(arguments, vec!["table_name".to_string()]);
            format!("INSERT INTO {} (name, email) VALUES ($1, $2)", table_name)
        }
        other => panic!("no formatter: {:?}", other),
    };

    let expected = "INSERT INTO users (name, email) VALUES ($1, $2)";

    println!("{:#?}\n\n", input);

    assert_eq!(expected.to_string(), input.to_string());
}

#[test]
fn insert_with_bind_markers_is_a_constant() {
    let made = sql(insert_users(word("users")));
    assert_eq!(
        made,
        Ok(Artifact::Constant(
            "INSERT INTO users (name, email) VALUES ($1, $2)".to_string()
        ))
    );
}

#[test]
fn bare_values_list_fails_with_dummy_literals_in_the_checked_text() {
    let made = sql(vec![
        word("INSERT"),
        word("INTO"),
        word("users"),
        punct('('),
        word("name"),
        punct(','),
        word("email"),
        punct(')'),
        word("VALUES"),
        punct('$'),
        number("1"),
        punct(','),
        punct('$'),
        number("2"),
    ]);
    match made {
        Err(CompileError::GrammarValidationFailed { checked, .. }) => {
            assert_eq!(
                checked,
                "INSERT INTO users (name, email) VALUES 'dummy_value', 'dummy_value'"
            );
        }
        other => panic!("no failed validation: {:?}", other),
    }
}

#[test]
fn page_query_renders_with_its_arguments_in_order() {
    let limit = 10;
    let offset = 20;
    let rendered = match sql(select_page()) {
        Ok(Artifact::Formatter { template, arguments }) => {
            assert_eq!(
                template,
                "SELECT id, name FROM users WHERE active = true LIMIT {} OFFSET {}"
            );
            assert_eq!(arguments, vec!["limit".to_string(), "offset".to_string()]);
            format!(
                "SELECT id, name FROM users WHERE active = true LIMIT {} OFFSET {}",
                limit, offset
            )
        }
        other => panic!("no formatter: {:?}", other),
    };
    assert_eq!(
        rendered,
        "SELECT id, name FROM users WHERE active = true LIMIT 10 OFFSET 20"
    );
}

#[test]
fn invalid_grammar_fails_the_validation() {
    let made = sql(vec![word("SELECT"), word("FROM"), word("FROM"), word("WHERE")]);
    match made {
        Err(CompileError::GrammarValidationFailed { reason, checked }) => {
            assert_eq!(checked, "SELECT FROM FROM WHERE");
            assert!(reason.starts_with("sql parser error: "));
        }
        other => panic!("no failed validation: {:?}", other),
    }
}

#[test]
fn failed_validation_message_holds_prefix_error_and_text() {
    let error = sql(vec![word("SELECT"), word("FROM"), word("FROM"), word("WHERE")])
        .expect_err("the template is no query");
    let reason = match &error {
        CompileError::GrammarValidationFailed { reason, .. } => reason.clone(),
        other => panic!("no failed validation: {:?}", other),
    };
    assert_eq!(
        error.message(),
        format!(
            "Erro de sintaxe na query SQL: {}\n\nSELECT FROM FROM WHERE",
            reason
        )
    );
}

#[test]
fn malformed_brace_group_fails_at_its_position() {
    let made = sql(vec![
        word("SELECT"),
        braces("a"),
        word("FROM"),
        braces("let"),
        braces("also let"),
    ]);
    match made {
        Err(CompileError::TemplateMalformed { position, reason }) => {
            assert_eq!(position, 3);
            assert!(!reason.is_empty());
        }
        other => panic!("no malformed template: {:?}", other),
    }
}

#[test]
fn brace_group_with_two_expressions_is_malformed() {
    let made = sql(vec![word("SELECT"), braces("a b")]);
    match made {
        Err(CompileError::TemplateMalformed { position, .. }) => assert_eq!(position, 1),
        other => panic!("no malformed template: {:?}", other),
    }
}

#[test]
fn malformed_template_message_is_its_reason() {
    let error = sql(vec![braces("")]).expect_err("an empty brace group holds no expression");
    match &error {
        CompileError::TemplateMalformed { position, reason } => {
            assert_eq!(*position, 0);
            assert_eq!(error.message(), *reason);
        }
        other => panic!("no malformed template: {:?}", other),
    }
}

#[test]
fn the_same_template_compiles_to_the_same_artifact() {
    assert_eq!(sql(select_users()), sql(select_users()));
    assert_eq!(sql(select_page()), sql(select_page()));
    let failing = vec![word("SELECT"), word("FROM"), word("FROM"), word("WHERE")];
    assert_eq!(sql(failing.clone()), sql(failing));
}

#[test]
fn bind_markers_in_parentheses_are_checked_as_dummy_literals() {
    let mut tokens = insert_users(word("users"));
    tokens.push(punct(')'));
    match sql(tokens) {
        Err(CompileError::GrammarValidationFailed { checked, .. }) => {
            assert_eq!(
                checked,
                "INSERT INTO users (name, email) VALUES ('dummy_value', 'dummy_value'))"
            );
        }
        other => panic!("no failed validation: {:?}", other),
    }
}

#[test]
fn brace_groups_in_parentheses_are_interpolations() {
    let a = 1;
    let b = 2;
    let rendered = match sql(vec![
        word("INSERT"),
        word("INTO"),
        word("t"),
        word("VALUES"),
        punct('('),
        braces("a"),
        punct(','),
        braces("b"),
        punct(')'),
    ]) {
        Ok(Artifact::Formatter { template, arguments }) => {
            assert_eq!(template, "INSERT INTO t VALUES ({}, {})");
            assert_eq!(arguments, vec!["a".to_string(), "b".to_string()]);
            format!("INSERT INTO t VALUES ({}, {})", a, b)
        }
        other => panic!("no formatter: {:?}", other),
    };
    assert_eq!(rendered, "INSERT INTO t VALUES (1, 2)");
}

#[test]
fn a_malformed_brace_group_in_parentheses_fails() {
    match sql(vec![word("SELECT"), punct('('), braces(""), punct(')')]) {
        Err(CompileError::TemplateMalformed { position, .. }) => assert_eq!(position, 2),
        other => panic!("no malformed template: {:?}", other),
    }
}

#[test]
fn the_reason_of_a_failed_validation_is_the_grammar_error() {
    let text = "SELECT FROM FROM WHERE";
    let expected = match validate(text) {
        Err(CompileError::GrammarValidationFailed { reason, .. }) => reason,
        other => panic!("no failed validation: {:?}", other),
    };
    assert!(expected.len() > "sql parser error: ".len());
    match sql(vec![word("SELECT"), word("FROM"), word("FROM"), word("WHERE")]) {
        Err(CompileError::GrammarValidationFailed { reason, checked }) => {
            assert_eq!(reason, expected);
            assert_eq!(checked, text);
        }
        other => panic!("no failed validation: {:?}", other),
    }
}

#[test]
fn the_reason_of_a_malformed_template_is_the_expression_error() {
    let expected = check_expression("let").expect_err("a keyword is no expression");
    assert!(!expected.is_empty());
    assert_eq!(
        sql(vec![word("SELECT"), braces("let")]),
        Err(CompileError::TemplateMalformed { position: 1, reason: expected })
    );
}
