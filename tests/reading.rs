use tinylisp::lexer::{lex, Token};
use tinylisp::parser::{parse_expression, parse_expressions};
use tinylisp::types::{Object, Symbol};

fn ident(s: &str) -> Token {
    Token::Ident(s.to_string())
}

fn parse_all_rendered(source: &str) -> Option<Vec<String>> {
    let tokens = lex(source);
    parse_expressions(&tokens).map(|(exprs, rest)| {
        assert!(rest.is_empty());
        exprs.iter().map(|e| e.render()).collect()
    })
}

#[test]
fn lex_splits_parentheses_quotes_and_identifiers() {
    assert_eq!(
        lex("(+ 1 'x)"),
        vec![Token::LParen, ident("+"), ident("1"), Token::Quote, ident("x"), Token::RParen]
    );
    assert_eq!(lex("  \t\n"), vec![]);
    assert_eq!(lex(""), vec![]);
    assert_eq!(lex("ab(cd)ef'gh"), vec![
        ident("ab"),
        Token::LParen,
        ident("cd"),
        Token::RParen,
        ident("ef"),
        Token::Quote,
        ident("gh"),
    ]);
}

#[test]
fn lex_treats_unicode_whitespace_as_a_separator() {
    assert_eq!(lex("a\u{00A0}b\u{2003}c"), vec![ident("a"), ident("b"), ident("c")]);
    assert_eq!(lex("\r\nx\t"), vec![ident("x")]);
}

#[test]
fn parse_integers_symbols_and_quotes() {
    assert_eq!(parse_all_rendered("-17 +5 0 abc 'q"), Some(vec![
        "-17".to_string(),
        "5".to_string(),
        "0".to_string(),
        "abc".to_string(),
        "(quote q)".to_string(),
    ]));
    assert_eq!(parse_all_rendered("2147483647 -2147483648"), Some(vec![
        "2147483647".to_string(),
        "-2147483648".to_string(),
    ]));
}

#[test]
fn parse_rejects_what_is_neither_integer_nor_symbol() {
    assert_eq!(parse_all_rendered("2147483648"), None);
    assert_eq!(parse_all_rendered("12a"), None);
    assert_eq!(parse_all_rendered("."), None);
    assert_eq!(parse_all_rendered("1_000"), None);
}

#[test]
fn parse_lists_proper_and_dotted() {
    assert_eq!(parse_all_rendered("(1 2 3)"), Some(vec!["(1 2 3)".to_string()]));
    assert_eq!(parse_all_rendered("(1 . 2)"), Some(vec!["(1 . 2)".to_string()]));
    assert_eq!(parse_all_rendered("(1 2 . 3)"), Some(vec!["(1 2 . 3)".to_string()]));
    assert_eq!(parse_all_rendered("()"), Some(vec!["()".to_string()]));
    assert_eq!(parse_all_rendered("(a (b c) '(d))"), Some(vec!["(a (b c) (quote (d)))".to_string()]));
}

#[test]
fn parse_rejects_unbalanced_or_malformed_lists() {
    assert_eq!(parse_all_rendered("(1 2"), None);
    assert_eq!(parse_all_rendered(")"), None);
    assert_eq!(parse_all_rendered("(1 . 2 3)"), None);
    assert_eq!(parse_all_rendered("(1 .)"), None);
    assert_eq!(parse_all_rendered("'"), None);
}

#[test]
fn parse_expression_returns_the_rest() {
    let tokens = lex("(a b) c d");
    let (e, rest) = parse_expression(&tokens).unwrap();
    assert_eq!(e.render(), "(a b)");
    assert_eq!(rest, &[ident("c"), ident("d")][..]);
    assert!(parse_expression(&lex(")")).is_none());
    assert!(parse_expression(&[]).is_none());
}

#[test]
fn parse_expressions_of_nothing_is_empty() {
    assert_eq!(parse_all_rendered(""), Some(vec![]));
}

#[test]
fn symbol_names() {
    for ok in ["abc", "+", "-", "...", "int->bool", "nil?", "a1", "x.y@z", "!$%&*/:<=>?^_~", "éa", "λ"] {
        let s = Symbol::from_str(ok).unwrap_or_else(|_| panic!("{ok} is a symbol"));
        assert_eq!(Object::Symbol(s).render(), ok);
    }
    for bad in ["", "1abc", "..", "a b", "+a", ".a", "@", "a(b", "-1"] {
        assert!(Symbol::from_str(bad).is_err(), "{bad} is no symbol");
    }
}

#[test]
fn lex_separates_exactly_at_unicode_whitespace() {
    for code in 0u32..0x3100 {
        let Some(c) = char::from_u32(code) else { continue };
        if c == '(' || c == ')' || c == '\'' {
            continue;
        }
        let tokens = lex(&format!("a{c}b"));
        let expected = if c.is_whitespace() {
            vec![ident("a"), ident("b")]
        } else {
            vec![Token::Ident(format!("a{c}b"))]
        };
        assert_eq!(tokens, expected, "character U+{code:04X}");
    }
}
