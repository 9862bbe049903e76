//! Tokens to expressions: integers, symbols, quoted expressions, and
//! parenthesised lists, proper or dotted.
use std::rc::Rc;
use vstd::prelude::*;

use crate::lexer::{Lexeme, Token};
use crate::semantics::{pair, Value};
use crate::symbol::valid_symbol;
use crate::types::{Cons, Object, Quote, Symbol};

verus! {

pub open spec fn is_digit(c: char) -> bool {
    '0' <= c <= '9'
}

/// The value of a string of decimal digits.
pub open spec fn digits_value(s: Seq<char>) -> int
    decreases s.len(),
{
    if s.len() == 0 {
        0
    } else {
        digits_value(s.drop_last()) * 10 + (s.last() as int - '0' as int)
    }
}

/// An optional `+` or `-` followed by one or more decimal digits whose value
/// fits in `i32`: that value.
pub open spec fn decimal_i32(s: Seq<char>) -> Option<i32> {
    let signed = s.len() > 0 && (s[0] == '+' || s[0] == '-');
    let digits = if signed {
        s.drop_first()
    } else {
        s
    };
    let magnitude = digits_value(digits);
    let v = if signed && s[0] == '-' {
        -magnitude
    } else {
        magnitude
    };
    if digits.len() > 0 && (forall|i: int| 0 <= i < digits.len() ==> is_digit(#[trigger] digits[i]))
        && i32::MIN <= v <= i32::MAX {
        Some(v as i32)
    } else {
        None
    }
}

/// Relies on `str::parse::<i32>`: an optional `+` or `-` and one or more
/// decimal digits whose value fits in `i32` give that value; anything else
/// (empty, other characters, overflow) is an error.
#[verifier::external_body]
fn parse_i32(s: &str) -> (r: Option<i32>)
    ensures
        r == decimal_i32(s@),
{
    s.parse::<i32>().ok()
}

/// The expression that starts at position `i` of `t`, with the position after it.
pub open spec fn parse_expr(t: Seq<Lexeme>, i: int) -> Option<(Value, int)>
    decreases t.len() - i, 0int,
{
    if i < 0 || i >= t.len() {
        None
    } else {
        match t[i] {
            Lexeme::LParen => parse_items(t, i + 1),
            Lexeme::Quote => match parse_expr(t, i + 1) {
                Some((e, j)) => Some((Value::Quote(Box::new(e)), j)),
                None => None,
            },
            Lexeme::Ident(s) => match decimal_i32(s) {
                Some(n) => Some((Value::Integer(n), i + 1)),
                None => if valid_symbol(s) {
                    Some((Value::Symbol(s), i + 1))
                } else {
                    None
                },
            },
            Lexeme::RParen => None,
        }
    }
}

/// The rest of a list from position `i`, after its opening parenthesis: the
/// elements up to the closing one, or up to a `.` and the one last element.
/// (A parse always moves forward, `lemma_parse_advances`; the test of `j`
/// against `i` only bounds the recursion.)
pub open spec fn parse_items(t: Seq<Lexeme>, i: int) -> Option<(Value, int)>
    decreases t.len() - i, 1int,
{
    if i < 0 || i >= t.len() {
        None
    } else if t[i] is RParen {
        Some((Value::Nil, i + 1))
    } else {
        match parse_expr(t, i) {
            None => None,
            Some((first, j)) => if j <= i || j > t.len() {
                None
            } else if j < t.len() && t[j] == Lexeme::Ident("."@) {
                match parse_expr(t, j + 1) {
                    Some((last, k)) => if 0 <= k < t.len() && t[k] is RParen {
                        Some((pair(first, last), k + 1))
                    } else {
                        None
                    },
                    None => None,
                }
            } else {
                match parse_items(t, j) {
                    Some((rest, k)) => Some((pair(first, rest), k)),
                    None => None,
                }
            },
        }
    }
}

/// Expressions one after another from position `i` to the end of `t`.
pub open spec fn parse_all(t: Seq<Lexeme>, i: int) -> Option<Seq<Value>>
    decreases t.len() - i,
{
    match parse_expr(t, i) {
        Some((e, j)) => if j <= i || j > t.len() {
            None
        } else {
            match parse_all(t, j) {
                Some(es) => Some(seq![e] + es),
                None => None,
            }
        },
        None => if i == t.len() {
            Some(seq![])
        } else {
            None
        },
    }
}

/// A parse moves forward and stays within the tokens.
pub proof fn lemma_parse_advances(t: Seq<Lexeme>, i: int)
    ensures
        parse_expr(t, i) matches Some((_, j)) ==> i < j <= t.len(),
        parse_items(t, i) matches Some((_, j)) ==> i < j <= t.len(),
    decreases t.len() - i,
{
    if 0 <= i < t.len() {
        lemma_parse_advances(t, i + 1);
        match parse_expr(t, i) {
            Some((_, j)) => {
                if i < j && j <= t.len() {
                    lemma_parse_advances(t, j);
                }
                if i < j && j < t.len() {
                    lemma_parse_advances(t, j + 1);
                }
            },
            None => {},
        }
    }
}

pub open spec fn lexemes(tokens: Seq<Token>) -> Seq<Lexeme> {
    tokens.map_values(|t: Token| t@)
}

fn is_dot(token: &Token) -> (r: bool)
    ensures
        r == (token@ == Lexeme::Ident("."@)),
{
    proof {
        reveal_strlit(".");
    }
    match token {
        Token::Ident(s) => {
            let text = s.as_str();
            if text.unicode_len() == 1 {
                let c = text.get_char(0);
                proof {
                    if c == '.' {
                        assert(s@ =~= "."@);
                    }
                }
                c == '.'
            } else {
                false
            }
        },
        _ => false,
    }
}

fn parse_expr_at(tokens: &[Token], i: usize) -> (r: Option<(Object, usize)>)
    ensures
        match r {
            Some((e, j)) => parse_expr(lexemes(tokens@), i as int) == Some((e@, j as int)),
            None => parse_expr(lexemes(tokens@), i as int) is None,
        },
    decreases tokens@.len() - i, 0nat,
{
    let ghost t = lexemes(tokens@);
    if i >= tokens.len() {
        return None;
    }
    proof {
        lemma_parse_advances(t, i as int + 1);
    }
    match &tokens[i] {
        Token::LParen => match parse_items_at(tokens, i + 1) {
            Some((items, j)) => Some((Object::Cons(items), j)),
            None => None,
        },
        Token::Quote => match parse_expr_at(tokens, i + 1) {
            Some((e, j)) => Some((Object::Quote(Quote(Rc::new(e))), j)),
            None => None,
        },
        Token::Ident(s) => match parse_i32(s.as_str()) {
            Some(n) => Some((Object::Integer(n), i + 1)),
            None => match Symbol::from_str(s.as_str()) {
                Ok(symbol) => Some((Object::Symbol(symbol), i + 1)),
                Err(()) => None,
            },
        },
        Token::RParen => None,
    }
}

fn parse_items_at(tokens: &[Token], i: usize) -> (r: Option<(Cons, usize)>)
    ensures
        match r {
            Some((e, j)) => parse_items(lexemes(tokens@), i as int) == Some((e@, j as int)),
            None => parse_items(lexemes(tokens@), i as int) is None,
        },
    decreases tokens@.len() - i, 1nat,
{
    let ghost t = lexemes(tokens@);
    if i >= tokens.len() {
        return None;
    }
    if let Token::RParen = &tokens[i] {
        return Some((Cons(None), i + 1));
    }
    proof {
        lemma_parse_advances(t, i as int);
    }
    let (first, j) = match parse_expr_at(tokens, i) {
        Some(p) => p,
        None => return None,
    };
    proof {
        lemma_parse_advances(t, j as int);
        lemma_parse_advances(t, j as int + 1);
    }
    if j < tokens.len() && is_dot(&tokens[j]) {
        let (last, k) = match parse_expr_at(tokens, j + 1) {
            Some(p) => p,
            None => return None,
        };
        if k < tokens.len() {
            if let Token::RParen = &tokens[k] {
                return Some((Cons(Some((Rc::new(first), Rc::new(last)))), k + 1));
            }
        }
        None
    } else {
        match parse_items_at(tokens, j) {
            Some((rest, k)) => Some((Cons(Some((Rc::new(first), Rc::new(Object::Cons(rest))))), k)),
            None => None,
        }
    }
}

/// The expression at the start of `tokens`, with the tokens after it.
pub fn parse_expression(tokens: &[Token]) -> (r: Option<(Object, &[Token])>)
    ensures
        match r {
            Some((e, rest)) => parse_expr(lexemes(tokens@), 0) == Some(
                (e@, tokens@.len() - rest@.len()),
            ) && rest@ == tokens@.subrange(tokens@.len() - rest@.len(), tokens@.len() as int),
            None => parse_expr(lexemes(tokens@), 0) is None,
        },
{
    proof {
        lemma_parse_advances(lexemes(tokens@), 0);
    }
    match parse_expr_at(tokens, 0) {
        Some((e, j)) => Some((e, &tokens[j..tokens.len()])),
        None => None,
    }
}

/// All the expressions of `tokens`, in order, when they make up the whole of
/// it; the tokens left over (none) come with them.
pub fn parse_expressions(tokens: &[Token]) -> (r: Option<(Vec<Object>, &[Token])>)
    ensures
        match r {
            Some((es, rest)) => parse_all(lexemes(tokens@), 0) == Some(
                es@.map_values(|e: Object| e@),
            ) && rest@.len() == 0,
            None => parse_all(lexemes(tokens@), 0) is None,
        },
{
    let ghost t = lexemes(tokens@);
    let mut ret: Vec<Object> = Vec::new();
    let mut i: usize = 0;
    loop
        invariant
            i <= tokens@.len(),
            t == lexemes(tokens@),
            parse_all(t, 0) == (match parse_all(t, i as int) {
                Some(es) => Some(ret@.map_values(|e: Object| e@) + es),
                None => None::<Seq<Value>>,
            }),
        decreases tokens@.len() - i,
    {
        proof {
            lemma_parse_advances(t, i as int);
        }
        match parse_expr_at(tokens, i) {
            Some((e, j)) => {
                let ghost old_ret = ret@.map_values(|e: Object| e@);
                let ghost ev = e@;
                ret.push(e);
                proof {
                    assert(ret@.map_values(|e: Object| e@) =~= old_ret + seq![ev]);
                    match parse_all(t, j as int) {
                        Some(es) => {
                            assert(old_ret + (seq![ev] + es) =~= old_ret + seq![ev] + es);
                        },
                        None => {},
                    }
                }
                i = j;
            },
            None => {
                if i == tokens.len() {
                    proof {
                        assert(ret@.map_values(|e: Object| e@) + seq![] =~= ret@.map_values(|e: Object| e@));
                    }
                    return Some((ret, &tokens[i..tokens.len()]));
                } else {
                    return None;
                }
            },
        }
    }
}

} // verus!
