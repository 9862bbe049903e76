//! Source text to tokens: parentheses, the quote mark, and identifiers
//! separated by whitespace.
use vstd::prelude::*;
use vstd::string::*;

verus! {

/// A token of source text.
#[derive(Clone, PartialEq, Eq, Debug)]
pub enum Token {
    LParen,
    RParen,
    Quote,
    Ident(String),
}

/// What a token is.
pub ghost enum Lexeme {
    LParen,
    RParen,
    Quote,
    Ident(Seq<char>),
}

impl View for Token {
    type V = Lexeme;

    open spec fn view(&self) -> Lexeme {
        match self {
            Token::LParen => Lexeme::LParen,
            Token::RParen => Lexeme::RParen,
            Token::Quote => Lexeme::Quote,
            Token::Ident(s) => Lexeme::Ident(s@),
        }
    }
}

/// Whether `c` has the Unicode `White_Space` property: tab to carriage
/// return, space, next line, no-break space, ogham space mark, the spaces
/// from en quad to hair space, line and paragraph separators, narrow
/// no-break space, medium mathematical space and ideographic space.
pub open spec fn whitespace(c: char) -> bool {
    ||| '\u{9}' <= c <= '\u{d}'
    ||| c == ' '
    ||| c == '\u{85}'
    ||| c == '\u{a0}'
    ||| c == '\u{1680}'
    ||| '\u{2000}' <= c <= '\u{200a}'
    ||| c == '\u{2028}'
    ||| c == '\u{2029}'
    ||| c == '\u{202f}'
    ||| c == '\u{205f}'
    ||| c == '\u{3000}'
}

fn char_is_whitespace(c: char) -> (r: bool)
    ensures
        r == whitespace(c),
{
    ('\u{9}' <= c && c <= '\u{d}') || c == ' ' || c == '\u{85}' || c == '\u{a0}' || c
        == '\u{1680}' || ('\u{2000}' <= c && c <= '\u{200a}') || c == '\u{2028}' || c
        == '\u{2029}' || c == '\u{202f}' || c == '\u{205f}' || c == '\u{3000}'
}

/// A character that ends an identifier.
pub open spec fn delimiter(c: char) -> bool {
    whitespace(c) || c == '(' || c == ')' || c == '\''
}

/// The first position at or after `i` that holds no whitespace (or the end).
pub open spec fn ws_end(s: Seq<char>, i: int) -> int
    decreases s.len() - i,
{
    if 0 <= i < s.len() && whitespace(s[i]) {
        ws_end(s, i + 1)
    } else {
        i
    }
}

/// The first position at or after `i` that holds a delimiter (or the end).
pub open spec fn ident_end(s: Seq<char>, i: int) -> int
    decreases s.len() - i,
{
    if 0 <= i < s.len() && !delimiter(s[i]) {
        ident_end(s, i + 1)
    } else {
        i
    }
}

pub proof fn lemma_ws_end(s: Seq<char>, i: int)
    ensures
        i <= ws_end(s, i),
        i <= s.len() ==> ws_end(s, i) <= s.len(),
        0 <= i && ws_end(s, i) < s.len() ==> !whitespace(s[ws_end(s, i)]),
    decreases s.len() - i,
{
    if 0 <= i < s.len() && whitespace(s[i]) {
        lemma_ws_end(s, i + 1);
    }
}

pub proof fn lemma_ident_end(s: Seq<char>, i: int)
    ensures
        i <= ident_end(s, i),
        i <= s.len() ==> ident_end(s, i) <= s.len(),
        0 <= i < s.len() && !delimiter(s[i]) ==> i < ident_end(s, i),
    decreases s.len() - i,
{
    if 0 <= i < s.len() && !delimiter(s[i]) {
        lemma_ident_end(s, i + 1);
    }
}

/// The tokens of `s` from position `i` on.
pub open spec fn tokens_from(s: Seq<char>, i: int) -> Seq<Lexeme>
    decreases s.len() - i,
    via tokens_from_decreases
{
    let j = ws_end(s, i);
    if i < 0 || j >= s.len() {
        seq![]
    } else if s[j] == '(' {
        seq![Lexeme::LParen] + tokens_from(s, j + 1)
    } else if s[j] == ')' {
        seq![Lexeme::RParen] + tokens_from(s, j + 1)
    } else if s[j] == '\'' {
        seq![Lexeme::Quote] + tokens_from(s, j + 1)
    } else {
        let k = ident_end(s, j);
        seq![Lexeme::Ident(s.subrange(j, k))] + tokens_from(s, k)
    }
}

#[via_fn]
proof fn tokens_from_decreases(s: Seq<char>, i: int) {
    lemma_ws_end(s, i);
    let j = ws_end(s, i);
    if 0 <= i && j < s.len() {
        lemma_ident_end(s, j);
    }
}

/// The tokens of `s`.
pub open spec fn tokens_of(s: Seq<char>) -> Seq<Lexeme> {
    tokens_from(s, 0)
}

fn chars_of(s: &str) -> (r: Vec<char>)
    ensures
        r@ == s@,
{
    let n = s.unicode_len();
    let mut chars: Vec<char> = Vec::new();
    let mut i: usize = 0;
    while i < n
        invariant
            i <= n,
            n == s@.len(),
            chars@ == s@.subrange(0, i as int),
        decreases n - i,
    {
        chars.push(s.get_char(i));
        i += 1;
        assert(chars@ =~= s@.subrange(0, i as int));
    }
    assert(chars@ =~= s@);
    chars
}

/// The tokens of `source`, in order.
pub fn lex(source: &str) -> (r: Vec<Token>)
    ensures
        r@.map_values(|t: Token| t@) == tokens_of(source@),
{
    let chars = chars_of(source);
    let n = chars.len();
    let ghost s = source@;
    let mut tokens: Vec<Token> = Vec::new();
    let mut p: usize = 0;
    while p < n
        invariant
            p <= n,
            n == s.len(),
            chars@ == s,
            s == source@,
            tokens@.map_values(|t: Token| t@) + tokens_from(s, p as int) == tokens_from(s, 0),
        decreases n - p,
    {
        let ghost before = tokens@.map_values(|t: Token| t@);
        let mut j: usize = p;
        while j < n && char_is_whitespace(chars[j])
            invariant
                p <= j <= n,
                n == s.len(),
                chars@ == s,
                ws_end(s, p as int) == ws_end(s, j as int),
            decreases n - j,
        {
            j += 1;
        }
        if j >= n {
            p = n;
        } else {
            let c = chars[j];
            if c == '(' || c == ')' || c == '\'' {
                let t = if c == '(' {
                    Token::LParen
                } else if c == ')' {
                    Token::RParen
                } else {
                    Token::Quote
                };
                tokens.push(t);
                p = j + 1;
            } else {
                proof {
                    lemma_ident_end(s, j as int);
                }
                let mut k: usize = j;
                while k < n && !(char_is_whitespace(chars[k]) || chars[k] == '(' || chars[k] == ')'
                    || chars[k] == '\'')
                    invariant
                        j <= k <= n,
                        n == s.len(),
                        chars@ == s,
                        ident_end(s, j as int) == ident_end(s, k as int),
                    decreases n - k,
                {
                    k += 1;
                }
                let word = source.substring_char(j, k);
                tokens.push(Token::Ident(String::from_str(word)));
                p = k;
            }
        }
        assert(tokens@.map_values(|t: Token| t@) =~= before + (tokens@.map_values(|t: Token| t@)).subrange(before.len() as int, tokens@.len() as int));
    }
    tokens
}

} // verus!
