//! Which strings name a symbol.
use vstd::prelude::*;
use vstd::string::*;

use crate::types::Symbol;

verus! {

/// Whether `c` has the Unicode `Alphabetic` property.
pub uninterp spec fn alphabetic(c: char) -> bool;

/// Relies on `char::is_alphabetic`: whether `c` has the Unicode `Alphabetic`
/// property.
#[verifier::external_body]
fn char_is_alphabetic(c: char) -> (r: bool)
    ensures
        r == alphabetic(c),
{
    c.is_alphabetic()
}

/// A character that may begin a symbol.
pub open spec fn symbol_initial(c: char) -> bool {
    alphabetic(c) || c == '!' || c == '$' || c == '%' || c == '&' || c == '*' || c == '/' || c
        == ':' || c == '<' || c == '=' || c == '>' || c == '?' || c == '^' || c == '_' || c == '~'
}

/// A character that may follow the first one of a symbol.
pub open spec fn symbol_subsequent(c: char) -> bool {
    symbol_initial(c) || ('0' <= c <= '9') || c == '+' || c == '.' || c == '@' || c == '-'
}

/// `+`, `-` and `...`, and every non-empty string of an initial character
/// followed by subsequent ones.
pub open spec fn valid_symbol(s: Seq<char>) -> bool {
    ||| s == "+"@
    ||| s == "-"@
    ||| s == "..."@
    ||| (s.len() > 0 && symbol_initial(s[0]) && forall|i: int|
        1 <= i < s.len() ==> #[trigger] symbol_subsequent(s[i]))
}

fn char_is_symbol_initial(c: char) -> (r: bool)
    ensures
        r == symbol_initial(c),
{
    char_is_alphabetic(c) || c == '!' || c == '$' || c == '%' || c == '&' || c == '*' || c == '/'
        || c == ':' || c == '<' || c == '=' || c == '>' || c == '?' || c == '^' || c == '_' || c
        == '~'
}

fn char_is_symbol_subsequent(c: char) -> (r: bool)
    ensures
        r == symbol_subsequent(c),
{
    char_is_symbol_initial(c) || ('0' <= c && c <= '9') || c == '+' || c == '.' || c == '@' || c
        == '-'
}

impl Symbol {
    /// The symbol named `s`, where `s` is a valid symbol name.
    pub fn from_str(s: &str) -> (r: Result<Symbol, ()>)
        ensures
            r is Ok <==> valid_symbol(s@),
            r matches Ok(sym) ==> sym@ == s@,
    {
        proof {
            reveal_strlit("+");
            reveal_strlit("-");
            reveal_strlit("...");
        }
        let n = s.unicode_len();
        if n == 0 {
            return Err(());
        }
        let first = s.get_char(0);
        let special = if n == 1 {
            first == '+' || first == '-'
        } else if n == 3 {
            first == '.' && s.get_char(1) == '.' && s.get_char(2) == '.'
        } else {
            false
        };
        proof {
            if n == 1 && first == '+' {
                assert(s@ =~= "+"@);
            }
            if n == 1 && first == '-' {
                assert(s@ =~= "-"@);
            }
            if n == 3 && first == '.' && s@[1] == '.' && s@[2] == '.' {
                assert(s@ =~= "..."@);
            }
            if s@ == "+"@ || s@ == "-"@ || s@ == "..."@ {
                assert(s@.len() == "+"@.len() || s@.len() == "..."@.len());
                assert(s@[0] == first);
                assert(special);
            }
        }
        if !special {
            if !char_is_symbol_initial(first) {
                return Err(());
            }
            let mut i: usize = 1;
            while i < n
                invariant
                    1 <= i <= n,
                    n == s@.len(),
                    !(s@ == "+"@ || s@ == "-"@ || s@ == "..."@),
                    symbol_initial(s@[0]),
                    forall|j: int| 1 <= j < i ==> #[trigger] symbol_subsequent(s@[j]),
                decreases n - i,
            {
                let c = s.get_char(i);
                if !char_is_symbol_subsequent(c) {
                    assert(!symbol_subsequent(s@[i as int]));
                    return Err(());
                }
                i += 1;
            }
        }
        Ok(Symbol { name: String::from_str(s) })
    }
}

} // verus!
