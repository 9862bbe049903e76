//! The textual rendering of values.
use vstd::prelude::*;
use vstd::string::*;

use crate::functions::decimal_string;
use crate::semantics::{decimal, Value};
use crate::types::{Cons, Function, Object, Quote};

verus! {

/// Decimal text of an integer, with a leading `-` when it is negative.
pub open spec fn integer_text(i: i32) -> Seq<char> {
    if i < 0 {
        "-"@ + decimal((-i) as nat)
    } else {
        decimal(i as nat)
    }
}

/// The text of a value: integers in decimal, `true` and `false`, a symbol's
/// name, `()`, lists in parentheses with a ` . ` before a last element that
/// ends no list, `(quote x)`, and fixed labels for callables.
pub open spec fn text_of(v: Value) -> Seq<char>
    decreases v, 0nat,
{
    match v {
        Value::Integer(i) => integer_text(i),
        Value::Bool(b) => if b {
            "true"@
        } else {
            "false"@
        },
        Value::Symbol(s) => s,
        Value::Nil => "()"@,
        Value::Pair(first, second) => "("@ + text_of(*first) + rest_text(*second) + ")"@,
        Value::Quote(x) => "(quote "@ + text_of(*x) + ")"@,
        Value::Function(params, body) => "Function "@ + text_of(*params) + " => "@ + text_of(*body),
        Value::Builtin(_) => "Builtin function"@,
    }
}

/// The text, inside a list's parentheses, of what follows its first element.
pub open spec fn rest_text(v: Value) -> Seq<char>
    decreases v, 1nat,
{
    match v {
        Value::Nil => Seq::empty(),
        Value::Pair(first, second) => " "@ + text_of(*first) + rest_text(*second),
        _ => " . "@ + text_of(v),
    }
}

/// Decimal text of an integer.
pub fn integer_string(i: i32) -> (r: String)
    ensures
        r@ == integer_text(i),
{
    if i < 0 {
        let magnitude = (-(i as i64)) as usize;
        let mut r = String::from_str("-");
        r.append(decimal_string(magnitude).as_str());
        r
    } else {
        decimal_string(i as usize)
    }
}

fn to_cons_string(obj: &Object) -> (r: String)
    ensures
        r@ == rest_text(obj@),
    decreases obj, 1nat,
{
    match obj {
        Object::Cons(Cons(None)) => String::new(),
        Object::Cons(Cons(Some((first, second)))) => {
            let mut r = String::from_str(" ");
            r.append(first.render().as_str());
            r.append(to_cons_string(second).as_str());
            r
        },
        _ => {
            let mut r = String::from_str(" . ");
            r.append(obj.render().as_str());
            r
        },
    }
}

impl Object {
    /// The text of this value.
    pub fn render(&self) -> (r: String)
        ensures
            r@ == text_of(self@),
        decreases self, 0nat,
    {
        match self {
            Object::Integer(i) => integer_string(*i),
            Object::Bool(b) => String::from_str(
                if *b {
                    "true"
                } else {
                    "false"
                },
            ),
            Object::Symbol(s) => s.name.clone(),
            Object::Cons(Cons(None)) => String::from_str("()"),
            Object::Cons(Cons(Some((first, second)))) => {
                let mut r = String::from_str("(");
                r.append(first.render().as_str());
                r.append(to_cons_string(second).as_str());
                r.append(")");
                r
            },
            Object::Quote(Quote(x)) => {
                let mut r = String::from_str("(quote ");
                r.append(x.render().as_str());
                r.append(")");
                r
            },
            Object::Function(Function { parameters, body }) => {
                let mut r = String::from_str("Function ");
                let params = match &parameters.0 {
                    None => String::from_str("()"),
                    Some((first, second)) => {
                        let mut p = String::from_str("(");
                        p.append(first.render().as_str());
                        p.append(to_cons_string(second).as_str());
                        p.append(")");
                        p
                    },
                };
                assert(params@ == text_of(parameters@));
                r.append(params.as_str());
                r.append(" => ");
                r.append(body.render().as_str());
                r
            },
            Object::BuiltinFunction(_) => String::from_str("Builtin function"),
        }
    }
}

} // verus!
