//! The environment that evaluation starts from: every built-in bound to
//! its name, and the names `true` and `false`.
use std::rc::Rc;
use vstd::prelude::*;
use vstd::string::*;

use crate::semantics::{lookup, pair, Failure, Value};
use crate::types::{Builtin, BuiltinFunction, Cons, Object, Symbol};

verus! {

/// `env` extended at the front by `name` bound to `v`.
pub open spec fn entry(name: Seq<char>, v: Value, env: Value) -> Value {
    pair(pair(Value::Symbol(name), v), env)
}

/// The bindings of the standard environment, front to back.
pub open spec fn standard_env() -> Value {
    entry("car"@, Value::Builtin(Builtin::Car),
    entry("cdr"@, Value::Builtin(Builtin::Cdr),
    entry("cons"@, Value::Builtin(Builtin::Cons),
    entry("lambda"@, Value::Builtin(Builtin::Lambda),
    entry("+"@, Value::Builtin(Builtin::Add),
    entry("-"@, Value::Builtin(Builtin::Sub),
    entry("*"@, Value::Builtin(Builtin::Mul),
    entry("quote"@, Value::Builtin(Builtin::Quote),
    entry("int->bool"@, Value::Builtin(Builtin::IntToBool),
    entry("bool->int"@, Value::Builtin(Builtin::BoolToInt),
    entry("and"@, Value::Builtin(Builtin::And),
    entry("or"@, Value::Builtin(Builtin::Or),
    entry("not"@, Value::Builtin(Builtin::Not),
    entry("define"@, Value::Builtin(Builtin::Define),
    entry("nil?"@, Value::Builtin(Builtin::IsNil),
    entry("int?"@, Value::Builtin(Builtin::IsInt),
    entry("bool?"@, Value::Builtin(Builtin::IsBool),
    entry("if"@, Value::Builtin(Builtin::If),
    entry("true"@, Value::Bool(true),
    entry("false"@, Value::Bool(false),
    Value::Nil))))))))))))))))))))
}

fn bind(name: &str, value: Object, env: Cons) -> (r: Cons)
    ensures
        r@ == entry(name@, value@, env@),
{
    let text = String::from_str(name);
    assert(text@ == name@);
    let symbol = Rc::new(Object::Symbol(Symbol { name: text }));
    assert((*symbol)@ == Value::Symbol(name@));
    let value = Rc::new(value);
    let binding = Rc::new(Object::Cons(Cons(Some((symbol, value)))));
    assert((*binding)@ == pair(Value::Symbol(name@), value@));
    let r = Cons(Some((binding, Rc::new(Object::Cons(env)))));
    assert(r@ == pair((*binding)@, env@));
    r
}

/// The environment that evaluation starts from.
pub fn standard_environment() -> (r: Cons)
    ensures
        r@ == standard_env(),
{
    let env = Cons(None);
    let env = bind("false", Object::Bool(false), env);
    let env = bind("true", Object::Bool(true), env);
    let env = bind("if", Object::BuiltinFunction(BuiltinFunction(Builtin::If)), env);
    let env = bind("bool?", Object::BuiltinFunction(BuiltinFunction(Builtin::IsBool)), env);
    let env = bind("int?", Object::BuiltinFunction(BuiltinFunction(Builtin::IsInt)), env);
    let env = bind("nil?", Object::BuiltinFunction(BuiltinFunction(Builtin::IsNil)), env);
    let env = bind("define", Object::BuiltinFunction(BuiltinFunction(Builtin::Define)), env);
    let env = bind("not", Object::BuiltinFunction(BuiltinFunction(Builtin::Not)), env);
    let env = bind("or", Object::BuiltinFunction(BuiltinFunction(Builtin::Or)), env);
    let env = bind("and", Object::BuiltinFunction(BuiltinFunction(Builtin::And)), env);
    let env = bind("bool->int", Object::BuiltinFunction(BuiltinFunction(Builtin::BoolToInt)), env);
    let env = bind("int->bool", Object::BuiltinFunction(BuiltinFunction(Builtin::IntToBool)), env);
    let env = bind("quote", Object::BuiltinFunction(BuiltinFunction(Builtin::Quote)), env);
    let env = bind("*", Object::BuiltinFunction(BuiltinFunction(Builtin::Mul)), env);
    let env = bind("-", Object::BuiltinFunction(BuiltinFunction(Builtin::Sub)), env);
    let env = bind("+", Object::BuiltinFunction(BuiltinFunction(Builtin::Add)), env);
    let env = bind("lambda", Object::BuiltinFunction(BuiltinFunction(Builtin::Lambda)), env);
    let env = bind("cons", Object::BuiltinFunction(BuiltinFunction(Builtin::Cons)), env);
    let env = bind("cdr", Object::BuiltinFunction(BuiltinFunction(Builtin::Cdr)), env);
    let env = bind("car", Object::BuiltinFunction(BuiltinFunction(Builtin::Car)), env);
    env
}

/// In the standard environment each built-in's name, and `true` and
/// `false`, evaluate to what they are bound to.
pub proof fn lemma_standard_bindings()
    ensures
        lookup("car"@, standard_env()) == Ok::<Value, Failure>(Value::Builtin(Builtin::Car)),
        lookup("cdr"@, standard_env()) == Ok::<Value, Failure>(Value::Builtin(Builtin::Cdr)),
        lookup("cons"@, standard_env()) == Ok::<Value, Failure>(Value::Builtin(Builtin::Cons)),
        lookup("lambda"@, standard_env()) == Ok::<Value, Failure>(Value::Builtin(Builtin::Lambda)),
        lookup("+"@, standard_env()) == Ok::<Value, Failure>(Value::Builtin(Builtin::Add)),
        lookup("-"@, standard_env()) == Ok::<Value, Failure>(Value::Builtin(Builtin::Sub)),
        lookup("*"@, standard_env()) == Ok::<Value, Failure>(Value::Builtin(Builtin::Mul)),
        lookup("quote"@, standard_env()) == Ok::<Value, Failure>(Value::Builtin(Builtin::Quote)),
        lookup("int->bool"@, standard_env()) == Ok::<Value, Failure>(Value::Builtin(Builtin::IntToBool)),
        lookup("bool->int"@, standard_env()) == Ok::<Value, Failure>(Value::Builtin(Builtin::BoolToInt)),
        lookup("and"@, standard_env()) == Ok::<Value, Failure>(Value::Builtin(Builtin::And)),
        lookup("or"@, standard_env()) == Ok::<Value, Failure>(Value::Builtin(Builtin::Or)),
        lookup("not"@, standard_env()) == Ok::<Value, Failure>(Value::Builtin(Builtin::Not)),
        lookup("define"@, standard_env()) == Ok::<Value, Failure>(Value::Builtin(Builtin::Define)),
        lookup("nil?"@, standard_env()) == Ok::<Value, Failure>(Value::Builtin(Builtin::IsNil)),
        lookup("int?"@, standard_env()) == Ok::<Value, Failure>(Value::Builtin(Builtin::IsInt)),
        lookup("bool?"@, standard_env()) == Ok::<Value, Failure>(Value::Builtin(Builtin::IsBool)),
        lookup("if"@, standard_env()) == Ok::<Value, Failure>(Value::Builtin(Builtin::If)),
        lookup("true"@, standard_env()) == Ok::<Value, Failure>(Value::Bool(true)),
        lookup("false"@, standard_env()) == Ok::<Value, Failure>(Value::Bool(false)),
{
    reveal_with_fuel(lookup, 21);
        reveal_strlit("car");
        reveal_strlit("cdr");
        reveal_strlit("cons");
        reveal_strlit("lambda");
        reveal_strlit("+");
        reveal_strlit("-");
        reveal_strlit("*");
        reveal_strlit("quote");
        reveal_strlit("int->bool");
        reveal_strlit("bool->int");
        reveal_strlit("and");
        reveal_strlit("or");
        reveal_strlit("not");
        reveal_strlit("define");
        reveal_strlit("nil?");
        reveal_strlit("int?");
        reveal_strlit("bool?");
        reveal_strlit("if");
        reveal_strlit("true");
        reveal_strlit("false");
    assert("car"@[1] != "cdr"@[1]);
    assert("+"@[0] != "-"@[0]);
    assert("+"@[0] != "*"@[0]);
    assert("-"@[0] != "*"@[0]);
    assert("int->bool"@[0] != "bool->int"@[0]);
    assert("car"@[0] != "and"@[0]);
    assert("cdr"@[0] != "and"@[0]);
    assert("car"@[0] != "not"@[0]);
    assert("cdr"@[0] != "not"@[0]);
    assert("and"@[0] != "not"@[0]);
    assert("lambda"@[0] != "define"@[0]);
    assert("cons"@[0] != "nil?"@[0]);
    assert("cons"@[0] != "int?"@[0]);
    assert("nil?"@[0] != "int?"@[0]);
    assert("quote"@[0] != "bool?"@[0]);
    assert("or"@[0] != "if"@[0]);
    assert("cons"@[0] != "true"@[0]);
    assert("nil?"@[0] != "true"@[0]);
    assert("int?"@[0] != "true"@[0]);
    assert("quote"@[0] != "false"@[0]);
    assert("bool?"@[0] != "false"@[0]);
}

} // verus!
