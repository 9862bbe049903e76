//! Laws of evaluation, proved from the definition of `eval`.
use vstd::prelude::*;

use crate::semantics::{
    apply_builtin, arith, counted_len, eval, eval_call, fold_arith, head, is_cell, is_proper, list1,
    list2, list3, list4, list_len, lookup, pair, unbound_failure, with_env, ArithOp, Failure, Value,
};
use crate::types::Builtin;

verus! {

/// A call whose head is a symbol bound to a built-in runs that built-in on
/// the unevaluated arguments, one level of nesting further down.
pub proof fn lemma_builtin_call(name: Seq<char>, b: Builtin, args: Value, env: Value, fuel: nat)
    requires
        fuel >= 2,
        is_cell(args),
        lookup(name, env) == Ok::<Value, Failure>(Value::Builtin(b)),
    ensures
        eval(pair(Value::Symbol(name), args), env, fuel) == apply_builtin(
            b,
            args,
            env,
            (fuel - 1) as nat,
        ),
{
    let f = (fuel - 1) as nat;
    let form = pair(Value::Symbol(name), args);
    assert(eval(Value::Symbol(name), env, f) == Ok::<(Value, Value), Failure>(
        (Value::Builtin(b), env),
    ));
    assert(eval_call(form, env, f) == apply_builtin(b, args, env, f));
}

/// Lengths and properness of short lists.
proof fn lemma_short_lists(a: Value, b: Value, c: Value)
    ensures
        is_proper(list1(c)),
        counted_len(list1(c)) == 1,
        is_proper(list2(b, c)),
        counted_len(list2(b, c)) == 2,
        is_proper(list3(a, b, c)),
        counted_len(list3(a, b, c)) == 3,
{
    assert(list_len(Value::Nil) == 0);
    assert(list_len(list1(c)) == 1);
    assert(list_len(list2(b, c)) == 2);
    assert(is_proper(Value::Nil));
    assert(is_proper(list1(c)));
    assert(is_proper(list2(b, c)));
}

proof fn lemma_fold_two(op: ArithOp, a: i32, b: i32, env: Value, fuel: nat)
    requires
        fuel >= 1,
        op is Add || op is Mul,
    ensures
        ({
            let unit = Value::Integer(if op is Mul { 1 } else { 0 });
            let inner = arith(op, Value::Integer(b), unit)->Ok_0;
            &&& arith(op, Value::Integer(b), unit) is Ok
            &&& fold_arith(op, list2(Value::Integer(a), Value::Integer(b)), env, fuel) == with_env(
                arith(op, Value::Integer(a), inner),
                env,
            )
        }),
{
    let unit = Value::Integer(if op is Mul { 1 } else { 0 });
    assert(fold_arith(op, Value::Nil, env, fuel) == Ok::<(Value, Value), Failure>((unit, env)));
    assert(eval(Value::Integer(b), env, fuel) == Ok::<(Value, Value), Failure>((Value::Integer(b), env)));
    assert(eval(Value::Integer(a), env, fuel) == Ok::<(Value, Value), Failure>((Value::Integer(a), env)));
    let l1 = list1(Value::Integer(b));
    assert(fold_arith(op, l1, env, fuel) == with_env(arith(op, Value::Integer(b), unit), env));
}

/// Integer arithmetic: `(+ a b)`, `(* a b)` and `(- a b)` evaluate to the sum,
/// product and difference of `a` and `b` in 32-bit two's complement, and
/// `(- a)` to the negation of `a`; where the exact result fits in 32 bits it
/// is that result. The environment is left as it was.
pub proof fn law_integer_arithmetic(a: i32, b: i32, env: Value, fuel: nat)
    requires
        fuel >= 2,
        lookup("+"@, env) == Ok::<Value, Failure>(Value::Builtin(Builtin::Add)),
        lookup("*"@, env) == Ok::<Value, Failure>(Value::Builtin(Builtin::Mul)),
        lookup("-"@, env) == Ok::<Value, Failure>(Value::Builtin(Builtin::Sub)),
    ensures
        eval(list3(Value::Symbol("+"@), Value::Integer(a), Value::Integer(b)), env, fuel)
            == Ok::<(Value, Value), Failure>((Value::Integer(a.wrapping_add(b)), env)),
        eval(list3(Value::Symbol("*"@), Value::Integer(a), Value::Integer(b)), env, fuel)
            == Ok::<(Value, Value), Failure>((Value::Integer(a.wrapping_mul(b)), env)),
        eval(list3(Value::Symbol("-"@), Value::Integer(a), Value::Integer(b)), env, fuel)
            == Ok::<(Value, Value), Failure>((Value::Integer(a.wrapping_sub(b)), env)),
        eval(list2(Value::Symbol("-"@), Value::Integer(a)), env, fuel) == Ok::<
            (Value, Value),
            Failure,
        >((Value::Integer(0i32.wrapping_sub(a)), env)),
        i32::MIN <= a + b <= i32::MAX ==> eval(
            list3(Value::Symbol("+"@), Value::Integer(a), Value::Integer(b)),
            env,
            fuel,
        ) == Ok::<(Value, Value), Failure>((Value::Integer((a + b) as i32), env)),
        i32::MIN <= a * b <= i32::MAX ==> eval(
            list3(Value::Symbol("*"@), Value::Integer(a), Value::Integer(b)),
            env,
            fuel,
        ) == Ok::<(Value, Value), Failure>((Value::Integer((a * b) as i32), env)),
        i32::MIN <= a - b <= i32::MAX ==> eval(
            list3(Value::Symbol("-"@), Value::Integer(a), Value::Integer(b)),
            env,
            fuel,
        ) == Ok::<(Value, Value), Failure>((Value::Integer((a - b) as i32), env)),
        a != i32::MIN ==> eval(list2(Value::Symbol("-"@), Value::Integer(a)), env, fuel) == Ok::<
            (Value, Value),
            Failure,
        >((Value::Integer(-a as i32), env)),
{
    let f = (fuel - 1) as nat;
    let ia = Value::Integer(a);
    let ib = Value::Integer(b);
    let two = list2(ia, ib);
    lemma_builtin_call("+"@, Builtin::Add, two, env, fuel);
    lemma_builtin_call("*"@, Builtin::Mul, two, env, fuel);
    lemma_builtin_call("-"@, Builtin::Sub, two, env, fuel);
    lemma_builtin_call("-"@, Builtin::Sub, list1(ia), env, fuel);
    lemma_fold_two(ArithOp::Add, a, b, env, f);
    lemma_short_lists(ia, ia, ia);
    lemma_short_lists(ia, ia, ib);
    lemma_fold_two(ArithOp::Mul, a, b, env, f);
    assert(b.wrapping_add(0) == b);
    assert(b.wrapping_mul(1) == b) by (nonlinear_arith);
    assert(i32::MIN <= a * b <= i32::MAX ==> a.wrapping_mul(b) == a * b) by (nonlinear_arith);
    // `(- a b)`: `a` minus the sum of the one-element list `(b)`.
    assert(eval(ia, env, f) == Ok::<(Value, Value), Failure>((ia, env)));
    assert(eval(ib, env, f) == Ok::<(Value, Value), Failure>((ib, env)));
    assert(fold_arith(ArithOp::Add, Value::Nil, env, f) == Ok::<(Value, Value), Failure>(
        (Value::Integer(0), env),
    ));
    assert(fold_arith(ArithOp::Add, list1(ib), env, f) == Ok::<(Value, Value), Failure>(
        (Value::Integer(b.wrapping_add(0)), env),
    ));
}

/// Quoting: `(quote x)` evaluates to `x` itself, unevaluated, whatever `x`
/// is; so does a quoted value. The environment is left as it was.
pub proof fn law_quote(x: Value, env: Value, fuel: nat)
    requires
        fuel >= 2,
        lookup("quote"@, env) == Ok::<Value, Failure>(Value::Builtin(Builtin::Quote)),
    ensures
        eval(list2(Value::Symbol("quote"@), x), env, fuel) == Ok::<(Value, Value), Failure>(
            (x, env),
        ),
        eval(Value::Quote(Box::new(x)), env, fuel) == Ok::<(Value, Value), Failure>((x, env)),
{
    lemma_builtin_call("quote"@, Builtin::Quote, list1(x), env, fuel);
    lemma_short_lists(x, x, x);
}

/// Integers, booleans, closures, built-ins and the empty list evaluate to
/// themselves, and leave the environment as it was.
pub proof fn law_self_evaluating(v: Value, env: Value, fuel: nat)
    requires
        fuel >= 1,
        v is Integer || v is Bool || v is Function || v is Builtin || v is Nil,
    ensures
        eval(v, env, fuel) == Ok::<(Value, Value), Failure>((v, env)),
{
}

/// `(car (cons a b))` is the value of `a` and `(cdr (cons a b))` the value of
/// `b`, where `a` and then `b` evaluate without error.
pub proof fn law_car_cdr_of_cons(
    a: Value,
    b: Value,
    env: Value,
    fuel: nat,
    va: Value,
    env1: Value,
    vb: Value,
    env2: Value,
)
    requires
        lookup("car"@, env) == Ok::<Value, Failure>(Value::Builtin(Builtin::Car)),
        lookup("cdr"@, env) == Ok::<Value, Failure>(Value::Builtin(Builtin::Cdr)),
        lookup("cons"@, env) == Ok::<Value, Failure>(Value::Builtin(Builtin::Cons)),
        eval(a, env, fuel) == Ok::<(Value, Value), Failure>((va, env1)),
        eval(b, env1, fuel) == Ok::<(Value, Value), Failure>((vb, env2)),
    ensures
        eval(list2(Value::Symbol("car"@), list3(Value::Symbol("cons"@), a, b)), env, fuel + 2)
            == Ok::<(Value, Value), Failure>((va, env2)),
        eval(list2(Value::Symbol("cdr"@), list3(Value::Symbol("cons"@), a, b)), env, fuel + 2)
            == Ok::<(Value, Value), Failure>((vb, env2)),
{
    assert(fuel != 0);
    let form = list3(Value::Symbol("cons"@), a, b);
    let args = list2(a, b);
    lemma_builtin_call("cons"@, Builtin::Cons, args, env, fuel + 1);
    lemma_short_lists(a, a, b);
    lemma_short_lists(a, a, form);
    assert(apply_builtin(Builtin::Cons, args, env, fuel) == Ok::<(Value, Value), Failure>(
        (pair(va, vb), env2),
    ));
    lemma_builtin_call("car"@, Builtin::Car, list1(form), env, fuel + 2);
    lemma_builtin_call("cdr"@, Builtin::Cdr, list1(form), env, fuel + 2);
}

/// `(if true a b)` evaluates `a` alone and `(if false a b)` evaluates `b`
/// alone: the result does not depend on the branch not taken.
pub proof fn law_if_takes_one_branch(a: Value, b: Value, env: Value, fuel: nat)
    requires
        fuel >= 1,
        lookup("if"@, env) == Ok::<Value, Failure>(Value::Builtin(Builtin::If)),
        lookup("true"@, env) == Ok::<Value, Failure>(Value::Bool(true)),
        lookup("false"@, env) == Ok::<Value, Failure>(Value::Bool(false)),
    ensures
        eval(list4(Value::Symbol("if"@), Value::Symbol("true"@), a, b), env, fuel + 1) == eval(
            a,
            env,
            fuel,
        ),
        eval(list4(Value::Symbol("if"@), Value::Symbol("false"@), a, b), env, fuel + 1) == eval(
            b,
            env,
            fuel,
        ),
{
    let t = list3(Value::Symbol("true"@), a, b);
    let f = list3(Value::Symbol("false"@), a, b);
    lemma_builtin_call("if"@, Builtin::If, t, env, fuel + 1);
    lemma_builtin_call("if"@, Builtin::If, f, env, fuel + 1);
    lemma_short_lists(Value::Symbol("true"@), a, b);
    lemma_short_lists(Value::Symbol("false"@), a, b);
    assert(eval(Value::Symbol("true"@), env, fuel) == Ok::<(Value, Value), Failure>(
        (Value::Bool(true), env),
    ));
    assert(eval(Value::Symbol("false"@), env, fuel) == Ok::<(Value, Value), Failure>(
        (Value::Bool(false), env),
    ));
}

/// `(define x n)` binds `x` to `n` for what follows; a later `(define x m)`
/// shadows it in the environment it returns, while the environment returned
/// by the first still binds `x` to `n`. (`x` is not `define` itself, which
/// the first definition would shadow.)
pub proof fn law_define_and_shadow(name: Seq<char>, n: i32, m: i32, env: Value, fuel: nat)
    requires
        fuel >= 2,
        name != "define"@,
        lookup("define"@, env) == Ok::<Value, Failure>(Value::Builtin(Builtin::Define)),
    ensures
        ({
            let x = Value::Symbol(name);
            let env1 = pair(pair(x, Value::Integer(n)), env);
            let env2 = pair(pair(x, Value::Integer(m)), env1);
            &&& eval(list3(Value::Symbol("define"@), x, Value::Integer(n)), env, fuel) == Ok::<
                (Value, Value),
                Failure,
            >((x, env1))
            &&& eval(x, env1, fuel) == Ok::<(Value, Value), Failure>((Value::Integer(n), env1))
            &&& eval(list3(Value::Symbol("define"@), x, Value::Integer(m)), env1, fuel) == Ok::<
                (Value, Value),
                Failure,
            >((x, env2))
            &&& eval(x, env2, fuel) == Ok::<(Value, Value), Failure>((Value::Integer(m), env2))
            &&& eval(x, env1, fuel) == Ok::<(Value, Value), Failure>((Value::Integer(n), env1))
        }),
{
    let x = Value::Symbol(name);
    let env1 = pair(pair(x, Value::Integer(n)), env);
    let env2 = pair(pair(x, Value::Integer(m)), env1);
    assert(lookup("define"@, env1) == lookup("define"@, env));
    lemma_builtin_call("define"@, Builtin::Define, list2(x, Value::Integer(n)), env, fuel);
    lemma_builtin_call("define"@, Builtin::Define, list2(x, Value::Integer(m)), env1, fuel);
    lemma_short_lists(x, x, Value::Integer(n));
    lemma_short_lists(x, x, Value::Integer(m));
    assert(lookup(name, env1) == Ok::<Value, Failure>(Value::Integer(n)));
    assert(lookup(name, env2) == Ok::<Value, Failure>(Value::Integer(m)));
}

/// `env` is a chain of binding pairs none of which binds `name`.
pub open spec fn lacks_binding(name: Seq<char>, env: Value) -> bool
    decreases env,
{
    match env {
        Value::Pair(entry, rest) => is_cell(*entry) && head(*entry) != Value::Symbol(name)
            && lacks_binding(name, *rest),
        _ => true,
    }
}

/// A symbol that no binding of the environment names evaluates to an
/// unbound-variable error.
pub proof fn law_unbound_symbol(name: Seq<char>, env: Value, fuel: nat)
    requires
        fuel >= 1,
        lacks_binding(name, env),
    ensures
        eval(Value::Symbol(name), env, fuel) == Err::<(Value, Value), Failure>(
            unbound_failure(name),
        ),
{
    lemma_lookup_unbound(name, env);
}

proof fn lemma_lookup_unbound(name: Seq<char>, env: Value)
    requires
        lacks_binding(name, env),
    ensures
        lookup(name, env) == Err::<Value, Failure>(unbound_failure(name)),
    decreases env,
{
    if let Value::Pair(entry, rest) = env {
        lemma_lookup_unbound(name, *rest);
    }
}

} // verus!
