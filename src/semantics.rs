//! The mathematical meaning of expressions: values, failures, and the
//! evaluation relation that every executable evaluation function refines.
use vstd::prelude::*;

use crate::types::{Builtin, ErrorKind};

verus! {

/// What an expression or runtime value is, with sharing forgotten.
///
/// `Nil` and `Pair` together model a pair cell; a closure keeps its
/// parameter list (a `Nil` or `Pair`) and its unevaluated body.
pub ghost enum Value {
    Integer(i32),
    Symbol(Seq<char>),
    Function(Box<Value>, Box<Value>),
    Builtin(Builtin),
    Quote(Box<Value>),
    Nil,
    Pair(Box<Value>, Box<Value>),
    Bool(bool),
}

/// What an error is: its category and its message.
pub ghost struct Failure {
    pub kind: ErrorKind,
    pub message: Seq<char>,
}

/// The result of evaluating: a value with the environment after it, or a failure.
pub type Outcome = Result<(Value, Value), Failure>;

pub open spec fn is_cell(v: Value) -> bool {
    v is Nil || v is Pair
}

/// The number of pair cells along the chain of second components.
pub open spec fn spine(v: Value) -> nat
    decreases v,
{
    match v {
        Value::Pair(_, rest) => 1 + spine(*rest),
        _ => 0,
    }
}

/// Number of elements of a cell chain; a non-cell tail counts as one element's end.
pub open spec fn list_len(v: Value) -> nat
    decreases v,
{
    match v {
        Value::Pair(_, rest) => if is_cell(*rest) {
            list_len(*rest) + 1
        } else {
            1
        },
        _ => 0,
    }
}

/// `list_len`, saturating at the largest `usize`.
pub open spec fn counted_len(v: Value) -> nat {
    if list_len(v) < usize::MAX {
        list_len(v)
    } else {
        usize::MAX as nat
    }
}

/// The chain of second components ends in `Nil`.
pub open spec fn is_proper(v: Value) -> bool
    decreases v,
{
    match v {
        Value::Nil => true,
        Value::Pair(_, rest) => if is_cell(*rest) {
            is_proper(*rest)
        } else {
            false
        },
        _ => false,
    }
}

/// A proper list whose elements are all symbols.
pub open spec fn symbol_list(v: Value) -> bool
    decreases v,
{
    match v {
        Value::Nil => true,
        Value::Pair(first, rest) => *first is Symbol && symbol_list(*rest),
        _ => false,
    }
}

/// First component of a cell; `Nil` for `Nil` (and for anything that is no pair).
pub open spec fn head(v: Value) -> Value {
    match v {
        Value::Pair(a, _) => *a,
        _ => Value::Nil,
    }
}

/// Second component of a cell; `Nil` for `Nil` (and for anything that is no pair).
pub open spec fn tail(v: Value) -> Value {
    match v {
        Value::Pair(_, b) => *b,
        _ => Value::Nil,
    }
}

pub open spec fn pair(a: Value, b: Value) -> Value {
    Value::Pair(Box::new(a), Box::new(b))
}

/// The list of one element.
pub open spec fn list1(a: Value) -> Value {
    pair(a, Value::Nil)
}

/// The list of two elements.
pub open spec fn list2(a: Value, b: Value) -> Value {
    pair(a, list1(b))
}

/// The list of three elements.
pub open spec fn list3(a: Value, b: Value, c: Value) -> Value {
    pair(a, list2(b, c))
}

/// The list of four elements.
pub open spec fn list4(a: Value, b: Value, c: Value, d: Value) -> Value {
    pair(a, list3(b, c, d))
}

/// Every value is true but `false`.
pub open spec fn truthy(v: Value) -> bool {
    v != Value::Bool(false)
}

/// The type tag that error messages give for a value.
pub open spec fn type_tag(v: Value) -> Seq<char> {
    match v {
        Value::Integer(_) => "(type int)"@,
        Value::Symbol(_) => "(type symbol)"@,
        Value::Function(_, _) => "(type function)"@,
        Value::Builtin(_) => "(type builtin-function)"@,
        Value::Quote(_) => "(type quote)"@,
        Value::Nil => "(type cons)"@,
        Value::Pair(_, _) => "(type cons)"@,
        Value::Bool(_) => "(type bool)"@,
    }
}

/// The parts, in order, with `sep` between each two.
pub open spec fn joined(parts: Seq<Seq<char>>, sep: Seq<char>) -> Seq<char>
    decreases parts.len(),
{
    if parts.len() == 0 {
        Seq::empty()
    } else if parts.len() == 1 {
        parts[0]
    } else {
        joined(parts.drop_last(), sep) + sep + parts.last()
    }
}

pub open spec fn digit(d: nat) -> char {
    if d == 0 {
        '0'
    } else if d == 1 {
        '1'
    } else if d == 2 {
        '2'
    } else if d == 3 {
        '3'
    } else if d == 4 {
        '4'
    } else if d == 5 {
        '5'
    } else if d == 6 {
        '6'
    } else if d == 7 {
        '7'
    } else if d == 8 {
        '8'
    } else {
        '9'
    }
}

/// Decimal digits of `n`, most significant first, without leading zeros.
pub open spec fn decimal(n: nat) -> Seq<char>
    decreases n,
{
    if n < 10 {
        seq![digit(n)]
    } else {
        decimal(n / 10) + seq![digit(n % 10)]
    }
}

pub open spec fn failure(kind: ErrorKind, message: Seq<char>) -> Failure {
    Failure { kind, message }
}

/// The operation `name` does not accept operands of these variants.
pub open spec fn type_failure(name: Seq<char>, args: Seq<Value>) -> Failure {
    failure(
        ErrorKind::Type,
        name + " is not callable with types ("@ + joined(args.map_values(|v: Value| type_tag(v)), " "@)
            + ")"@,
    )
}

/// Why the argument list `list` of `name` does not have exactly `n` elements, if it does not.
pub open spec fn arity_failure(name: Seq<char>, n: nat, list: Value) -> Option<Failure> {
    if !is_proper(list) {
        Some(failure(ErrorKind::Arity, "call to "@ + name + " must be a proper list"@))
    } else if counted_len(list) != n {
        Some(
            failure(
                ErrorKind::Arity,
                name + " expected "@ + decimal(n) + " arguments but got "@ + decimal(
                    counted_len(list),
                ),
            ),
        )
    } else {
        None
    }
}

pub open spec fn improper_failure(name: Seq<char>) -> Failure {
    failure(ErrorKind::Arity, "arguments passed to "@ + name + " must be a proper list"@)
}

pub open spec fn unbound_failure(name: Seq<char>) -> Failure {
    failure(ErrorKind::Unbound, "Unbound variable "@ + name)
}

pub open spec fn call_shape_failure() -> Failure {
    failure(ErrorKind::Shape, "cdr of argument passed to eval_cons must be a cons"@)
}

pub open spec fn depth_failure() -> Failure {
    failure(ErrorKind::Depth, "evaluation nested too deeply"@)
}

/// `car` of a value: a cell's first component, a type failure on anything else.
pub open spec fn car_of(v: Value) -> Result<Value, Failure> {
    if is_cell(v) {
        Ok(head(v))
    } else {
        Err(type_failure("Object::car"@, seq![v]))
    }
}

/// `cdr` of a value: a cell's second component, a type failure on anything else.
pub open spec fn cdr_of(v: Value) -> Result<Value, Failure> {
    if is_cell(v) {
        Ok(tail(v))
    } else {
        Err(type_failure("Object::cdr"@, seq![v]))
    }
}

/// The binding of `name` in `env`, front to back.
pub open spec fn lookup(name: Seq<char>, env: Value) -> Result<Value, Failure>
    decreases env,
{
    match env {
        Value::Pair(entry, rest) => match car_of(*entry) {
            Err(e) => Err(e),
            Ok(key) => if key == Value::Symbol(name) {
                cdr_of(*entry)
            } else if is_cell(*rest) {
                lookup(name, *rest)
            } else {
                Err(unbound_failure(name))
            },
        },
        _ => Err(unbound_failure(name)),
    }
}

/// New bindings `(p_i . a_i)` for as many positions as both lists have,
/// in front of `last`.
pub open spec fn bind_params(params: Value, args: Value, last: Value) -> Value
    decreases params,
{
    match (params, args) {
        (Value::Pair(p, prest), Value::Pair(a, arest)) => pair(
            pair(*p, *a),
            if is_cell(*prest) && is_cell(*arest) {
                bind_params(*prest, *arest, last)
            } else {
                last
            },
        ),
        _ => last,
    }
}

/// The three integer operations that the arithmetic built-ins fold with.
pub ghost enum ArithOp {
    Add,
    Sub,
    Mul,
}

pub open spec fn arith_name(op: ArithOp) -> Seq<char> {
    match op {
        ArithOp::Add => "add"@,
        ArithOp::Sub => "sub"@,
        ArithOp::Mul => "mul"@,
    }
}

/// `lhs op rhs` on two integers, in 32-bit two's complement; a type failure otherwise.
pub open spec fn arith(op: ArithOp, lhs: Value, rhs: Value) -> Result<Value, Failure> {
    match (lhs, rhs) {
        (Value::Integer(a), Value::Integer(b)) => Ok(
            Value::Integer(
                match op {
                    ArithOp::Add => a.wrapping_add(b),
                    ArithOp::Sub => a.wrapping_sub(b),
                    ArithOp::Mul => a.wrapping_mul(b),
                },
            ),
        ),
        _ => Err(type_failure(arith_name(op), seq![lhs, rhs])),
    }
}

/// A proper list of `n > 0` elements is a pair whose tail is a proper list of `n - 1`.
pub proof fn lemma_proper_shape(v: Value, n: nat)
    requires
        is_proper(v),
        counted_len(v) == n,
        0 < n < usize::MAX,
    ensures
        v is Pair,
        is_cell(tail(v)),
        is_proper(tail(v)),
        counted_len(tail(v)) == n - 1,
{
}

/// The value of a one-argument built-in's argument, after its arity check.
pub open spec fn eval_unary(name: Seq<char>, args: Value, env: Value, fuel: nat) -> Outcome
    decreases fuel, 1nat, 0nat,
{
    match arity_failure(name, 1, args) {
        Some(f) => Err(f),
        None => eval(head(args), env, fuel),
    }
}

/// `value` paired with the environment, or `failure` as it is.
pub open spec fn with_env(r: Result<Value, Failure>, env: Value) -> Outcome {
    match r {
        Ok(v) => Ok((v, env)),
        Err(f) => Err(f),
    }
}

pub open spec fn int_to_bool_of(v: Value) -> Result<Value, Failure> {
    match v {
        Value::Integer(i) => Ok(Value::Bool(i != 0)),
        _ => Err(type_failure("int_to_bool"@, seq![v])),
    }
}

pub open spec fn bool_to_int_of(v: Value) -> Result<Value, Failure> {
    match v {
        Value::Bool(b) => Ok(Value::Integer(if b { 1 } else { 0 })),
        _ => Err(type_failure("bool_to_int"@, seq![v])),
    }
}

/// Evaluate `e` in `env`, with at most `fuel` evaluations nested in one another.
pub open spec fn eval(e: Value, env: Value, fuel: nat) -> Outcome
    decreases fuel, 0nat, 0nat,
{
    if fuel == 0 {
        Err(depth_failure())
    } else {
        match e {
            Value::Symbol(name) => with_env(lookup(name, env), env),
            Value::Quote(x) => Ok((*x, env)),
            Value::Pair(_, _) => eval_call(e, env, (fuel - 1) as nat),
            _ => Ok((e, env)),
        }
    }
}

/// A call form: evaluate its head, then apply it to the unevaluated rest.
pub open spec fn eval_call(form: Value, env: Value, fuel: nat) -> Outcome
    decreases fuel, 4nat, 0nat,
{
    if !is_cell(tail(form)) {
        Err(call_shape_failure())
    } else {
        match eval(head(form), env, fuel) {
            Err(f) => Err(f),
            Ok((op, env1)) => apply(op, tail(form), env1, fuel),
        }
    }
}

/// Apply `f` to the unevaluated argument list `args`.
pub open spec fn apply(f: Value, args: Value, env: Value, fuel: nat) -> Outcome
    decreases fuel, 3nat, 0nat,
{
    match f {
        Value::Function(params, body) => if !is_proper(args) {
            Err(improper_failure("a function"@))
        } else {
            match eval_elements(args, env, fuel) {
                Err(e) => Err(e),
                Ok((vals, env1)) => eval(*body, bind_params(*params, vals, env1), fuel),
            }
        },
        Value::Builtin(b) => apply_builtin(b, args, env, fuel),
        _ => Err(type_failure("apply_obj"@, seq![f])),
    }
}

/// Evaluate each element of a list, left to right, threading the environment.
/// A non-cell tail is dropped.
pub open spec fn eval_elements(list: Value, env: Value, fuel: nat) -> Outcome
    decreases fuel, 1nat, spine(list),
{
    match list {
        Value::Pair(first, second) => match eval(*first, env, fuel) {
            Err(f) => Err(f),
            Ok((v, env1)) => if is_cell(*second) {
                match eval_elements(*second, env1, fuel) {
                    Err(f) => Err(f),
                    Ok((rest, env2)) => Ok((pair(v, rest), env2)),
                }
            } else {
                Ok((pair(v, Value::Nil), env1))
            },
        },
        _ => Ok((list, env)),
    }
}

/// Right fold of `+` (`op` is `Add`) or `*` (`op` is `Mul`) over the evaluated elements.
pub open spec fn fold_arith(op: ArithOp, args: Value, env: Value, fuel: nat) -> Outcome
    decreases fuel, 1nat, spine(args),
{
    match args {
        Value::Pair(first, rest) => if is_cell(*rest) {
            match eval(*first, env, fuel) {
                Err(f) => Err(f),
                Ok((lhs, env1)) => match fold_arith(op, *rest, env1, fuel) {
                    Err(f) => Err(f),
                    Ok((rhs, env2)) => with_env(arith(op, lhs, rhs), env2),
                },
            }
        } else {
            Err(improper_failure(if op is Mul { "wrapped_mul"@ } else { "wrapped_add"@ }))
        },
        _ => Ok((Value::Integer(if op is Mul { 1 } else { 0 }), env)),
    }
}

/// `and` (when `conj`): the first false value, else the last value, else
/// `true`; `or`: the first true value, else `false`.
pub open spec fn fold_logic(conj: bool, args: Value, env: Value, fuel: nat) -> Outcome
    decreases fuel, 1nat, spine(args),
{
    match args {
        Value::Pair(first, rest) => if is_cell(*rest) {
            match eval(*first, env, fuel) {
                Err(f) => Err(f),
                Ok((v, env1)) => if truthy(v) == conj && !(conj && *rest == Value::Nil) {
                    fold_logic(conj, *rest, env1, fuel)
                } else {
                    Ok((v, env1))
                },
            }
        } else {
            Err(improper_failure(if conj { "wrapped_and"@ } else { "wrapped_or"@ }))
        },
        _ => Ok((Value::Bool(conj), env)),
    }
}

/// `-`: negate one operand, or subtract the sum of the others from the first;
/// an argument list that is not a proper list is an error.
pub open spec fn subtract(args: Value, env: Value, fuel: nat) -> Outcome
    decreases fuel, 1nat, spine(args) + 1,
{
    if !is_proper(args) {
        Err(improper_failure("wrapped_sub"@))
    } else if list_len(args) == 0 {
        Err(failure(ErrorKind::Arity, "wrapped_sub expected at least 1 argument but got 0"@))
    } else if list_len(args) == 1 {
        match eval(head(args), env, fuel) {
            Err(f) => Err(f),
            Ok((v, env1)) => with_env(arith(ArithOp::Sub, Value::Integer(0), v), env1),
        }
    } else if !is_cell(tail(args)) {
        Err(improper_failure("wrapped_sub"@))
    } else {
        match eval(head(args), env, fuel) {
            Err(f) => Err(f),
            Ok((lhs, env1)) => match fold_arith(ArithOp::Add, tail(args), env1, fuel) {
                Err(f) => Err(f),
                Ok((rhs, env2)) => with_env(arith(ArithOp::Sub, lhs, rhs), env2),
            },
        }
    }
}

/// What each built-in does with its unevaluated arguments.
pub open spec fn apply_builtin(b: Builtin, args: Value, env: Value, fuel: nat) -> Outcome
    decreases fuel, 2nat, 0nat,
{
    match b {
        Builtin::Car => match eval_unary("car"@, args, env, fuel) {
            Err(f) => Err(f),
            Ok((v, env1)) => with_env(car_of(v), env1),
        },
        Builtin::Cdr => match eval_unary("cdr"@, args, env, fuel) {
            Err(f) => Err(f),
            Ok((v, env1)) => with_env(cdr_of(v), env1),
        },
        Builtin::Not => match eval_unary("not"@, args, env, fuel) {
            Err(f) => Err(f),
            Ok((v, env1)) => Ok((Value::Bool(!truthy(v)), env1)),
        },
        Builtin::IntToBool => match eval_unary("int_to_bool"@, args, env, fuel) {
            Err(f) => Err(f),
            Ok((v, env1)) => with_env(int_to_bool_of(v), env1),
        },
        Builtin::BoolToInt => match eval_unary("bool_to_int"@, args, env, fuel) {
            Err(f) => Err(f),
            Ok((v, env1)) => with_env(bool_to_int_of(v), env1),
        },
        Builtin::IsNil => match eval_unary("is_nil"@, args, env, fuel) {
            Err(f) => Err(f),
            Ok((v, env1)) => Ok((Value::Bool(v == Value::Nil), env1)),
        },
        Builtin::IsInt => match eval_unary("is_int"@, args, env, fuel) {
            Err(f) => Err(f),
            Ok((v, env1)) => Ok((Value::Bool(v is Integer), env1)),
        },
        Builtin::IsBool => match eval_unary("is_bool"@, args, env, fuel) {
            Err(f) => Err(f),
            Ok((v, env1)) => Ok((Value::Bool(v is Bool), env1)),
        },
        Builtin::Quote => match arity_failure("wrapped_quote"@, 1, args) {
            Some(f) => Err(f),
            None => Ok((head(args), env)),
        },
        Builtin::Cons => match arity_failure("wrapped_cons"@, 2, args) {
            Some(f) => Err(f),
            None => match eval(head(args), env, fuel) {
                Err(f) => Err(f),
                Ok((a, env1)) => match eval(head(tail(args)), env1, fuel) {
                    Err(f) => Err(f),
                    Ok((d, env2)) => Ok((pair(a, d), env2)),
                },
            },
        },
        Builtin::Lambda => match arity_failure("wrapped_lambda"@, 2, args) {
            Some(f) => Err(f),
            None => if symbol_list(head(args)) {
                Ok(
                    (
                        Value::Function(Box::new(head(args)), Box::new(head(tail(args)))),
                        env,
                    ),
                )
            } else {
                Err(
                    failure(
                        ErrorKind::Type,
                        "first argument of lambda definition must be a list of parameters"@,
                    ),
                )
            },
        },
        Builtin::Define => match arity_failure("wrapped_define"@, 2, args) {
            Some(f) => Err(f),
            None => match head(args) {
                Value::Symbol(name) => match eval(head(tail(args)), env, fuel) {
                    Err(f) => Err(f),
                    Ok((v, env1)) => Ok(
                        (head(args), pair(pair(head(args), v), env1)),
                    ),
                },
                _ => Err(
                    failure(ErrorKind::Type, "first argument passed to define must be a symbol"@),
                ),
            },
        },
        Builtin::If => match arity_failure("wrapped_if"@, 3, args) {
            Some(f) => Err(f),
            None => match eval(head(args), env, fuel) {
                Err(f) => Err(f),
                Ok((c, env1)) => if truthy(c) {
                    eval(head(tail(args)), env1, fuel)
                } else {
                    eval(head(tail(tail(args))), env1, fuel)
                },
            },
        },
        Builtin::Add => if is_proper(args) {
            fold_arith(ArithOp::Add, args, env, fuel)
        } else {
            Err(improper_failure("wrapped_add"@))
        },
        Builtin::Mul => if is_proper(args) {
            fold_arith(ArithOp::Mul, args, env, fuel)
        } else {
            Err(improper_failure("wrapped_mul"@))
        },
        Builtin::Sub => subtract(args, env, fuel),
        Builtin::And => if is_proper(args) {
            fold_logic(true, args, env, fuel)
        } else {
            Err(improper_failure("wrapped_and"@))
        },
        Builtin::Or => if is_proper(args) {
            fold_logic(false, args, env, fuel)
        } else {
            Err(improper_failure("wrapped_or"@))
        },
    }
}

} // verus!
