//! The built-in procedures and special forms. Each takes its arguments
//! unevaluated, with the environment, and decides itself what to evaluate.
use std::rc::Rc;
use vstd::prelude::*;
use vstd::string::*;

use crate::functions;
use crate::semantics::{
    apply_builtin, fold_arith, fold_logic, head, improper_failure, lemma_proper_shape, pair, spine,
    symbol_list, ArithOp,
};
use crate::types::{outcome_of, Builtin, Cons, Error, ErrorKind, Function, Object};

verus! {

fn improper_error(name: &str) -> (r: Error)
    ensures
        r@ == improper_failure(name@),
{
    let mut message = String::from_str("arguments passed to ");
    message.append(name);
    message.append(" must be a proper list");
    Error::new(ErrorKind::Arity, message)
}

/// The value of the single argument of the built-in `name`, after its arity check.
fn eval_unary(name: &str, args: &Cons, env: &Cons, depth: u64) -> (r: Result<(Rc<Object>, Cons), Error>)
    ensures
        outcome_of(r) == crate::semantics::eval_unary(name@, args@, env@, depth as nat),
    decreases depth, 1nat, 0nat,
{
    if let Err(e) = functions::ensure_n_args(name, 1, args) {
        return Err(e);
    }
    args.car().eval(env, depth)
}

/// `(car x)`: the first component of the value of `x`.
pub fn car(args: &Cons, env: &Cons, depth: u64) -> (r: Result<(Rc<Object>, Cons), Error>)
    ensures
        outcome_of(r) == apply_builtin(Builtin::Car, args@, env@, depth as nat),
    decreases depth, 1nat, 1nat,
{
    let (first_arg, env) = match eval_unary("car", args, env, depth) {
        Ok(p) => p,
        Err(e) => return Err(e),
    };
    match first_arg.car() {
        Ok(v) => Ok((v, env)),
        Err(e) => Err(e),
    }
}

/// `(cdr x)`: the second component of the value of `x`.
pub fn cdr(args: &Cons, env: &Cons, depth: u64) -> (r: Result<(Rc<Object>, Cons), Error>)
    ensures
        outcome_of(r) == apply_builtin(Builtin::Cdr, args@, env@, depth as nat),
    decreases depth, 1nat, 1nat,
{
    let (first_arg, env) = match eval_unary("cdr", args, env, depth) {
        Ok(p) => p,
        Err(e) => return Err(e),
    };
    match first_arg.cdr() {
        Ok(v) => Ok((v, env)),
        Err(e) => Err(e),
    }
}

/// `(not x)`: whether the value of `x` is `false`.
pub fn not(args: &Cons, env: &Cons, depth: u64) -> (r: Result<(Rc<Object>, Cons), Error>)
    ensures
        outcome_of(r) == apply_builtin(Builtin::Not, args@, env@, depth as nat),
    decreases depth, 1nat, 1nat,
{
    let (first_arg, env) = match eval_unary("not", args, env, depth) {
        Ok(p) => p,
        Err(e) => return Err(e),
    };
    Ok((functions::not(&first_arg), env))
}

/// `(int->bool x)`: whether the integer value of `x` is not zero.
pub fn int_to_bool(args: &Cons, env: &Cons, depth: u64) -> (r: Result<(Rc<Object>, Cons), Error>)
    ensures
        outcome_of(r) == apply_builtin(Builtin::IntToBool, args@, env@, depth as nat),
    decreases depth, 1nat, 1nat,
{
    let (first_arg, env) = match eval_unary("int_to_bool", args, env, depth) {
        Ok(p) => p,
        Err(e) => return Err(e),
    };
    match functions::int_to_bool(&first_arg) {
        Ok(v) => Ok((v, env)),
        Err(e) => Err(e),
    }
}

/// `(bool->int x)`: 1 or 0 for the boolean value of `x`.
pub fn bool_to_int(args: &Cons, env: &Cons, depth: u64) -> (r: Result<(Rc<Object>, Cons), Error>)
    ensures
        outcome_of(r) == apply_builtin(Builtin::BoolToInt, args@, env@, depth as nat),
    decreases depth, 1nat, 1nat,
{
    let (first_arg, env) = match eval_unary("bool_to_int", args, env, depth) {
        Ok(p) => p,
        Err(e) => return Err(e),
    };
    match functions::bool_to_int(&first_arg) {
        Ok(v) => Ok((v, env)),
        Err(e) => Err(e),
    }
}

/// `(nil? x)`: whether the value of `x` is the empty list.
pub fn is_nil(args: &Cons, env: &Cons, depth: u64) -> (r: Result<(Rc<Object>, Cons), Error>)
    ensures
        outcome_of(r) == apply_builtin(Builtin::IsNil, args@, env@, depth as nat),
    decreases depth, 1nat, 1nat,
{
    let (first_arg, env) = match eval_unary("is_nil", args, env, depth) {
        Ok(p) => p,
        Err(e) => return Err(e),
    };
    let b = match &*first_arg {
        Object::Cons(Cons(None)) => true,
        _ => false,
    };
    Ok((Rc::new(Object::Bool(b)), env))
}

/// `(int? x)`: whether the value of `x` is an integer.
pub fn is_int(args: &Cons, env: &Cons, depth: u64) -> (r: Result<(Rc<Object>, Cons), Error>)
    ensures
        outcome_of(r) == apply_builtin(Builtin::IsInt, args@, env@, depth as nat),
    decreases depth, 1nat, 1nat,
{
    let (first_arg, env) = match eval_unary("is_int", args, env, depth) {
        Ok(p) => p,
        Err(e) => return Err(e),
    };
    let b = match &*first_arg {
        Object::Integer(_) => true,
        _ => false,
    };
    Ok((Rc::new(Object::Bool(b)), env))
}

/// `(bool? x)`: whether the value of `x` is a boolean.
pub fn is_bool(args: &Cons, env: &Cons, depth: u64) -> (r: Result<(Rc<Object>, Cons), Error>)
    ensures
        outcome_of(r) == apply_builtin(Builtin::IsBool, args@, env@, depth as nat),
    decreases depth, 1nat, 1nat,
{
    let (first_arg, env) = match eval_unary("is_bool", args, env, depth) {
        Ok(p) => p,
        Err(e) => return Err(e),
    };
    let b = match &*first_arg {
        Object::Bool(_) => true,
        _ => false,
    };
    Ok((Rc::new(Object::Bool(b)), env))
}

/// `(quote x)`: `x`, unevaluated.
pub fn quote(args: &Cons, env: &Cons, depth: u64) -> (r: Result<(Rc<Object>, Cons), Error>)
    ensures
        outcome_of(r) == apply_builtin(Builtin::Quote, args@, env@, depth as nat),
{
    if let Err(e) = functions::ensure_n_args("wrapped_quote", 1, args) {
        return Err(e);
    }
    Ok((args.car(), env.clone()))
}

/// `(cons a d)`: a new pair of the values of `a` and `d`.
pub fn cons(args: &Cons, env: &Cons, depth: u64) -> (r: Result<(Rc<Object>, Cons), Error>)
    ensures
        outcome_of(r) == apply_builtin(Builtin::Cons, args@, env@, depth as nat),
    decreases depth, 1nat, 1nat,
{
    if let Err(e) = functions::ensure_n_args("wrapped_cons", 2, args) {
        return Err(e);
    }
    proof {
        lemma_proper_shape(args@, 2);
    }
    let (car, env) = match args.car().eval(env, depth) {
        Ok(p) => p,
        Err(e) => return Err(e),
    };
    let second = match args.cdr().car() {
        Ok(x) => x,
        Err(e) => return Err(e),
    };
    let (cdr, env) = match second.eval(&env, depth) {
        Ok(p) => p,
        Err(e) => return Err(e),
    };
    Ok((Rc::new(Object::Cons(Cons(Some((car, cdr))))), env))
}

/// The right fold of `*` (when `is_mul`) or `+` over the values of `args`.
fn fold_arith_list(is_mul: bool, args: &Cons, env: &Cons, depth: u64) -> (r: Result<
    (Rc<Object>, Cons),
    Error,
>)
    ensures
        outcome_of(r) == fold_arith(
            if is_mul {
                ArithOp::Mul
            } else {
                ArithOp::Add
            },
            args@,
            env@,
            depth as nat,
        ),
    decreases depth, 1nat, spine(args@),
{
    let name = if is_mul {
        "wrapped_mul"
    } else {
        "wrapped_add"
    };
    match &args.0 {
        None => Ok((Rc::new(Object::Integer(if is_mul { 1 } else { 0 })), env.clone())),
        Some((car, cdr)) => match &**cdr {
            Object::Cons(rest) => {
                let (lhs, env) = match car.clone().eval(env, depth) {
                    Ok(p) => p,
                    Err(e) => return Err(e),
                };
                let (rhs, env) = match fold_arith_list(is_mul, rest, &env, depth) {
                    Ok(p) => p,
                    Err(e) => return Err(e),
                };
                let v = if is_mul {
                    functions::mul(&lhs, &rhs)
                } else {
                    functions::add(&lhs, &rhs)
                };
                match v {
                    Ok(v) => Ok((Rc::new(v), env)),
                    Err(e) => Err(e),
                }
            },
            _ => Err(improper_error(name)),
        },
    }
}

/// `(+ x ...)`: the sum of the values, 0 for none; an argument list that is
/// not a proper list is an error.
pub fn add(args: &Cons, env: &Cons, depth: u64) -> (r: Result<(Rc<Object>, Cons), Error>)
    ensures
        outcome_of(r) == apply_builtin(Builtin::Add, args@, env@, depth as nat),
    decreases depth, 1nat, spine(args@) + 1,
{
    if !args.is_proper_list() {
        return Err(improper_error("wrapped_add"));
    }
    fold_arith_list(false, args, env, depth)
}

/// `(- x)`: the negation of the value; `(- x y ...)`: the first value minus
/// the sum of the others; an argument list that is not a proper list is an
/// error.
pub fn sub(args: &Cons, env: &Cons, depth: u64) -> (r: Result<(Rc<Object>, Cons), Error>)
    ensures
        outcome_of(r) == apply_builtin(Builtin::Sub, args@, env@, depth as nat),
    decreases depth, 1nat, spine(args@) + 1,
{
    if !args.is_proper_list() {
        return Err(improper_error("wrapped_sub"));
    }
    let n = args.len();
    if n == 0 {
        Err(
            Error::new(
                ErrorKind::Arity,
                String::from_str("wrapped_sub expected at least 1 argument but got 0"),
            ),
        )
    } else if n == 1 {
        let (rhs, env) = match args.car().eval(env, depth) {
            Ok(p) => p,
            Err(e) => return Err(e),
        };
        match functions::sub(&Object::Integer(0), &rhs) {
            Ok(v) => Ok((Rc::new(v), env)),
            Err(e) => Err(e),
        }
    } else {
        match &*args.cdr() {
            Object::Cons(rest) => {
                let (lhs, env) = match args.car().eval(env, depth) {
                    Ok(p) => p,
                    Err(e) => return Err(e),
                };
                let (rhs, env) = match fold_arith_list(false, rest, &env, depth) {
                    Ok(p) => p,
                    Err(e) => return Err(e),
                };
                match functions::sub(&lhs, &rhs) {
                    Ok(v) => Ok((Rc::new(v), env)),
                    Err(e) => Err(e),
                }
            },
            _ => Err(improper_error("wrapped_sub")),
        }
    }
}

/// `(* x ...)`: the product of the values, 1 for none; an argument list that
/// is not a proper list is an error.
pub fn mul(args: &Cons, env: &Cons, depth: u64) -> (r: Result<(Rc<Object>, Cons), Error>)
    ensures
        outcome_of(r) == apply_builtin(Builtin::Mul, args@, env@, depth as nat),
    decreases depth, 1nat, spine(args@) + 1,
{
    if !args.is_proper_list() {
        return Err(improper_error("wrapped_mul"));
    }
    fold_arith_list(true, args, env, depth)
}

/// Whether `list` is a proper list of symbols.
fn is_symbol_list(list: &Cons) -> (r: bool)
    ensures
        r == symbol_list(list@),
    decreases list,
{
    match &list.0 {
        None => true,
        Some((first, rest)) => {
            if let Object::Symbol(_) = &**first {
                match &**rest {
                    Object::Cons(next) => {
                        assert((**rest)@ == next@);
                        is_symbol_list(next)
                    },
                    _ => {
                        assert(!symbol_list((**rest)@));
                        false
                    },
                }
            } else {
                assert(!((**first)@ is Symbol));
                false
            }
        },
    }
}

/// `(lambda params body)`: a closure of the two, both unevaluated; `params`
/// must be a proper list of symbols.
pub fn lambda(args: &Cons, env: &Cons, depth: u64) -> (r: Result<(Rc<Object>, Cons), Error>)
    ensures
        outcome_of(r) == apply_builtin(Builtin::Lambda, args@, env@, depth as nat),
{
    if let Err(e) = functions::ensure_n_args("wrapped_lambda", 2, args) {
        return Err(e);
    }
    proof {
        lemma_proper_shape(args@, 2);
    }
    match &*args.car() {
        Object::Cons(param_list) => {
            if !is_symbol_list(param_list) {
                return Err(lambda_params_error());
            }
            let body = match args.cdr().car() {
                Ok(x) => x,
                Err(e) => return Err(e),
            };
            Ok((Rc::new(Object::Function(Function::new(param_list.clone(), body))), env.clone()))
        },
        _ => Err(lambda_params_error()),
    }
}

fn lambda_params_error() -> (r: Error)
    ensures
        r@.kind == ErrorKind::Type,
        r@.message == "first argument of lambda definition must be a list of parameters"@,
{
    Error::new(
        ErrorKind::Type,
        String::from_str("first argument of lambda definition must be a list of parameters"),
    )
}

/// The values of `args` up to the first false one, the last value when all
/// are true, `true` for none.
fn and_list(args: &Cons, env: &Cons, depth: u64) -> (r: Result<(Rc<Object>, Cons), Error>)
    ensures
        outcome_of(r) == fold_logic(true, args@, env@, depth as nat),
    decreases depth, 1nat, spine(args@),
{
    match &args.0 {
        None => Ok((Rc::new(Object::Bool(true)), env.clone())),
        Some((car, cdr)) => match &**cdr {
            Object::Cons(rest) => {
                let (lhs, env) = match car.clone().eval(env, depth) {
                    Ok(p) => p,
                    Err(e) => return Err(e),
                };
                if functions::is_truthy(&lhs) && rest.0.is_some() {
                    and_list(rest, &env, depth)
                } else {
                    Ok((lhs, env))
                }
            },
            _ => Err(improper_error("wrapped_and")),
        },
    }
}

/// `(and x ...)`: the first false value, else the last value, `true` for
/// none; an argument list that is not a proper list is an error.
pub fn and(args: &Cons, env: &Cons, depth: u64) -> (r: Result<(Rc<Object>, Cons), Error>)
    ensures
        outcome_of(r) == apply_builtin(Builtin::And, args@, env@, depth as nat),
    decreases depth, 1nat, spine(args@) + 1,
{
    if !args.is_proper_list() {
        return Err(improper_error("wrapped_and"));
    }
    and_list(args, env, depth)
}

/// The first true value of `args`, `false` when there is none.
fn or_list(args: &Cons, env: &Cons, depth: u64) -> (r: Result<(Rc<Object>, Cons), Error>)
    ensures
        outcome_of(r) == fold_logic(false, args@, env@, depth as nat),
    decreases depth, 1nat, spine(args@),
{
    match &args.0 {
        None => Ok((Rc::new(Object::Bool(false)), env.clone())),
        Some((car, cdr)) => match &**cdr {
            Object::Cons(rest) => {
                let (lhs, env) = match car.clone().eval(env, depth) {
                    Ok(p) => p,
                    Err(e) => return Err(e),
                };
                if functions::is_truthy(&lhs) {
                    Ok((lhs, env))
                } else {
                    or_list(rest, &env, depth)
                }
            },
            _ => Err(improper_error("wrapped_or")),
        },
    }
}

/// `(or x ...)`: the first true value, else `false`; an argument list that is
/// not a proper list is an error.
pub fn or(args: &Cons, env: &Cons, depth: u64) -> (r: Result<(Rc<Object>, Cons), Error>)
    ensures
        outcome_of(r) == apply_builtin(Builtin::Or, args@, env@, depth as nat),
    decreases depth, 1nat, spine(args@) + 1,
{
    if !args.is_proper_list() {
        return Err(improper_error("wrapped_or"));
    }
    or_list(args, env, depth)
}

/// `(define name x)`: `name`, with the environment extended at the front by
/// `name` bound to the value of `x`.
pub fn define(args: &Cons, env: &Cons, depth: u64) -> (r: Result<(Rc<Object>, Cons), Error>)
    ensures
        outcome_of(r) == apply_builtin(Builtin::Define, args@, env@, depth as nat),
    decreases depth, 1nat, 1nat,
{
    if let Err(e) = functions::ensure_n_args("wrapped_define", 2, args) {
        return Err(e);
    }
    proof {
        lemma_proper_shape(args@, 2);
    }
    match &*args.car() {
        Object::Symbol(var_name) => {
            let value_expr = match args.cdr().car() {
                Ok(x) => x,
                Err(e) => return Err(e),
            };
            let (var_value, env) = match value_expr.eval(env, depth) {
                Ok(p) => p,
                Err(e) => return Err(e),
            };
            let binding = Cons(Some((Rc::new(Object::Symbol(var_name.clone())), var_value)));
            let name = Rc::new(Object::Symbol(var_name.clone()));
            assert((*name)@ == head(args@));
            let new_env = Cons(Some((Rc::new(Object::Cons(binding)), Rc::new(Object::Cons(env)))));
            assert(binding@ == pair(head(args@), (*var_value)@));
            assert(new_env@ == pair(pair(head(args@), (*var_value)@), env@));
            Ok((name, new_env))
        },
        _ => Err(
            Error::new(
                ErrorKind::Type,
                String::from_str("first argument passed to define must be a symbol"),
            ),
        ),
    }
}

/// `(if c a b)`: the value of `a` when `c` is true, else that of `b`; the
/// other branch is not evaluated.
pub fn if_(args: &Cons, env: &Cons, depth: u64) -> (r: Result<(Rc<Object>, Cons), Error>)
    ensures
        outcome_of(r) == apply_builtin(Builtin::If, args@, env@, depth as nat),
    decreases depth, 1nat, 1nat,
{
    if let Err(e) = functions::ensure_n_args("wrapped_if", 3, args) {
        return Err(e);
    }
    proof {
        lemma_proper_shape(args@, 3);
        lemma_proper_shape(crate::semantics::tail(args@), 2);
    }
    let (condition, env) = match args.car().eval(env, depth) {
        Ok(p) => p,
        Err(e) => return Err(e),
    };
    let branch = if functions::is_truthy(&condition) {
        args.cdr().car()
    } else {
        match args.cdr().cdr() {
            Ok(rest) => rest.car(),
            Err(e) => Err(e),
        }
    };
    match branch {
        Ok(expr) => expr.eval(&env, depth),
        Err(e) => Err(e),
    }
}

} // verus!
