//! The evaluator: `eval` dispatches on the variant of an expression, `apply`
//! on the variant of a callable.
use std::rc::Rc;
use vstd::prelude::*;
use vstd::string::*;

use crate::functions::{join_two_lists_cons, type_error_of_one};
use crate::semantics::{
    apply, apply_builtin, car_of, cdr_of, depth_failure, eval_call,
    eval_elements, lookup, spine, unbound_failure, with_env, Failure, Outcome, Value,
};
use crate::types::{
    outcome_of, value_result, Builtin, BuiltinFunction, Cons, Error, ErrorKind, Function, Object,
    Symbol,
};
use crate::wrapped;

verus! {

/// How many evaluations may be nested in one another before evaluation
/// gives up with an error.
pub const MAX_DEPTH: u64 = 1000;

/// What a result holding two lists means.
pub open spec fn lists_outcome(r: Result<(Cons, Cons), Error>) -> Outcome {
    match r {
        Ok((a, b)) => Ok((a@, b@)),
        Err(e) => Err(e@),
    }
}

fn depth_error() -> (r: Error)
    ensures
        r@ == depth_failure(),
{
    Error::new(ErrorKind::Depth, String::from_str("evaluation nested too deeply"))
}

impl Object {
    /// `car` of a value: the first component of a pair, the empty list for the
    /// empty list, and a type error for anything else.
    pub fn car(self: Rc<Self>) -> (r: Result<Rc<Self>, Error>)
        ensures
            value_result(r) == car_of((*self)@),
    {
        match &*self {
            Object::Cons(cons) => match &cons.0 {
                Some(_) => Ok(cons.car()),
                None => Ok(self.clone()),
            },
            _ => Err(type_error_of_one("Object::car", &*self)),
        }
    }

    /// `cdr` of a value: the second component of a pair, the empty list for the
    /// empty list, and a type error for anything else.
    pub fn cdr(self: Rc<Self>) -> (r: Result<Rc<Self>, Error>)
        ensures
            value_result(r) == cdr_of((*self)@),
    {
        match &*self {
            Object::Cons(cons) => match &cons.0 {
                Some(_) => Ok(cons.cdr()),
                None => Ok(self.clone()),
            },
            _ => Err(type_error_of_one("Object::cdr", &*self)),
        }
    }

    /// Apply this callable to the unevaluated argument list `args`.
    pub fn apply(&self, args: &Cons, env: &Cons, depth: u64) -> (r: Result<(Rc<Self>, Cons), Error>)
        ensures
            outcome_of(r) == apply(self@, args@, env@, depth as nat),
        decreases depth, 3nat, 0nat,
    {
        match self {
            Object::Function(func) => func.apply(args, env, depth),
            Object::BuiltinFunction(func) => func.apply(args, env, depth),
            _ => Err(type_error_of_one("apply_obj", self)),
        }
    }

    /// Evaluate this expression in `env`, with at most `depth` evaluations
    /// nested in one another.
    pub fn eval(self: Rc<Self>, env: &Cons, depth: u64) -> (r: Result<(Rc<Self>, Cons), Error>)
        ensures
            outcome_of(r) == crate::semantics::eval((*self)@, env@, depth as nat),
        decreases depth, 0nat, 0nat,
    {
        if depth == 0 {
            return Err(depth_error());
        }
        match &*self {
            Object::Integer(_) | Object::Bool(_) | Object::Function(_) | Object::BuiltinFunction(
                _,
            ) => Ok((self.clone(), env.clone())),
            Object::Cons(cons) => match &cons.0 {
                None => Ok((self.clone(), env.clone())),
                Some(_) => cons.eval(env, depth - 1),
            },
            Object::Symbol(symbol) => symbol.eval(env),
            Object::Quote(quote) => Ok((quote.0.clone(), env.clone())),
        }
    }
}

impl Cons {
    /// Evaluate this call form: its head, then the head's value applied to the
    /// unevaluated rest.
    pub fn eval(&self, env: &Cons, depth: u64) -> (r: Result<(Rc<Object>, Cons), Error>)
        ensures
            outcome_of(r) == eval_call(self@, env@, depth as nat),
        decreases depth, 4nat, 0nat,
    {
        let rest = self.cdr();
        let args = match &*rest {
            Object::Cons(args) => args,
            _ => {
                return Err(
                    Error::new(
                        ErrorKind::Shape,
                        String::from_str("cdr of argument passed to eval_cons must be a cons"),
                    ),
                );
            },
        };
        let (func, env) = match self.car().eval(env, depth) {
            Ok(p) => p,
            Err(e) => return Err(e),
        };
        func.apply(args, &env, depth)
    }
}

impl Symbol {
    fn lookup_in(&self, env: &Cons) -> (r: Result<Rc<Object>, Error>)
        ensures
            value_result(r) == lookup(self@, env@),
        decreases env,
    {
        match &env.0 {
            None => Err(unbound_error(self)),
            Some((first, rest)) => {
                let key = match first.clone().car() {
                    Ok(k) => k,
                    Err(e) => return Err(e),
                };
                if let Object::Symbol(found) = &*key {
                    if self == found {
                        return first.clone().cdr();
                    }
                }
                match &**rest {
                    Object::Cons(next) => self.lookup_in(next),
                    _ => Err(unbound_error(self)),
                }
            },
        }
    }

    /// The value of the first binding of this symbol in `env`, with `env`.
    pub fn eval(&self, env: &Cons) -> (r: Result<(Rc<Object>, Cons), Error>)
        ensures
            outcome_of(r) == with_env(lookup(self@, env@), env@),
    {
        match self.lookup_in(env) {
            Ok(v) => Ok((v, env.clone())),
            Err(e) => Err(e),
        }
    }
}

fn unbound_error(symbol: &Symbol) -> (r: Error)
    ensures
        r@ == unbound_failure(symbol@),
{
    let mut message = String::from_str("Unbound variable ");
    message.append(symbol.name.as_str());
    Error::new(ErrorKind::Unbound, message)
}

impl Function {
    pub fn new(parameters: Cons, body: Rc<Object>) -> (r: Function)
        ensures
            r@ == Value::Function(Box::new(parameters@), Box::new((*body)@)),
    {
        Function { parameters, body }
    }

    /// Evaluate the arguments, which must form a proper list, bind the
    /// parameters to them in front of the calling environment, and evaluate
    /// the body there.
    pub fn apply(&self, args: &Cons, env: &Cons, depth: u64) -> (r: Result<(Rc<Object>, Cons), Error>)
        ensures
            outcome_of(r) == apply(self@, args@, env@, depth as nat),
        decreases depth, 2nat, 0nat,
    {
        if !args.is_proper_list() {
            let mut message = String::from_str("arguments passed to ");
            message.append("a function");
            message.append(" must be a proper list");
            return Err(Error::new(ErrorKind::Arity, message));
        }
        let (calling_args, env) = match eval_list_elements(args, env, depth) {
            Ok(p) => p,
            Err(e) => return Err(e),
        };
        self.body.clone().eval(&join_two_lists_cons(&self.parameters, &calling_args, &env), depth)
    }
}

impl BuiltinFunction {
    /// Run the built-in on its unevaluated arguments.
    pub fn apply(&self, args: &Cons, env: &Cons, depth: u64) -> (r: Result<(Rc<Object>, Cons), Error>)
        ensures
            outcome_of(r) == apply_builtin(self.0, args@, env@, depth as nat),
        decreases depth, 2nat, 0nat,
    {
        match self.0 {
            Builtin::Car => wrapped::car(args, env, depth),
            Builtin::Cdr => wrapped::cdr(args, env, depth),
            Builtin::Cons => wrapped::cons(args, env, depth),
            Builtin::Lambda => wrapped::lambda(args, env, depth),
            Builtin::Add => wrapped::add(args, env, depth),
            Builtin::Sub => wrapped::sub(args, env, depth),
            Builtin::Mul => wrapped::mul(args, env, depth),
            Builtin::Quote => wrapped::quote(args, env, depth),
            Builtin::IntToBool => wrapped::int_to_bool(args, env, depth),
            Builtin::BoolToInt => wrapped::bool_to_int(args, env, depth),
            Builtin::And => wrapped::and(args, env, depth),
            Builtin::Or => wrapped::or(args, env, depth),
            Builtin::Not => wrapped::not(args, env, depth),
            Builtin::Define => wrapped::define(args, env, depth),
            Builtin::IsNil => wrapped::is_nil(args, env, depth),
            Builtin::IsInt => wrapped::is_int(args, env, depth),
            Builtin::IsBool => wrapped::is_bool(args, env, depth),
            Builtin::If => wrapped::if_(args, env, depth),
        }
    }
}

/// Evaluate each element of `list` left to right, threading the environment;
/// a tail that is not a list is dropped.
pub fn eval_list_elements(list: &Cons, env: &Cons, depth: u64) -> (r: Result<(Cons, Cons), Error>)
    ensures
        lists_outcome(r) == eval_elements(list@, env@, depth as nat),
    decreases depth, 1nat, spine(list@),
{
    match &list.0 {
        None => Ok((list.clone(), env.clone())),
        Some((first, second)) => {
            let (evaluated_first, env) = match first.clone().eval(env, depth) {
                Ok(p) => p,
                Err(e) => return Err(e),
            };
            if let Object::Cons(rest) = &**second {
                let (evaluated_rest, env) = match eval_list_elements(rest, &env, depth) {
                    Ok(p) => p,
                    Err(e) => return Err(e),
                };
                Ok((Cons(Some((evaluated_first, Rc::new(Object::Cons(evaluated_rest))))), env))
            } else {
                Ok((Cons(Some((evaluated_first, Rc::new(Object::Cons(Cons(None)))))), env))
            }
        },
    }
}

/// Evaluate one top-level expression with the depth bound `MAX_DEPTH`: its
/// value or error, with the environment for the next expression, which is
/// the one the evaluation returned, or `env` itself after an error.
pub fn eval_top_level(expr: Rc<Object>, env: &Cons) -> (r: (Result<Rc<Object>, Error>, Cons))
    ensures
        match crate::semantics::eval((*expr)@, env@, MAX_DEPTH as nat) {
            Ok((v, next)) => value_result(r.0) == Ok::<Value, Failure>(v) && r.1@ == next,
            Err(f) => value_result(r.0) == Err::<Value, Failure>(f) && r.1@ == env@,
        },
{
    match expr.eval(env, MAX_DEPTH) {
        Ok((v, next)) => (Ok(v), next),
        Err(e) => (Err(e), env.clone()),
    }
}

} // verus!
