//! Runtime values: the shared, immutable object graph that expressions,
//! closures and environments are all built from.
use std::rc::Rc;
use vstd::prelude::*;

use crate::semantics::{
    counted_len, head, is_proper, pair, tail, Failure, Outcome, Value,
};

verus! {

/// The built-in procedures and special forms.
#[derive(Clone, Copy, Debug, PartialEq, Eq, Structural)]
pub enum Builtin {
    Car,
    Cdr,
    Cons,
    Lambda,
    Add,
    Sub,
    Mul,
    Quote,
    IntToBool,
    BoolToInt,
    And,
    Or,
    Not,
    Define,
    IsNil,
    IsInt,
    IsBool,
    If,
}

/// The category of an evaluation error.
#[derive(Clone, Copy, Debug, PartialEq, Eq, Structural)]
pub enum ErrorKind {
    /// An operand of the wrong variant.
    Type,
    /// A wrong number of arguments, or an argument list that is not a proper list.
    Arity,
    /// A symbol with no binding.
    Unbound,
    /// A call form whose operands are not list-shaped.
    Shape,
    /// Evaluations nested deeper than the evaluator allows.
    Depth,
}

/// Every runtime value and every expression.
pub enum Object {
    Integer(i32),
    Symbol(Symbol),
    Function(Function),
    BuiltinFunction(BuiltinFunction),
    Quote(Quote),
    Cons(Cons),
    Bool(bool),
}

/// An identifier.
pub struct Symbol {
    pub name: String,
}

/// A closure: a parameter list and an unevaluated body.
pub struct Function {
    pub parameters: Cons,
    pub body: Rc<Object>,
}

/// A built-in procedure or special form.
pub struct BuiltinFunction(pub Builtin);

/// A value that evaluates to its contents, unevaluated.
pub struct Quote(pub Rc<Object>);

/// A pair cell, or the empty list.
pub struct Cons(pub Option<(Rc<Object>, Rc<Object>)>);

/// An evaluation error: its category and a message.
pub struct Error {
    pub kind: ErrorKind,
    pub message: String,
}

/// A wrapper around an integer.
pub struct Integer(pub i32);

/// A wrapper around a boolean.
pub struct Bool(pub bool);

impl View for Object {
    type V = Value;

    open spec fn view(&self) -> Value
        decreases self,
    {
        match self {
            Object::Integer(i) => Value::Integer(*i),
            Object::Symbol(s) => Value::Symbol(s.name@),
            Object::Function(f) => Value::Function(
                Box::new(
                    match f.parameters.0 {
                        Some((a, b)) => Value::Pair(Box::new((*a).view()), Box::new((*b).view())),
                        None => Value::Nil,
                    },
                ),
                Box::new((*f.body).view()),
            ),
            Object::BuiltinFunction(b) => Value::Builtin(b.0),
            Object::Quote(q) => Value::Quote(Box::new((*q.0).view())),
            Object::Cons(c) => match c.0 {
                Some((a, b)) => Value::Pair(Box::new((*a).view()), Box::new((*b).view())),
                None => Value::Nil,
            },
            Object::Bool(b) => Value::Bool(*b),
        }
    }
}

impl View for Cons {
    type V = Value;

    open spec fn view(&self) -> Value {
        match self.0 {
            Some((a, b)) => Value::Pair(Box::new((*a)@), Box::new((*b)@)),
            None => Value::Nil,
        }
    }
}

impl View for Symbol {
    type V = Seq<char>;

    open spec fn view(&self) -> Seq<char> {
        self.name@
    }
}

impl View for Function {
    type V = Value;

    open spec fn view(&self) -> Value {
        Value::Function(Box::new(self.parameters@), Box::new((*self.body)@))
    }
}

impl View for Error {
    type V = Failure;

    open spec fn view(&self) -> Failure {
        Failure { kind: self.kind, message: self.message@ }
    }
}

/// What an evaluation result means.
pub open spec fn outcome_of(r: Result<(Rc<Object>, Cons), Error>) -> Outcome {
    match r {
        Ok((v, env)) => Ok(((*v)@, env@)),
        Err(e) => Err(e@),
    }
}

/// What a result holding a value and no environment means.
pub open spec fn value_result(r: Result<Rc<Object>, Error>) -> Result<Value, Failure> {
    match r {
        Ok(v) => Ok((*v)@),
        Err(e) => Err(e@),
    }
}

/// What a result holding an object by value means.
pub open spec fn plain_result(r: Result<Object, Error>) -> Result<Value, Failure> {
    match r {
        Ok(v) => Ok(v@),
        Err(e) => Err(e@),
    }
}

impl Clone for Cons {
    fn clone(&self) -> (r: Self)
        ensures
            r@ == self@,
    {
        match &self.0 {
            Some((a, b)) => Cons(Some((a.clone(), b.clone()))),
            None => Cons(None),
        }
    }
}

impl Clone for Symbol {
    fn clone(&self) -> (r: Self)
        ensures
            r@ == self@,
    {
        Symbol { name: self.name.clone() }
    }
}

impl PartialEq for Symbol {
    fn eq(&self, other: &Symbol) -> (r: bool) {
        self.name == other.name
    }
}

impl vstd::std_specs::cmp::PartialEqSpecImpl for Symbol {
    open spec fn obeys_eq_spec() -> bool {
        true
    }

    open spec fn eq_spec(&self, other: &Symbol) -> bool {
        self@ == other@
    }
}

impl Cons {
    /// The empty list.
    pub fn nil() -> (r: Cons)
        ensures
            r@ == Value::Nil,
    {
        Cons(None)
    }

    /// A new pair cell.
    pub fn new(first: Rc<Object>, second: Rc<Object>) -> (r: Cons)
        ensures
            r@ == pair((*first)@, (*second)@),
    {
        Cons(Some((first, second)))
    }

    /// Number of elements: the cells along the chain of second components,
    /// a non-list tail ending the count.
    pub fn len(&self) -> (r: usize)
        ensures
            r == counted_len(self@),
        decreases self,
    {
        match &self.0 {
            None => 0,
            Some((_, next)) => match &**next {
                Object::Cons(rest) => {
                    let n = rest.len();
                    if n < usize::MAX {
                        n + 1
                    } else {
                        n
                    }
                },
                _ => 1,
            },
        }
    }

    /// First component; the empty list for the empty list.
    pub fn car(&self) -> (r: Rc<Object>)
        ensures
            (*r)@ == head(self@),
    {
        match &self.0 {
            Some((first, _)) => first.clone(),
            None => Rc::new(Object::Cons(Cons(None))),
        }
    }

    /// Second component; the empty list for the empty list.
    pub fn cdr(&self) -> (r: Rc<Object>)
        ensures
            (*r)@ == tail(self@),
    {
        match &self.0 {
            Some((_, second)) => second.clone(),
            None => Rc::new(Object::Cons(Cons(None))),
        }
    }

    /// Whether the chain of second components ends in the empty list.
    pub fn is_proper_list(&self) -> (r: bool)
        ensures
            r == is_proper(self@),
        decreases self,
    {
        match &self.0 {
            None => true,
            Some((_, next)) => match &**next {
                Object::Cons(rest) => rest.is_proper_list(),
                _ => false,
            },
        }
    }
}

} // verus!
