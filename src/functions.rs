//! Operations on single values: arithmetic, conversions, truthiness, and
//! the construction of error messages.
use std::rc::Rc;
use itertools::Itertools;
use vstd::prelude::*;
use vstd::string::*;

use crate::semantics::{
    arith, arity_failure, bind_params, bool_to_int_of, decimal, digit, int_to_bool_of, is_cell,
    joined, truthy, type_failure, type_tag, ArithOp, Value,
};
use crate::types::{plain_result, value_result, Cons, Error, ErrorKind, Object};

verus! {

/// Relies on itertools' `Itertools::join`: the texts of the items in order,
/// with `sep` between each two, and the empty string for no items.
#[verifier::external_body]
fn join_words(words: &Vec<&str>, sep: &str) -> (r: String)
    ensures
        r@ == joined(words@.map_values(|w: &str| w@), sep@),
{
    words.iter().join(sep)
}

impl Error {
    pub fn new(kind: ErrorKind, message: String) -> (r: Error)
        ensures
            r@.kind == kind,
            r@.message == message@,
    {
        Error { kind, message }
    }

    /// The rendering of the error: `Error: ` and its message.
    pub fn render(&self) -> (r: String)
        ensures
            r@ == "Error: "@ + self.message@,
    {
        let mut r = String::from_str("Error: ");
        r.append(self.message.as_str());
        r
    }
}

impl Object {
    /// The type tag that error messages give for this value.
    pub fn name_of_contained(&self) -> (r: &'static str)
        ensures
            r@ == type_tag(self@),
    {
        match self {
            Object::Integer(_) => "(type int)",
            Object::Symbol(_) => "(type symbol)",
            Object::Function(_) => "(type function)",
            Object::BuiltinFunction(_) => "(type builtin-function)",
            Object::Quote(_) => "(type quote)",
            Object::Cons(_) => "(type cons)",
            Object::Bool(_) => "(type bool)",
        }
    }
}

/// The error for an operation `func_name` that does not take operands of
/// the variants of `args`.
pub fn make_type_error(func_name: &str, args: &[&Object]) -> (r: Error)
    ensures
        r@ == type_failure(func_name@, args@.map_values(|o: &Object| (*o)@)),
{
    let mut tags: Vec<&str> = Vec::new();
    let mut i: usize = 0;
    while i < args.len()
        invariant
            i <= args@.len(),
            tags@.len() == i,
            forall|j: int| 0 <= j < i ==> (#[trigger] tags@[j])@ == type_tag(args@[j]@),
        decreases args@.len() - i,
    {
        tags.push(args[i].name_of_contained());
        i += 1;
    }
    let listed = join_words(&tags, " ");
    assert(tags@.map_values(|w: &str| w@) =~= args@.map_values(|o: &Object| (*o)@).map_values(
        |v: Value| type_tag(v),
    ));
    let mut message = String::from_str(func_name);
    message.append(" is not callable with types (");
    message.append(listed.as_str());
    message.append(")");
    Error::new(ErrorKind::Type, message)
}

fn digit_str(d: usize) -> (r: &'static str)
    requires
        d < 10,
    ensures
        r@ == seq![digit(d as nat)],
{
    proof {
        reveal_strlit("0");
        reveal_strlit("1");
        reveal_strlit("2");
        reveal_strlit("3");
        reveal_strlit("4");
        reveal_strlit("5");
        reveal_strlit("6");
        reveal_strlit("7");
        reveal_strlit("8");
        reveal_strlit("9");
    }
    if d == 0 {
        "0"
    } else if d == 1 {
        "1"
    } else if d == 2 {
        "2"
    } else if d == 3 {
        "3"
    } else if d == 4 {
        "4"
    } else if d == 5 {
        "5"
    } else if d == 6 {
        "6"
    } else if d == 7 {
        "7"
    } else if d == 8 {
        "8"
    } else {
        "9"
    }
}

/// The decimal digits of `n`.
pub fn decimal_string(n: usize) -> (r: String)
    ensures
        r@ == decimal(n as nat),
    decreases n,
{
    let mut s = if n < 10 {
        String::new()
    } else {
        decimal_string(n / 10)
    };
    s.append(digit_str(n % 10));
    proof {
        if n < 10 {
            assert(s@ =~= seq![digit(n as nat)]);
        }
    }
    s
}

/// Why the argument list `list` of `func_name` is not a proper list of exactly
/// `n` elements, if it is not.
pub fn ensure_n_args(func_name: &str, n: usize, list: &Cons) -> (r: Result<(), Error>)
    ensures
        match r {
            Ok(()) => arity_failure(func_name@, n as nat, list@) is None,
            Err(e) => arity_failure(func_name@, n as nat, list@) == Some(e@),
        },
{
    if !list.is_proper_list() {
        let mut message = String::from_str("call to ");
        message.append(func_name);
        message.append(" must be a proper list");
        return Err(Error::new(ErrorKind::Arity, message));
    }
    let length = list.len();
    if length != n {
        let mut message = String::from_str(func_name);
        message.append(" expected ");
        message.append(decimal_string(n).as_str());
        message.append(" arguments but got ");
        message.append(decimal_string(length).as_str());
        return Err(Error::new(ErrorKind::Arity, message));
    }
    Ok(())
}

/// `lhs + rhs` on two integers, wrapping in 32 bits; a type error otherwise.
pub fn add(lhs_obj: &Object, rhs_obj: &Object) -> (r: Result<Object, Error>)
    ensures
        plain_result(r) == arith(ArithOp::Add, lhs_obj@, rhs_obj@),
{
    match (lhs_obj, rhs_obj) {
        (Object::Integer(lhs), Object::Integer(rhs)) => Ok(Object::Integer(lhs.wrapping_add(*rhs))),
        _ => Err(type_error_of_two("add", lhs_obj, rhs_obj)),
    }
}

/// `lhs - rhs` on two integers, wrapping in 32 bits; a type error otherwise.
pub fn sub(lhs_obj: &Object, rhs_obj: &Object) -> (r: Result<Object, Error>)
    ensures
        plain_result(r) == arith(ArithOp::Sub, lhs_obj@, rhs_obj@),
{
    match (lhs_obj, rhs_obj) {
        (Object::Integer(lhs), Object::Integer(rhs)) => Ok(Object::Integer(lhs.wrapping_sub(*rhs))),
        _ => Err(type_error_of_two("sub", lhs_obj, rhs_obj)),
    }
}

/// `lhs * rhs` on two integers, wrapping in 32 bits; a type error otherwise.
pub fn mul(lhs_obj: &Object, rhs_obj: &Object) -> (r: Result<Object, Error>)
    ensures
        plain_result(r) == arith(ArithOp::Mul, lhs_obj@, rhs_obj@),
{
    match (lhs_obj, rhs_obj) {
        (Object::Integer(lhs), Object::Integer(rhs)) => Ok(Object::Integer(lhs.wrapping_mul(*rhs))),
        _ => Err(type_error_of_two("mul", lhs_obj, rhs_obj)),
    }
}

fn type_error_of_two(func_name: &str, lhs_obj: &Object, rhs_obj: &Object) -> (r: Error)
    ensures
        r@ == type_failure(func_name@, seq![lhs_obj@, rhs_obj@]),
{
    let args: [&Object; 2] = [lhs_obj, rhs_obj];
    let r = make_type_error(func_name, args.as_slice());
    assert(args@.map_values(|o: &Object| (*o)@) =~= seq![lhs_obj@, rhs_obj@]);
    r
}

/// The error of the one-operand operation `func_name` on `obj`.
pub fn type_error_of_one(func_name: &str, obj: &Object) -> (r: Error)
    ensures
        r@ == type_failure(func_name@, seq![obj@]),
{
    let args: [&Object; 1] = [obj];
    let r = make_type_error(func_name, args.as_slice());
    assert(args@.map_values(|o: &Object| (*o)@) =~= seq![obj@]);
    r
}

fn join_two_lists_obj(first_obj: &Object, second_obj: &Object, last: &Cons) -> (r: Cons)
    ensures
        r@ == (if is_cell(first_obj@) && is_cell(second_obj@) {
            bind_params(first_obj@, second_obj@, last@)
        } else {
            last@
        }),
    decreases first_obj,
{
    match (first_obj, second_obj) {
        (Object::Cons(first), Object::Cons(second)) => join_two_lists_cons(first, second, last),
        _ => last.clone(),
    }
}

/// Pairs of the elements at equal positions of `first` and `second`, as far
/// as both reach, in front of `last`.
pub fn join_two_lists_cons(first: &Cons, second: &Cons, last: &Cons) -> (r: Cons)
    ensures
        r@ == bind_params(first@, second@, last@),
    decreases first,
{
    match (&first.0, &second.0) {
        (Some((first_car, first_cdr)), Some((second_car, second_cdr))) => Cons(
            Some(
                (
                    Rc::new(Object::Cons(Cons(Some((first_car.clone(), second_car.clone()))))),
                    Rc::new(Object::Cons(join_two_lists_obj(first_cdr, second_cdr, last))),
                ),
            ),
        ),
        _ => last.clone(),
    }
}

/// `(type int)` to boolean: whether it is not zero.
pub fn int_to_bool(obj: &Object) -> (r: Result<Rc<Object>, Error>)
    ensures
        value_result(r) == int_to_bool_of(obj@),
{
    match obj {
        Object::Integer(val) => Ok(Rc::new(Object::Bool(*val != 0))),
        _ => Err(type_error_of_one("int_to_bool", obj)),
    }
}

/// Boolean to integer: 1 for true, 0 for false.
pub fn bool_to_int(obj: &Object) -> (r: Result<Rc<Object>, Error>)
    ensures
        value_result(r) == bool_to_int_of(obj@),
{
    match obj {
        Object::Bool(val) => Ok(Rc::new(Object::Integer(if *val { 1 } else { 0 }))),
        _ => Err(type_error_of_one("bool_to_int", obj)),
    }
}

/// Every value is true but `false`.
pub fn is_truthy(obj: &Object) -> (r: bool)
    ensures
        r == truthy(obj@),
{
    match obj {
        Object::Bool(b) => *b,
        _ => true,
    }
}

/// The negation of the value's truthiness.
pub fn not(obj: &Object) -> (r: Rc<Object>)
    ensures
        (*r)@ == Value::Bool(!truthy(obj@)),
{
    Rc::new(Object::Bool(!is_truthy(obj)))
}

} // verus!
