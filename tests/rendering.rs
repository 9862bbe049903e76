use std::rc::Rc;
use tinylisp::render::integer_string;
use tinylisp::types::{Builtin, BuiltinFunction, Cons, Error, ErrorKind, Function, Object, Quote, Symbol};

fn sym(name: &str) -> Rc<Object> {
    Rc::new(Object::Symbol(Symbol::from_str(name).unwrap()))
}

fn num(n: i32) -> Rc<Object> {
    Rc::new(Object::Integer(n))
}

fn pair(a: Rc<Object>, b: Rc<Object>) -> Rc<Object> {
    Rc::new(Object::Cons(Cons::new(a, b)))
}

fn nil() -> Rc<Object> {
    Rc::new(Object::Cons(Cons::nil()))
}

#[test]
fn integers_render_in_decimal() {
    assert_eq!(integer_string(0), "0");
    assert_eq!(integer_string(7), "7");
    assert_eq!(integer_string(1234), "1234");
    assert_eq!(integer_string(-56), "-56");
    assert_eq!(integer_string(i32::MIN), "-2147483648");
    assert_eq!(integer_string(i32::MAX), "2147483647");
}

#[test]
fn lists_render_in_parentheses() {
    assert_eq!(nil().render(), "()");
    assert_eq!(pair(num(1), nil()).render(), "(1)");
    assert_eq!(pair(num(1), pair(sym("a"), nil())).render(), "(1 a)");
    assert_eq!(pair(num(1), num(2)).render(), "(1 . 2)");
    assert_eq!(pair(num(1), pair(num(2), num(3))).render(), "(1 2 . 3)");
    assert_eq!(pair(pair(num(1), nil()), nil()).render(), "((1))");
}

#[test]
fn other_values_render() {
    assert_eq!(Object::Bool(true).render(), "true");
    assert_eq!(Object::Bool(false).render(), "false");
    assert_eq!(Object::Quote(Quote(sym("x"))).render(), "(quote x)");
    assert_eq!(Object::BuiltinFunction(BuiltinFunction(Builtin::If)).render(), "Builtin function");
    let params = Cons::new(sym("a"), pair(sym("b"), nil()));
    let body = pair(sym("+"), pair(sym("a"), pair(sym("b"), nil())));
    assert_eq!(Object::Function(Function::new(params, body)).render(), "Function (a b) => (+ a b)");
    assert_eq!(Object::Function(Function::new(Cons::nil(), num(1))).render(), "Function () => 1");
}

#[test]
fn errors_render_with_their_prefix() {
    let e = Error::new(ErrorKind::Type, "bad".to_string());
    assert_eq!(e.render(), "Error: bad");
    assert_eq!(e.kind, ErrorKind::Type);
}
