use std::rc::Rc;
use tinylisp::environment::standard_environment;
use tinylisp::eval::{eval_top_level, MAX_DEPTH};
use tinylisp::lexer::lex;
use tinylisp::parser::parse_expressions;
use tinylisp::types::{Builtin, BuiltinFunction, Cons, ErrorKind, Function, Object, Symbol};

fn sym(name: &str) -> Rc<Object> {
    Rc::new(Object::Symbol(Symbol::from_str(name).unwrap()))
}

fn num(n: i32) -> Rc<Object> {
    Rc::new(Object::Integer(n))
}

fn list(items: Vec<Rc<Object>>) -> Rc<Object> {
    let mut acc = Cons::nil();
    for item in items.into_iter().rev() {
        acc = Cons::new(item, Rc::new(Object::Cons(acc)));
    }
    Rc::new(Object::Cons(acc))
}

fn eval_int(expr: Rc<Object>) -> i32 {
    let env = standard_environment();
    match expr.eval(&env, MAX_DEPTH) {
        Ok((v, _)) => match &*v {
            Object::Integer(n) => *n,
            _ => panic!("not an integer: {}", v.render()),
        },
        Err(e) => panic!("{}", e.render()),
    }
}

/// Evaluates each expression of `source` in turn from the standard
/// environment, and renders each result or error.
fn run(source: &str) -> Vec<String> {
    let tokens = lex(source);
    let (exprs, _) = parse_expressions(&tokens).expect("source parses");
    let mut env = standard_environment();
    let mut out = Vec::new();
    for e in exprs {
        let (result, next_env) = eval_top_level(Rc::new(e), &env);
        env = next_env;
        match result {
            Ok(v) => out.push(v.render()),
            Err(err) => out.push(err.render()),
        }
    }
    out
}

fn error_of(source: &str) -> (ErrorKind, String) {
    let tokens = lex(source);
    let (exprs, _) = parse_expressions(&tokens).expect("source parses");
    let env = standard_environment();
    let expr = exprs.into_iter().next().expect("one expression");
    match Rc::new(expr).eval(&env, MAX_DEPTH) {
        Ok((v, _)) => panic!("no error: {}", v.render()),
        Err(e) => (e.kind, e.message.clone()),
    }
}

#[test]
fn add_two_integers() {
    assert_eq!(eval_int(list(vec![sym("+"), num(2), num(3)])), 5);
}

#[test]
fn arithmetic_on_two_integers() {
    assert_eq!(eval_int(list(vec![sym("*"), num(4), num(5)])), 20);
    assert_eq!(eval_int(list(vec![sym("-"), num(10), num(4)])), 6);
    assert_eq!(eval_int(list(vec![sym("-"), num(7)])), -7);
    assert_eq!(eval_int(list(vec![sym("+"), num(-3), num(3)])), 0);
}

#[test]
fn arithmetic_wraps_in_32_bits() {
    assert_eq!(eval_int(list(vec![sym("+"), num(i32::MAX), num(1)])), i32::MIN);
    assert_eq!(eval_int(list(vec![sym("-"), num(i32::MIN)])), i32::MIN);
    assert_eq!(eval_int(list(vec![sym("*"), num(65536), num(65536)])), 0);
}

#[test]
fn subtraction_takes_the_sum_of_the_rest() {
    assert_eq!(run("(- 10 1 2)"), vec!["7"]);
    assert_eq!(run("(+ 1 2 3 4)"), vec!["10"]);
    assert_eq!(run("(* 2 3 4)"), vec!["24"]);
}

#[test]
fn empty_sum_product_and_difference() {
    assert_eq!(run("(+)"), vec!["0"]);
    assert_eq!(run("(*)"), vec!["1"]);
    let (kind, message) = error_of("(-)");
    assert_eq!(kind, ErrorKind::Arity);
    assert_eq!(message, "wrapped_sub expected at least 1 argument but got 0");
}

#[test]
fn quote_returns_its_argument_unevaluated() {
    assert_eq!(run("(quote (a b c))"), vec!["(a b c)"]);
    assert_eq!(run("(quote (car 1))"), vec!["(car 1)"]);
    assert_eq!(run("'(1 . 2)"), vec!["(1 . 2)"]);
    assert_eq!(run("(quote (1 (2 3) . 4))"), vec!["(1 (2 3) . 4)"]);
    assert_eq!(run("(quote undefined-name)"), vec!["undefined-name"]);
}

#[test]
fn self_evaluating_values() {
    let env = standard_environment();
    let values = vec![
        num(42),
        Rc::new(Object::Bool(false)),
        Rc::new(Object::Cons(Cons::nil())),
        Rc::new(Object::BuiltinFunction(BuiltinFunction(Builtin::Car))),
        Rc::new(Object::Function(Function::new(Cons::nil(), num(1)))),
    ];
    for v in values {
        let (r, _) = v.clone().eval(&env, MAX_DEPTH).ok().expect("evaluates");
        assert!(Rc::ptr_eq(&r, &v));
    }
    assert_eq!(run("42 true false"), vec!["42", "true", "false"]);
}

#[test]
fn car_and_cdr_of_cons() {
    assert_eq!(run("(car (cons 1 2))"), vec!["1"]);
    assert_eq!(run("(cdr (cons 1 2))"), vec!["2"]);
    assert_eq!(run("(car (cons (quote (a b)) 2))"), vec!["(a b)"]);
    assert_eq!(run("(cdr (cons 1 (quote ())))"), vec!["()"]);
    assert_eq!(run("(cons 1 (cons 2 (quote ())))"), vec!["(1 2)"]);
    assert_eq!(run("(car (quote ()))"), vec!["()"]);
}

#[test]
fn if_evaluates_only_the_branch_taken() {
    assert_eq!(run("(if true 1 (car 1))"), vec!["1"]);
    assert_eq!(run("(if false (car 1) 2)"), vec!["2"]);
    assert_eq!(run("(if 0 1 2)"), vec!["1"]);
    assert_eq!(run("(if (quote ()) 1 2)"), vec!["1"]);
}

#[test]
fn define_binds_and_later_define_shadows() {
    assert_eq!(run("(define x 5) x (define x 6) x"), vec!["x", "5", "x", "6"]);
}

#[test]
fn define_leaves_earlier_environments_unchanged() {
    let tokens = lex("(define x 5) (define x 6) x");
    let (exprs, _) = parse_expressions(&tokens).unwrap();
    let mut exprs = exprs.into_iter().map(Rc::new);
    let env0 = standard_environment();
    let (_, env1) = exprs.next().unwrap().eval(&env0, MAX_DEPTH).ok().unwrap();
    let (_, env2) = exprs.next().unwrap().eval(&env1, MAX_DEPTH).ok().unwrap();
    let lookup = exprs.next().unwrap();
    let (in1, _) = lookup.clone().eval(&env1, MAX_DEPTH).ok().unwrap();
    let (in2, _) = lookup.clone().eval(&env2, MAX_DEPTH).ok().unwrap();
    assert_eq!(in1.render(), "5");
    assert_eq!(in2.render(), "6");
    let (kind, _) = match lookup.eval(&env0, MAX_DEPTH) {
        Err(e) => (e.kind, ()),
        Ok(_) => panic!("x is bound in the standard environment"),
    };
    assert_eq!(kind, ErrorKind::Unbound);
}

#[test]
fn unbound_symbol_is_an_error() {
    let (kind, message) = error_of("never-bound");
    assert_eq!(kind, ErrorKind::Unbound);
    assert_eq!(message, "Unbound variable never-bound");
    assert_eq!(run("y"), vec!["Error: Unbound variable y"]);
}

#[test]
fn lambda_application() {
    assert_eq!(run("((lambda (a b) (+ a b)) 2 3)"), vec!["5"]);
    assert_eq!(run("((lambda (a b) a) 1)"), vec!["1"]);
    assert_eq!(run("(define f (lambda (x) (* x x))) (f 7)"), vec!["f", "49"]);
}

#[test]
fn closures_see_the_calling_environment() {
    assert_eq!(run("(define g (lambda () z)) (define z 9) (g)"), vec!["g", "z", "9"]);
    assert_eq!(run("(define f (lambda (x) (define y x))) (f 3) y"), vec!["f", "y", "3"]);
}

#[test]
fn and_or_short_circuit() {
    assert_eq!(run("(and)"), vec!["true"]);
    assert_eq!(run("(or)"), vec!["false"]);
    assert_eq!(run("(and 1 false 2)"), vec!["false"]);
    assert_eq!(run("(or false false 3)"), vec!["3"]);
    assert_eq!(run("(and 1 2)"), vec!["2"]);
    assert_eq!(run("(and 1 (quote ()))"), vec!["()"]);
    assert_eq!(run("(or false (car 1))"), vec!["Error: Object::car is not callable with types ((type int))"]);
    assert_eq!(run("(and false (car 1))"), vec!["false"]);
    assert_eq!(run("(or 1 (car 1))"), vec!["1"]);
}

#[test]
fn type_predicates() {
    assert_eq!(run("(nil? (quote ()))"), vec!["true"]);
    assert_eq!(run("(nil? 1)"), vec!["false"]);
    assert_eq!(run("(int? 1)"), vec!["true"]);
    assert_eq!(run("(bool? true)"), vec!["true"]);
    assert_eq!(run("(int? true)"), vec!["false"]);
    assert_eq!(run("(bool? 0)"), vec!["false"]);
    assert_eq!(run("(nil? (quote (1)))"), vec!["false"]);
}

#[test]
fn conversions_and_negation() {
    assert_eq!(run("(int->bool 0)"), vec!["false"]);
    assert_eq!(run("(int->bool -4)"), vec!["true"]);
    assert_eq!(run("(bool->int true)"), vec!["1"]);
    assert_eq!(run("(bool->int false)"), vec!["0"]);
    assert_eq!(run("(not false)"), vec!["true"]);
    assert_eq!(run("(not 0)"), vec!["false"]);
    assert_eq!(run("(not (quote ()))"), vec!["false"]);
}

#[test]
fn type_errors_name_the_operation_and_operand_types() {
    let (kind, message) = error_of("(car 1)");
    assert_eq!(kind, ErrorKind::Type);
    assert_eq!(message, "Object::car is not callable with types ((type int))");
    assert_eq!(error_of("(+ 1 true)").1, "add is not callable with types ((type bool) (type int))");
    assert_eq!(error_of("(+ (quote ()) 1)").1, "add is not callable with types ((type cons) (type int))");
    assert_eq!(error_of("(- true 1)").1, "sub is not callable with types ((type bool) (type int))");
    assert_eq!(error_of("(- 1 (quote x))").1, "add is not callable with types ((type symbol) (type int))");
    assert_eq!(error_of("(* (quote ()) 2)").1, "mul is not callable with types ((type cons) (type int))");
    assert_eq!(error_of("(int->bool true)").1, "int_to_bool is not callable with types ((type bool))");
    assert_eq!(error_of("(bool->int 1)").1, "bool_to_int is not callable with types ((type int))");
    assert_eq!(error_of("(cdr car)").1, "Object::cdr is not callable with types ((type builtin-function))");
    assert_eq!(error_of("(1 2)").1, "apply_obj is not callable with types ((type int))");
    assert_eq!(error_of("((quote (quote x)))").1, "apply_obj is not callable with types ((type cons))");
    assert_eq!(error_of("(lambda 1 2)").1, "first argument of lambda definition must be a list of parameters");
    assert_eq!(error_of("(define 1 2)").1, "first argument passed to define must be a symbol");
    assert_eq!(error_of("(lambda (a . b) a)").1, "first argument of lambda definition must be a list of parameters");
    assert_eq!(error_of("(lambda (a 1) a)").1, "first argument of lambda definition must be a list of parameters");
    assert_eq!(run("(lambda () 1)"), vec!["Function () => 1"]);
}

#[test]
fn arity_errors_name_the_procedure() {
    let (kind, message) = error_of("(car 1 2)");
    assert_eq!(kind, ErrorKind::Arity);
    assert_eq!(message, "car expected 1 arguments but got 2");
    assert_eq!(error_of("(if true 1)").1, "wrapped_if expected 3 arguments but got 2");
    assert_eq!(error_of("(cons 1)").1, "wrapped_cons expected 2 arguments but got 1");
    assert_eq!(error_of("(quote)").1, "wrapped_quote expected 1 arguments but got 0");
    assert_eq!(error_of("(not 1 . 2)").1, "call to not must be a proper list");
    assert_eq!(error_of("(+ 1 . 2)").1, "arguments passed to wrapped_add must be a proper list");
    assert_eq!(error_of("(and 1 . 2)").1, "arguments passed to wrapped_and must be a proper list");
    assert_eq!(error_of("(- 1 . 2)").1, "arguments passed to wrapped_sub must be a proper list");
    assert_eq!(error_of("(and false 1 . 3)").1, "arguments passed to wrapped_and must be a proper list");
    assert_eq!(error_of("(or 1 2 . 3)").1, "arguments passed to wrapped_or must be a proper list");
    assert_eq!(error_of("(+ (car 1) 2 . 3)").1, "arguments passed to wrapped_add must be a proper list");
    assert_eq!(error_of("(* 1 . 2)").1, "arguments passed to wrapped_mul must be a proper list");
    let (kind, message) = error_of("((lambda (x) x) 1 . 2)");
    assert_eq!(kind, ErrorKind::Arity);
    assert_eq!(message, "arguments passed to a function must be a proper list");
}

#[test]
fn call_form_with_non_list_operands_is_a_shape_error() {
    let (kind, message) = error_of("(car . 1)");
    assert_eq!(kind, ErrorKind::Shape);
    assert_eq!(message, "cdr of argument passed to eval_cons must be a cons");
}

#[test]
fn nesting_beyond_the_depth_is_an_error() {
    let tokens = lex("(+ 1 (+ 2 (+ 3 4)))");
    let (exprs, _) = parse_expressions(&tokens).unwrap();
    let expr = Rc::new(exprs.into_iter().next().unwrap());
    let env = standard_environment();
    let (v, _) = expr.clone().eval(&env, 7).ok().unwrap();
    assert_eq!(v.render(), "10");
    match expr.eval(&env, 3) {
        Err(e) => {
            assert_eq!(e.kind, ErrorKind::Depth);
            assert_eq!(e.render(), "Error: evaluation nested too deeply");
        }
        Ok(_) => panic!("depth 3 is not enough"),
    }
}

#[test]
fn unbounded_recursion_ends_in_an_error() {
    let tokens = lex("(define f (lambda () (f))) (f)");
    let (exprs, _) = parse_expressions(&tokens).unwrap();
    let mut exprs = exprs.into_iter().map(Rc::new);
    let env = standard_environment();
    let (_, env) = exprs.next().unwrap().eval(&env, MAX_DEPTH).ok().unwrap();
    match exprs.next().unwrap().eval(&env, 50) {
        Err(e) => assert_eq!(e.kind, ErrorKind::Depth),
        Ok(_) => panic!("the recursion has no end"),
    }
}

#[test]
fn recursion_through_if() {
    let out = run(
        "(define fact (lambda (n) (if (int->bool n) (* n (fact (- n 1))) 1))) (fact 5)",
    );
    assert_eq!(out, vec!["fact", "120"]);
}

#[test]
fn an_error_keeps_the_environment_before_it() {
    let out = run("(define a 1) (define b (car 1)) a b (define b 2) b");
    assert_eq!(out, vec![
        "a",
        "Error: Object::car is not callable with types ((type int))",
        "1",
        "Error: Unbound variable b",
        "b",
        "2",
    ]);
}
