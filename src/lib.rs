//! A small Lisp interpreter: a shared pair-cell data model, an environment
//! chain, and an evaluator with its built-in procedures and special forms.
//!
//! `semantics` gives the meaning of evaluation as spec functions over
//! `Value`; every executable evaluation function is proved to compute it.
pub mod semantics;
pub mod types;
pub mod symbol;
pub mod functions;
pub mod eval;
pub mod wrapped;
pub mod environment;
pub mod laws;
pub mod lexer;
pub mod parser;
pub mod render;
