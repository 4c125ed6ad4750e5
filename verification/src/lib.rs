//! Core of an interactive Reverse Polish Notation (RPN) calculator.
//!
//! The engine owns a numeric evaluation stack and an append-only history of
//! the tokens it accepted.  Token dispatch, stack discipline and the
//! reconstruction of infix and LaTeX renderings from the history are verified
//! here; the arithmetic itself is carried out by the caller, which receives
//! the operands of each operator as an [`engine::Action`] and hands the
//! computed value back.

pub mod engine;
pub mod factorial;
pub mod render;
pub mod token;

pub use engine::Action;
pub use engine::RPNCalculator;
pub use render::RenderStyle;
pub use token::TokenClass;
