//! A front end for a textual, equation-based modeling language: a tokenizer,
//! a recursive-descent parser that builds a position-annotated syntax tree,
//! and a visitor framework for walking or rewriting that tree.

pub mod ast;
pub mod grammar;
pub mod ids;
pub mod lexer;
pub mod node;
pub mod parse;
pub mod parser;
pub mod passes;
pub mod rewrite;
pub mod size;
pub mod trace;
pub mod visitable;
pub mod visitable_mut;
pub mod visitor;
pub mod visitor_mut;
pub mod walker;

pub use ast::NodeData;
pub use parse::parse;
pub use passes::{NodeCounter, PrintVisitor, SentinelVisitor};
pub use visitable::Visitable;
pub use visitable_mut::VisitableMut;
pub use visitor::Visitor;
pub use visitor_mut::VisitorMut;
pub use walker::Walker;
