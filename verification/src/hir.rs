//! The parsed program tree the evaluator walks.
//!
//! A block holds hoisted definitions and ordered statement groups; a group
//! holds pipelines; a pipeline holds command nodes. The tree is produced
//! before evaluation and only borrowed while a block runs.

use std::rc::Rc;
use vstd::prelude::*;

use crate::errors::ShellError;
use crate::span::Span;
use crate::value::Value;

verus! {

/// One expression in head or argument position.
#[derive(Debug, PartialEq)]
pub enum Expression {
    /// An already-materialized value.
    Literal(Rc<Value>),
    /// A variable reference, with the place it was written.
    Variable(String, Span),
    /// A block literal; evaluating it yields a closure value capturing the
    /// bindings visible at that point.
    Block(Rc<Block>),
}

/// A dynamic call: a head expression that must resolve to a closure, plus
/// eagerly evaluated positional arguments.
#[derive(Debug, PartialEq)]
pub struct Call {
    pub head: Box<Expression>,
    pub head_span: Span,
    pub positional: Vec<Expression>,
}

/// An invocation of a registered command by name. The arguments are handed
/// to the command; what it does with them is the command's own affair.
#[derive(Debug, PartialEq)]
pub struct InternalCommand {
    pub name: String,
    pub args: Vec<Expression>,
}

/// One step of a pipeline.
#[derive(Debug, PartialEq)]
pub enum ClassifiedCommand {
    /// A registered command, run through the dispatcher.
    Internal(InternalCommand),
    /// A bare expression; its result replaces the stream.
    Expr(Expression),
    /// A call whose head must evaluate to a closure.
    Dynamic(Call),
    /// A node that failed to classify during parsing; evaluating it yields
    /// the stored error.
    Error(ShellError),
}

/// An ordered chain of command nodes sharing one data stream.
#[derive(Debug, PartialEq)]
pub struct Pipeline {
    pub list: Vec<ClassifiedCommand>,
}

/// An ordered sequence of pipelines; groups are the unit between which the
/// formatting command may be interposed.
#[derive(Debug, PartialEq)]
pub struct Group {
    pub pipelines: Vec<Pipeline>,
}

/// A parsed unit: positional parameter names, hoisted named definitions, and
/// the statement groups to run.
#[derive(Debug, PartialEq)]
pub struct Block {
    pub params: Vec<String>,
    pub definitions: Vec<(String, Rc<Block>)>,
    pub groups: Vec<Group>,
}

} // verus!
