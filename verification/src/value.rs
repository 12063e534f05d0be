//! Values that flow through pipelines.

use std::rc::Rc;
use vstd::prelude::*;

use crate::errors::ShellError;
use crate::hir::Block;

verus! {

/// A block together with the variable bindings that were visible when the
/// closure value was created. The captured environment is an independent
/// snapshot: popping the scope it was taken from cannot invalidate it, and
/// later additions to that scope are not seen through it.
#[derive(Debug, PartialEq)]
pub struct CapturedBlock {
    pub block: Rc<Block>,
    pub captured: Vec<(String, Rc<Value>)>,
}

/// A value produced by an expression or a command.
///
/// `Error` is an in-band error: a successfully produced item whose payload is
/// a failure, distinct from a stream that itself terminates abnormally.
/// `Block` is a closure value, callable by a dynamic command node.
#[derive(Debug, PartialEq)]
pub enum Value {
    Nothing,
    Int(i64),
    Str(String),
    Error(ShellError),
    Block(CapturedBlock),
}

} // verus!
