//! The evaluator's error type.
//!
//! Every failure the evaluator itself can raise is a variant of its own;
//! `Labeled` carries errors that were recorded before evaluation (a node that
//! failed to classify during parsing) or by a command, with free-form text.

use vstd::prelude::*;

use crate::span::Span;

verus! {

#[derive(Debug, PartialEq, Eq)]
pub enum ShellError {
    /// A dynamic call referred to a variable that is not in scope.
    VariableNotFound(Span),
    /// The head of a dynamic call resolved to something other than a block
    /// (or a variable holding one).
    NotABlock(Span),
    /// An internal command node named a command that is not registered.
    CommandNotFound(String),
    /// A registered command reported a direct failure.
    CommandFailed(String),
    /// An error a command recorded in the shared sink instead of returning.
    Deferred,
    /// A dynamic call would nest blocks deeper than the caller allowed.
    DepthLimitReached,
    /// A free-form error with a message, a label and the place it points at.
    Labeled { error: String, label: String, span: Span },
}

/// An owned copy of an error, equal to the original.
pub fn clone_error(e: &ShellError) -> (r: ShellError)
    ensures
        r == *e,
{
    match e {
        ShellError::VariableNotFound(s) => ShellError::VariableNotFound(*s),
        ShellError::NotABlock(s) => ShellError::NotABlock(*s),
        ShellError::CommandNotFound(n) => ShellError::CommandNotFound(n.clone()),
        ShellError::CommandFailed(n) => ShellError::CommandFailed(n.clone()),
        ShellError::Deferred => ShellError::Deferred,
        ShellError::DepthLimitReached => ShellError::DepthLimitReached,
        ShellError::Labeled { error, label, span } => ShellError::Labeled {
            error: error.clone(),
            label: label.clone(),
            span: *span,
        },
    }
}

} // verus!
