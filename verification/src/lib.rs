//! A block/pipeline evaluator for a structured command language.
//!
//! A parsed program is a [`hir::Block`]: hoisted definitions plus ordered
//! statement groups, each group an ordered list of pipelines, each pipeline an
//! ordered list of command nodes. The evaluator walks that tree, threading a
//! [`stream::ValueStream`] through the nodes of each pipeline, binding
//! closure parameters in a fresh scope frame for dynamic calls, polling a
//! shared error sink and a cancellation flag at group and pipeline
//! boundaries, and optionally invoking a formatting command between groups.

use vstd::prelude::*;

pub mod block;
pub mod context;
pub mod errors;
pub mod expr;
pub mod hir;
pub mod inspect;
pub mod internal;
pub mod scope;
pub mod span;
pub mod stream;
pub mod value;

verus! {

/// Relies on `Rc::clone`: the result is a handle to the same allocation,
/// so it stands for the same value as the argument.
#[verifier::external_body]
pub(crate) fn rc_clone<T>(rc: &std::rc::Rc<T>) -> (res: std::rc::Rc<T>)
    ensures
        res == *rc,
{
    std::rc::Rc::clone(rc)
}

} // verus!
