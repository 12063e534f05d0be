//! Evaluation of a single expression node into a stream of one value.

use std::rc::Rc;
use vstd::prelude::*;

use crate::errors::ShellError;
use crate::hir::Expression;
use crate::rc_clone;
use crate::scope::{scope_var_lookup, Frame, Scope};
use crate::stream::{StreamEntry, ValueStream};
use crate::value::{CapturedBlock, Value};

verus! {

/// Every variable binding visible in a scope, outermost frame first, so
/// that within the flattened sequence the innermost binding stands last and
/// wins under last-entry-first lookup.
pub open spec fn flatten_vars(frames: Seq<Frame>) -> Seq<(String, Rc<Value>)>
    decreases frames.len(),
{
    if frames.len() == 0 {
        Seq::empty()
    } else {
        flatten_vars(frames.drop_last()) + frames.last().vars@
    }
}

/// What evaluating one expression against a scope yields. A literal yields
/// itself; a variable yields its binding, or fails when the name is not in
/// scope; a block literal yields a closure value that captures a snapshot
/// of every binding visible at that point.
pub open spec fn expr_result_matches(
    expr: Expression,
    frames: Seq<Frame>,
    r: Result<ValueStream, ShellError>,
) -> bool {
    match expr {
        Expression::Literal(v) => r matches Ok(s) && s@ =~= seq![StreamEntry::Produced(v)],
        Expression::Variable(name, span) => match scope_var_lookup(frames, name@) {
            Some(v) => r matches Ok(s) && s@ =~= seq![StreamEntry::Produced(v)],
            None => r == Err::<ValueStream, ShellError>(ShellError::VariableNotFound(span)),
        },
        Expression::Block(b) => r matches Ok(s) && s@.len() == 1 && (s@[0] matches
            StreamEntry::Produced(v) && (*v) matches Value::Block(cb) && cb.block == b
            && cb.captured@ =~= flatten_vars(frames)),
    }
}

/// What the single value of evaluating an expression is: the literal itself,
/// the variable's binding, or a closure over the block with a snapshot of
/// the visible bindings.
pub open spec fn expr_value_matches(expr: Expression, frames: Seq<Frame>, v: Rc<Value>) -> bool {
    match expr {
        Expression::Literal(l) => v == l,
        Expression::Variable(name, _) => scope_var_lookup(frames, name@) == Some(v),
        Expression::Block(b) => (*v) matches Value::Block(cb) && cb.block == b && cb.captured@
            =~= flatten_vars(frames),
    }
}

/// Whether an expression evaluates, against the given frames, to a single
/// value that is not an in-band error: a non-error literal, a variable bound
/// to a non-error value, or a block literal (which always yields a closure).
pub open spec fn expr_plain_value(expr: Expression, frames: Seq<Frame>) -> bool {
    match expr {
        Expression::Literal(v) => !((*v) is Error),
        Expression::Variable(name, _) => scope_var_lookup(frames, name@) matches Some(v) && !((*v)
            is Error),
        Expression::Block(_) => true,
    }
}

/// A materialized snapshot of every binding visible in the scope, in
/// flattened order.
fn captured_env(scope: &Scope) -> (r: Vec<(String, Rc<Value>)>)
    ensures
        r@ =~= flatten_vars(scope.frames@),
{
    let mut out: Vec<(String, Rc<Value>)> = Vec::new();
    let mut i: usize = 0;
    while i < scope.frames.len()
        invariant
            i <= scope.frames@.len(),
            out@ =~= flatten_vars(scope.frames@.take(i as int)),
        decreases scope.frames@.len() - i,
    {
        let frame = &scope.frames[i];
        let mut j: usize = 0;
        while j < frame.vars.len()
            invariant
                i < scope.frames@.len(),
                j <= frame.vars@.len(),
                frame == scope.frames@[i as int],
                out@ =~= flatten_vars(scope.frames@.take(i as int)) + frame.vars@.take(j as int),
            decreases frame.vars@.len() - j,
        {
            let name = frame.vars[j].0.clone();
            let value = rc_clone(&frame.vars[j].1);
            out.push((name, value));
            proof {
                assert(frame.vars@.take(j + 1) =~= frame.vars@.take(j as int).push(
                    frame.vars@[j as int],
                ));
            }
            j = j + 1;
        }
        proof {
            assert(frame.vars@.take(frame.vars@.len() as int) =~= frame.vars@);
            assert(scope.frames@.take(i + 1).drop_last() =~= scope.frames@.take(i as int));
            assert(scope.frames@.take(i + 1).last() == scope.frames@[i as int]);
        }
        i = i + 1;
    }
    proof {
        assert(scope.frames@.take(scope.frames@.len() as int) =~= scope.frames@);
    }
    out
}

/// Evaluates one expression into a stream holding exactly one value, or the
/// error the expression raises. Expressions do not consume upstream data.
pub fn run_expression_block(expr: &Expression, scope: &Scope) -> (r: Result<
    ValueStream,
    ShellError,
>)
    ensures
        expr_result_matches(*expr, scope.frames@, r),
        r matches Ok(s) ==> s@.len() == 1 && s@[0] is Produced,
{
    match expr {
        Expression::Literal(v) => {
            let entries = vec![StreamEntry::Produced(rc_clone(v))];
            let s = ValueStream::from_entries(entries);
            proof {
                assert(s@ =~= seq![StreamEntry::Produced(*v)]);
            }
            Ok(s)
        },
        Expression::Variable(name, span) => match scope.get_var(name) {
            Some(v) => {
                let entries = vec![StreamEntry::Produced(v)];
                let s = ValueStream::from_entries(entries);
                proof {
                    assert(s@ =~= seq![s@[0]]);
                }
                Ok(s)
            },
            None => Err(ShellError::VariableNotFound(*span)),
        },
        Expression::Block(b) => {
            let captured = captured_env(scope);
            let closure = Value::Block(CapturedBlock { block: rc_clone(b), captured });
            let entries = vec![StreamEntry::Produced(Rc::new(closure))];
            let s = ValueStream::from_entries(entries);
            proof {
                assert(s@ =~= seq![s@[0]]);
            }
            Ok(s)
        },
    }
}

} // verus!
