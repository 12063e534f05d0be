//! The block interpreter and the pipeline runner.

use std::rc::Rc;
use vstd::prelude::*;

use crate::context::{registry_lookup, Command, EvaluationContext};
use crate::errors::{clone_error, ShellError};
use crate::rc_clone;
use crate::expr::{expr_plain_value, expr_result_matches, expr_value_matches, run_expression_block};
use crate::hir::{Block, ClassifiedCommand, Expression, Pipeline};
use crate::internal::{internal_result_matches, run_internal_command};
use crate::scope::{frame_var_lookup, scope_var_lookup, Scope};
use crate::stream::{StreamEntry, ValueStream};
use crate::value::Value;

verus! {

/// What a checkpoint decides: go on, stop cleanly because cancellation was
/// requested, or abort the run with an error.
#[derive(Debug, PartialEq)]
pub enum CheckOutcome {
    Proceed,
    Cancelled,
    Abort(ShellError),
}

/// One checkpoint: peek a stream's first item and weigh it against the
/// error sink and the cancellation flag.
///
/// Precedence: a stream that fails outright, or whose first item is an
/// in-band error value, aborts with that error before the sink is even
/// looked at; otherwise an error found in the sink drains the sink and
/// aborts; otherwise a set cancellation flag stops the run cleanly. The
/// flag is only polled behind a produced value, never behind an exhausted
/// stream.
pub fn check_stream(stream: ValueStream, ctx: &mut EvaluationContext) -> (r: CheckOutcome)
    ensures
        final(ctx).registry == old(ctx).registry,
        final(ctx).ctrl_c == old(ctx).ctrl_c,
        final(ctx).calls == old(ctx).calls,
        stream@.len() == 0 ==> if old(ctx).errors@.len() > 0 {
            r == CheckOutcome::Abort(old(ctx).errors@[0]) && final(ctx).errors@ =~= Seq::<
                ShellError,
            >::empty()
        } else {
            r == CheckOutcome::Proceed && final(ctx).errors == old(ctx).errors
        },
        stream@.len() > 0 ==> match stream@[0] {
            StreamEntry::Failed(e) => r == CheckOutcome::Abort(e) && final(ctx).errors == old(
                ctx,
            ).errors,
            StreamEntry::Produced(v) => match *v {
                Value::Error(e) => r == CheckOutcome::Abort(e) && final(ctx).errors == old(
                    ctx,
                ).errors,
                _ => if old(ctx).errors@.len() > 0 {
                    r == CheckOutcome::Abort(old(ctx).errors@[0]) && final(ctx).errors@ =~= Seq::<
                        ShellError,
                    >::empty()
                } else if old(ctx).ctrl_c {
                    r == CheckOutcome::Cancelled && final(ctx).errors == old(ctx).errors
                } else {
                    r == CheckOutcome::Proceed && final(ctx).errors == old(ctx).errors
                },
            },
        },
{
    let mut stream = stream;
    match stream.try_next() {
        Err(e) => CheckOutcome::Abort(e),
        Ok(Some(v)) => match &*v {
            Value::Error(e) => CheckOutcome::Abort(clone_error(e)),
            _ => {
                if ctx.get_errors().len() > 0 {
                    let e = clone_error(&ctx.get_errors()[0]);
                    ctx.clear_errors();
                    CheckOutcome::Abort(e)
                } else if ctx.ctrl_c {
                    CheckOutcome::Cancelled
                } else {
                    CheckOutcome::Proceed
                }
            },
        },
        Ok(None) => {
            if ctx.get_errors().len() > 0 {
                let e = clone_error(&ctx.get_errors()[0]);
                ctx.clear_errors();
                CheckOutcome::Abort(e)
            } else {
                CheckOutcome::Proceed
            }
        },
    }
}

/// The parameter bindings a call makes: parameters and arguments zipped,
/// stopping at the shorter list.
pub open spec fn zip_bindings(params: Seq<String>, args: Seq<Rc<Value>>) -> Seq<
    (String, Rc<Value>),
> {
    Seq::new(
        if params.len() <= args.len() {
            params.len()
        } else {
            args.len()
        },
        |i: int| (params[i], args[i]),
    )
}

/// Binds each declared parameter, in declaration order, to the argument in
/// the same position, into the innermost frame. Only the zippable prefix is
/// bound: an arity mismatch in either direction raises no error, surplus
/// parameters or arguments are silently ignored.
pub fn bind_params(scope: &mut Scope, params: &Vec<String>, args: &Vec<Rc<Value>>)
    requires
        old(scope).frames@.len() > 0,
    ensures
        final(scope).frames@.len() == old(scope).frames@.len(),
        forall|i: int|
            0 <= i < old(scope).frames@.len() - 1 ==> final(scope).frames@[i] == old(
                scope,
            ).frames@[i],
        final(scope).frames@.last().vars@ =~= old(scope).frames@.last().vars@ + zip_bindings(
            params@,
            args@,
        ),
        final(scope).frames@.last().defs == old(scope).frames@.last().defs,
{
    let n = if params.len() <= args.len() {
        params.len()
    } else {
        args.len()
    };
    let mut k: usize = 0;
    while k < n
        invariant
            n == zip_bindings(params@, args@).len(),
            n <= params@.len() && n <= args@.len(),
            k <= n,
            scope.frames@.len() == old(scope).frames@.len() > 0,
            forall|i: int|
                0 <= i < old(scope).frames@.len() - 1 ==> scope.frames@[i] == old(
                    scope,
                ).frames@[i],
            scope.frames@.last().vars@ =~= old(scope).frames@.last().vars@ + zip_bindings(
                params@,
                args@,
            ).take(k as int),
            scope.frames@.last().defs == old(scope).frames@.last().defs,
        decreases n - k,
    {
        let name = params[k].clone();
        let value = rc_clone(&args[k]);
        scope.add_var(name, value);
        proof {
            assert(zip_bindings(params@, args@).take(k + 1) =~= zip_bindings(
                params@,
                args@,
            ).take(k as int).push(zip_bindings(params@, args@)[k as int]));
        }
        k = k + 1;
    }
    proof {
        assert(zip_bindings(params@, args@).take(n as int) =~= zip_bindings(params@, args@));
    }
}

/// The one command node of a block that holds exactly one group with exactly
/// one pipeline of exactly one node; `None` for every other shape.
pub open spec fn sole_node(block: Block) -> Option<ClassifiedCommand> {
    if block.groups@.len() == 1 && block.groups@[0].pipelines@.len() == 1
        && block.groups@[0].pipelines@[0].list@.len() == 1 {
        Some(block.groups@[0].pipelines@[0].list@[0])
    } else {
        None
    }
}

/// The two expressions of a block that holds exactly two groups, each with
/// exactly one pipeline of exactly one bare-expression node; `None` for
/// every other shape. This is the smallest shape on which the formatting
/// checkpoint between groups can be pinned down.
pub open spec fn two_expr_groups(block: Block) -> Option<(Expression, Expression)> {
    if block.groups@.len() == 2 && block.groups@[0].pipelines@.len() == 1
        && block.groups@[0].pipelines@[0].list@.len() == 1 && block.groups@[1].pipelines@.len()
        == 1 && block.groups@[1].pipelines@[0].list@.len() == 1
        && (block.groups@[0].pipelines@[0].list@[0] is Expr)
        && (block.groups@[1].pipelines@[0].list@[0] is Expr) {
        Some(
            (
                block.groups@[0].pipelines@[0].list@[0]->Expr_0,
                block.groups@[1].pipelines@[0].list@[0]->Expr_0,
            ),
        )
    } else {
        None
    }
}

/// The formatting checkpoint will find a pass-through formatter registered
/// under the well-known name.
pub open spec fn formatter_is_inspect(ctx0: EvaluationContext) -> bool {
    registry_lookup(ctx0.registry@, "autoview"@) == Some(Command::Inspect)
}

/// The call log grew by exactly one dispatch, of the formatting command.
pub open spec fn formatted_once(calls0: Seq<String>, calls1: Seq<String>) -> bool {
    &&& calls1.len() == calls0.len() + 1
    &&& calls1.drop_last() =~= calls0
    &&& calls1.last()@ == "autoview"@
}

/// Threads the input stream through each command node of one pipeline in
/// order, each node's output becoming the next node's input.
///
/// An `Internal` node goes through the dispatcher; an `Expr` node's result
/// replaces the stream without consuming it; an `Error` node aborts with the
/// stored error at once. A `Dynamic` node evaluates its arguments, resolves
/// its head to a closure, binds the zippable prefix of parameters in a
/// freshly pushed frame, runs the closure's body on the current stream, and
/// ends the pipeline with that result — the frame is popped on every path
/// out, and `depth` bounds how deep such calls may nest.
///
/// Whatever happens inside, the scope's frame stack afterwards equals the
/// frame stack before the call.
#[verifier::loop_isolation(false)]
pub fn run_pipeline(
    pipeline: &Pipeline,
    ctx: &mut EvaluationContext,
    scope: &mut Scope,
    input: ValueStream,
    depth: u64,
) -> (r: Result<ValueStream, ShellError>)
    requires
        old(scope).frames@.len() > 0,
    ensures
        final(scope).frames@ =~= old(scope).frames@,
        final(ctx).registry == old(ctx).registry,
        final(ctx).ctrl_c == old(ctx).ctrl_c,
        pipeline.list@.len() == 0 ==> (r matches Ok(s) && s@ == input@) && *final(ctx) == *old(ctx),
        pipeline.list@.len() > 0 ==> (pipeline.list@[0] matches ClassifiedCommand::Error(e0) ==> r
            == Err::<ValueStream, ShellError>(e0) && *final(ctx) == *old(ctx)),
        pipeline.list@.len() == 1 ==> match pipeline.list@[0] {
            ClassifiedCommand::Expr(e) => expr_result_matches(e, old(scope).frames@, r)
                && *final(ctx) == *old(ctx),
            ClassifiedCommand::Error(err) => r == Err::<ValueStream, ShellError>(err) && *final(ctx)
                == *old(ctx),
            ClassifiedCommand::Internal(ic) => internal_result_matches(
                ic,
                *old(ctx),
                *final(ctx),
                input@,
                r,
            ),
            ClassifiedCommand::Dynamic(call) => {
                // an inline closure of one parameter, whose body reads that
                // parameter, called with one literal argument, observes
                // exactly the argument's value
                &&& (depth > 0 ==> ((*call.head) matches Expression::Block(b) ==> (sole_node(
                    *b,
                ) matches Some(ClassifiedCommand::Expr(Expression::Variable(pname, _))) ==> (
                call.positional@.len() == 1 ==> (call.positional@[0] matches Expression::Literal(v)
                    ==> (b.params@.len() == 1 && pname@ == b.params@[0]@ ==> (r matches Ok(s) && s@
                    =~= seq![StreamEntry::Produced(v)])))))))
                // a parameterless closure reached through a variable, whose
                // body reads a captured name, observes the captured value,
                // whatever the frames below the call hold
                &&& (depth > 0 ==> ((*call.head) matches Expression::Variable(vname, _)
                    ==> (scope_var_lookup(old(scope).frames@, vname@) matches Some(cv)
                    ==> ((*cv) matches Value::Block(cb) ==> (sole_node(*cb.block) matches Some(
                    ClassifiedCommand::Expr(Expression::Variable(pname, _)),
                ) ==> (call.positional@.len() == 0 && cb.block.params@.len() == 0
                    ==> (frame_var_lookup(cb.captured@, pname@) matches Some(v) ==> (
                r matches Ok(s) && s@ =~= seq![StreamEntry::Produced(v)]))))))))
            },
        },
    decreases depth, 0nat,
{
    let ghost input0 = input@;
    let mut input = input;
    let n = pipeline.list.len();
    let mut idx: usize = 0;
    while idx < n
        invariant
            idx <= n,
            scope.frames@ =~= old(scope).frames@,
            ctx.registry == old(ctx).registry,
            ctx.ctrl_c == old(ctx).ctrl_c,
            idx == 0 ==> *ctx == *old(ctx) && input@ == input0,
            n > 0 && pipeline.list@[0] is Error ==> idx == 0,
            n == 1 && idx == 1 ==> match pipeline.list@[0] {
                ClassifiedCommand::Expr(e) => expr_result_matches(
                    e,
                    old(scope).frames@,
                    Ok(input),
                ) && *ctx == *old(ctx),
                ClassifiedCommand::Error(_) => false,
                ClassifiedCommand::Internal(ic) => internal_result_matches(
                    ic,
                    *old(ctx),
                    *ctx,
                    input0,
                    Ok(input),
                ),
                ClassifiedCommand::Dynamic(_) => false,
            },
        decreases n - idx,
    {
        match &pipeline.list[idx] {
            ClassifiedCommand::Expr(e) => {
                input = match run_expression_block(e, scope) {
                    Ok(s) => s,
                    Err(err) => {
                        return Err(err);
                    },
                };
            },
            ClassifiedCommand::Error(err) => {
                return Err(clone_error(err));
            },
            ClassifiedCommand::Internal(ic) => {
                input = match run_internal_command(ic, ctx, input) {
                    Ok(s) => s,
                    Err(err) => {
                        return Err(err);
                    },
                };
            },
            ClassifiedCommand::Dynamic(call) => {
                // arguments are evaluated eagerly, each to its single value
                let mut args: Vec<Rc<Value>> = Vec::new();
                let mut k: usize = 0;
                while k < call.positional.len()
                    invariant
                        k <= call.positional@.len(),
                        args@.len() == k,
                        forall|i: int|
                            0 <= i < k ==> expr_value_matches(
                                call.positional@[i],
                                old(scope).frames@,
                                args@[i],
                            ),
                    decreases call.positional@.len() - k,
                {
                    let s = match run_expression_block(&call.positional[k], scope) {
                        Ok(s) => s,
                        Err(err) => {
                            return Err(err);
                        },
                    };
                    let mut s = s;
                    let ghost s0 = s@;
                    // an expression yields exactly one produced value, so
                    // the other arms are provably never taken
                    match s.try_next() {
                        Ok(Some(v)) => {
                            proof {
                                assert(s0[0] == StreamEntry::Produced(v));
                                assert(expr_value_matches(
                                    call.positional@[k as int],
                                    old(scope).frames@,
                                    v,
                                ));
                            }
                            args.push(v);
                        },
                        Ok(None) => {
                            proof {
                                assert(false);
                            }
                            return Err(ShellError::DepthLimitReached);
                        },
                        Err(e) => {
                            proof {
                                assert(false);
                            }
                            return Err(e);
                        },
                    }
                    k = k + 1;
                }
                match &*call.head {
                    Expression::Block(b) => {
                        if depth == 0 {
                            return Err(ShellError::DepthLimitReached);
                        }
                        let ghost before = scope.frames@;
                        scope.enter_scope();
                        bind_params(scope, &b.params, &args);
                        let result = run_block(&*b, ctx, scope, input, depth - 1);
                        let ghost after_inner = scope.frames@;
                        scope.exit_scope();
                        proof {
                            assert(scope.frames@ =~= before);
                            // for the one-parameter, one-argument call whose
                            // body reads the parameter, the binding is the
                            // innermost frame's sole entry
                            if b.params@.len() == 1 && args@.len() == 1 {
                                let binding = zip_bindings(b.params@, args@);
                                assert(binding.len() == 1);
                                assert(binding[0] == (b.params@[0], args@[0]));
                                assert(after_inner.last().vars@ =~= Seq::<
                                    (String, Rc<Value>),
                                >::empty() + binding);
                                assert(after_inner.last().vars@.last() == (
                                    b.params@[0],
                                    args@[0],
                                ));
                                assert(scope_var_lookup(after_inner, b.params@[0]@) == Some(
                                    args@[0],
                                ));
                            }
                        }
                        return result;
                    },
                    Expression::Variable(name, span) => {
                        match scope.get_var(name) {
                            Some(value) => match &*value {
                                Value::Block(cb) => {
                                    if depth == 0 {
                                        return Err(ShellError::DepthLimitReached);
                                    }
                                    let ghost before = scope.frames@;
                                    scope.enter_scope();
                                    scope.add_vars(&cb.captured);
                                    bind_params(scope, &cb.block.params, &args);
                                    let result = run_block(&*cb.block, ctx, scope, input, depth - 1);
                                    let ghost after_inner = scope.frames@;
                                    scope.exit_scope();
                                    proof {
                                        assert(scope.frames@ =~= before);
                                        // for the parameterless call, the
                                        // innermost frame is exactly the
                                        // captured snapshot
                                        if cb.block.params@.len() == 0 {
                                            assert(zip_bindings(cb.block.params@, args@).len()
                                                == 0);
                                            assert(after_inner.last().vars@ =~= cb.captured@);
                                        }
                                    }
                                    return result;
                                },
                                _ => {
                                    return Err(ShellError::NotABlock(call.head_span));
                                },
                            },
                            None => {
                                return Err(ShellError::VariableNotFound(*span));
                            },
                        }
                    },
                    Expression::Literal(_) => {
                        return Err(ShellError::NotABlock(call.head_span));
                    },
                }
            },
        }
        idx = idx + 1;
    }
    Ok(input)
}

/// Runs a block: registers its hoisted definitions, then runs each group's
/// pipelines in source order, polling the checkpoint between pipelines and —
/// through the formatting command registered as "autoview", when there is
/// one and the previous group produced output — between groups. The
/// external input reaches only the very first pipeline of the very first
/// group; every later pipeline starts from an empty stream. The last
/// pipeline's output of the last group is the block's result; an abort at
/// any checkpoint ends the run with that error, and a detected cancellation
/// ends it cleanly with an empty stream.
#[verifier::loop_isolation(false)]
pub fn run_block(
    block: &Block,
    ctx: &mut EvaluationContext,
    scope: &mut Scope,
    input: ValueStream,
    depth: u64,
) -> (r: Result<ValueStream, ShellError>)
    requires
        old(scope).frames@.len() > 0,
    ensures
        final(scope).frames@.len() == old(scope).frames@.len(),
        forall|i: int|
            0 <= i < old(scope).frames@.len() - 1 ==> final(scope).frames@[i] == old(
                scope,
            ).frames@[i],
        final(scope).frames@.last().vars == old(scope).frames@.last().vars,
        final(scope).frames@.last().defs@ =~= old(scope).frames@.last().defs@
            + block.definitions@,
        final(ctx).registry == old(ctx).registry,
        final(ctx).ctrl_c == old(ctx).ctrl_c,
        block.groups@.len() == 0 ==> (r matches Ok(s) && s@ =~= Seq::<StreamEntry>::empty())
            && final(ctx).calls == old(ctx).calls && final(ctx).errors == old(ctx).errors,
        sole_node(*block) matches Some(node) ==> match node {
            ClassifiedCommand::Expr(e) => expr_result_matches(e, final(scope).frames@, r),
            ClassifiedCommand::Error(err) => r == Err::<ValueStream, ShellError>(err),
            ClassifiedCommand::Internal(ic) => internal_result_matches(
                ic,
                *old(ctx),
                *final(ctx),
                input@,
                r,
            ),
            ClassifiedCommand::Dynamic(_) => true,
        },
        two_expr_groups(*block) matches Some(pair) ==> {
            &&& (registry_lookup(old(ctx).registry@, "autoview"@) is None ==> final(ctx).calls
                == old(ctx).calls)
            &&& (formatter_is_inspect(*old(ctx)) && expr_plain_value(pair.0, final(scope).frames@)
                && old(ctx).errors@.len() == 0 && !old(ctx).ctrl_c ==> formatted_once(
                old(ctx).calls@,
                final(ctx).calls@,
            ) && final(ctx).errors == old(ctx).errors && expr_result_matches(
                pair.1,
                final(scope).frames@,
                r,
            ))
            &&& (formatter_is_inspect(*old(ctx)) ==> (pair.0 matches Expression::Literal(v)
                ==> ((*v) matches Value::Error(e_in) ==> r == Err::<ValueStream, ShellError>(e_in)
                && formatted_once(old(ctx).calls@, final(ctx).calls@) && final(ctx).errors == old(
                ctx,
            ).errors)))
            &&& (formatter_is_inspect(*old(ctx)) && expr_plain_value(pair.0, final(scope).frames@)
                && old(ctx).errors@.len() > 0 ==> r == Err::<ValueStream, ShellError>(
                old(ctx).errors@[0],
            ) && formatted_once(old(ctx).calls@, final(ctx).calls@) && final(ctx).errors@ =~= Seq::<
                ShellError,
            >::empty())
            &&& (formatter_is_inspect(*old(ctx)) && expr_plain_value(pair.0, final(scope).frames@)
                && old(ctx).errors@.len() == 0 && old(ctx).ctrl_c ==> (r matches Ok(s) && s@ =~= Seq::<
                StreamEntry,
            >::empty()) && formatted_once(old(ctx).calls@, final(ctx).calls@) && final(ctx).errors
                == old(ctx).errors)
        },
    decreases depth, 1nat,
{
    // hoist every definition before any group runs
    let ndefs = block.definitions.len();
    let mut d: usize = 0;
    while d < ndefs
        invariant
            d <= ndefs,
            scope.frames@.len() == old(scope).frames@.len(),
            forall|i: int|
                0 <= i < old(scope).frames@.len() - 1 ==> scope.frames@[i] == old(
                    scope,
                ).frames@[i],
            scope.frames@.last().vars == old(scope).frames@.last().vars,
            scope.frames@.last().defs@ =~= old(scope).frames@.last().defs@
                + block.definitions@.take(d as int),
            *ctx == *old(ctx),
        decreases ndefs - d,
    {
        let name = block.definitions[d].0.clone();
        let def = rc_clone(&block.definitions[d].1);
        scope.add_definition(name, def);
        proof {
            assert(block.definitions@.take(d + 1) =~= block.definitions@.take(d as int).push(
                block.definitions@[d as int],
            ));
        }
        d = d + 1;
    }
    proof {
        assert(block.definitions@.take(ndefs as int) =~= block.definitions@);
    }
    let ghost hoisted = scope.frames@;

    let mut output = ValueStream::empty();
    let mut input = input;
    let ghost input0 = input@;
    let ngroups = block.groups.len();
    let mut g: usize = 0;
    while g < ngroups
        invariant
            g <= ngroups,
            scope.frames@ =~= hoisted,
            ctx.registry == old(ctx).registry,
            ctx.ctrl_c == old(ctx).ctrl_c,
            g == 0 ==> *ctx == *old(ctx) && output@ =~= Seq::<StreamEntry>::empty() && input@
                == input0,
            sole_node(*block) matches Some(ClassifiedCommand::Error(_)) ==> g == 0,
            sole_node(*block) matches Some(node) ==> g != 1 || match node {
                ClassifiedCommand::Expr(e) => expr_result_matches(e, hoisted, Ok(output)) && *ctx
                    == *old(ctx),
                ClassifiedCommand::Error(_) => true,
                ClassifiedCommand::Internal(ic) => internal_result_matches(
                    ic,
                    *old(ctx),
                    *ctx,
                    input0,
                    Ok(output),
                ),
                ClassifiedCommand::Dynamic(_) => true,
            },
            two_expr_groups(*block) matches Some(pair) ==> {
                &&& (g == 1 ==> expr_result_matches(pair.0, hoisted, Ok(output)) && *ctx == *old(
                    ctx,
                ))
                &&& (formatter_is_inspect(*old(ctx)) ==> (pair.0 matches Expression::Literal(v)
                    ==> ((*v) matches Value::Error(_) ==> g != 2)))
                &&& (formatter_is_inspect(*old(ctx)) && expr_plain_value(pair.0, hoisted) && old(
                    ctx,
                ).errors@.len() > 0 ==> g != 2)
                &&& (formatter_is_inspect(*old(ctx)) && expr_plain_value(pair.0, hoisted) && old(
                    ctx,
                ).errors@.len() == 0 && old(ctx).ctrl_c ==> g != 2)
                &&& (g == 2 ==> {
                    &&& (registry_lookup(old(ctx).registry@, "autoview"@) is None ==> ctx.calls
                        == old(ctx).calls)
                    &&& (registry_lookup(old(ctx).registry@, "autoview"@) == Some(Command::Inspect)
                        && expr_plain_value(pair.0, hoisted) && old(ctx).errors@.len() == 0 && !old(
                        ctx,
                    ).ctrl_c ==> formatted_once(old(ctx).calls@, ctx.calls@) && ctx.errors == old(
                        ctx,
                    ).errors && expr_result_matches(pair.1, hoisted, Ok(output)))
                })
            },
        decreases ngroups - g,
    {
        // between groups: surface the previous group's output through the
        // formatting command, if one is registered, and poll the checkpoint
        if !output.is_empty() {
            let autoview_name: String = "autoview".to_owned();
            match ctx.get_command(&autoview_name) {
                Some(cmd) => {
                    let formatted = match ctx.run_command(cmd, autoview_name, output) {
                        Ok(x) => x,
                        Err(e) => {
                            return Err(e);
                        },
                    };
                    match check_stream(formatted, ctx) {
                        CheckOutcome::Abort(e) => {
                            return Err(e);
                        },
                        CheckOutcome::Cancelled => {
                            return Ok(ValueStream::empty());
                        },
                        CheckOutcome::Proceed => {},
                    }
                },
                None => {},
            }
        }
        output = ValueStream::empty();
        let group = &block.groups[g];
        let npipes = group.pipelines.len();
        let mut p: usize = 0;
        while p < npipes
            invariant
                p <= npipes,
                scope.frames@ =~= hoisted,
                ctx.registry == old(ctx).registry,
                ctx.ctrl_c == old(ctx).ctrl_c,
                g == 0 && p == 0 ==> *ctx == *old(ctx) && input@ == input0,
                p == 0 ==> output@ =~= Seq::<StreamEntry>::empty(),
                sole_node(*block) matches Some(ClassifiedCommand::Error(_)) ==> p == 0,
                sole_node(*block) matches Some(node) ==> !(g == 0 && p == 1) || match node {
                    ClassifiedCommand::Expr(e) => expr_result_matches(e, hoisted, Ok(output))
                        && *ctx == *old(ctx),
                    ClassifiedCommand::Error(_) => true,
                    ClassifiedCommand::Internal(ic) => internal_result_matches(
                        ic,
                        *old(ctx),
                        *ctx,
                        input0,
                        Ok(output),
                    ),
                    ClassifiedCommand::Dynamic(_) => true,
                },
                two_expr_groups(*block) matches Some(pair) ==> {
                    &&& (g == 0 && p == 1 ==> expr_result_matches(pair.0, hoisted, Ok(output))
                        && *ctx == *old(ctx))
                    &&& (g == 1 ==> {
                        &&& (registry_lookup(old(ctx).registry@, "autoview"@) is None ==> ctx.calls
                            == old(ctx).calls)
                        &&& (registry_lookup(old(ctx).registry@, "autoview"@) == Some(
                            Command::Inspect,
                        ) && expr_plain_value(pair.0, hoisted) && old(ctx).errors@.len() == 0
                            && !old(ctx).ctrl_c ==> formatted_once(old(ctx).calls@, ctx.calls@)
                            && ctx.errors == old(ctx).errors && (p == 1 ==> expr_result_matches(
                            pair.1,
                            hoisted,
                            Ok(output),
                        )))
                    })
                },
            decreases npipes - p,
        {
            // between pipelines: the same checkpoint, without formatting
            if !output.is_empty() {
                match check_stream(output.to_output_stream(), ctx) {
                    CheckOutcome::Abort(e) => {
                        return Err(e);
                    },
                    CheckOutcome::Cancelled => {
                        return Ok(ValueStream::empty());
                    },
                    CheckOutcome::Proceed => {},
                }
            }
            output = match run_pipeline(&group.pipelines[p], ctx, scope, input, depth) {
                Ok(x) => x,
                Err(e) => {
                    return Err(e);
                },
            };
            input = ValueStream::empty();
            p = p + 1;
        }
        g = g + 1;
    }
    Ok(output)
}

} // verus!
