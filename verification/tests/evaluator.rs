use std::rc::Rc;

use block_eval::block::run_block;
use block_eval::context::{Command, EvaluationContext};
use block_eval::errors::ShellError;
use block_eval::hir::{Block, Call, ClassifiedCommand, Expression, Group, InternalCommand, Pipeline};
use block_eval::scope::Scope;
use block_eval::span::Span;
use block_eval::stream::{StreamEntry, ValueStream};
use block_eval::value::{CapturedBlock, Value};

const DEPTH: u64 = 16;

fn span() -> Span {
    Span::unknown()
}

fn labeled(text: &str) -> ShellError {
    ShellError::Labeled { error: text.to_string(), label: text.to_string(), span: span() }
}

fn lit(n: i64) -> Expression {
    Expression::Literal(Rc::new(Value::Int(n)))
}

fn var(name: &str) -> Expression {
    Expression::Variable(name.to_string(), span())
}

fn expr_node(e: Expression) -> ClassifiedCommand {
    ClassifiedCommand::Expr(e)
}

fn internal(name: &str) -> ClassifiedCommand {
    ClassifiedCommand::Internal(InternalCommand { name: name.to_string(), args: Vec::new() })
}

fn pipeline(nodes: Vec<ClassifiedCommand>) -> Pipeline {
    Pipeline { list: nodes }
}

fn group(pipelines: Vec<Pipeline>) -> Group {
    Group { pipelines }
}

fn block_of(groups: Vec<Group>) -> Block {
    Block { params: Vec::new(), definitions: Vec::new(), groups }
}

fn body_of(params: Vec<&str>, nodes: Vec<ClassifiedCommand>) -> Block {
    Block {
        params: params.iter().map(|p| p.to_string()).collect(),
        definitions: Vec::new(),
        groups: vec![group(vec![pipeline(nodes)])],
    }
}

fn dynamic_inline(body: Block, args: Vec<Expression>) -> ClassifiedCommand {
    ClassifiedCommand::Dynamic(Call {
        head: Box::new(Expression::Block(Rc::new(body))),
        head_span: span(),
        positional: args,
    })
}

fn dynamic_var(name: &str, args: Vec<Expression>) -> ClassifiedCommand {
    ClassifiedCommand::Dynamic(Call {
        head: Box::new(var(name)),
        head_span: span(),
        positional: args,
    })
}

fn ints(values: Vec<i64>) -> Vec<StreamEntry> {
    values.into_iter().map(|n| StreamEntry::Produced(Rc::new(Value::Int(n)))).collect()
}

fn run(block: &Block, ctx: &mut EvaluationContext, scope: &mut Scope) -> Result<ValueStream, ShellError> {
    run_block(block, ctx, scope, ValueStream::empty(), DEPTH)
}

#[test]
fn empty_block_yields_empty_stream_and_no_dispatch() {
    let mut ctx = EvaluationContext::new();
    ctx.register("autoview".to_string(), Command::Inspect);
    let mut scope = Scope::new();
    let block = block_of(Vec::new());
    let r = run(&block, &mut ctx, &mut scope).unwrap();
    assert!(r.is_empty());
    assert!(ctx.calls.is_empty());
}

#[test]
fn literal_expression_yields_its_value() {
    let mut ctx = EvaluationContext::new();
    let mut scope = Scope::new();
    let block = block_of(vec![group(vec![pipeline(vec![expr_node(lit(7))])])]);
    let r = run(&block, &mut ctx, &mut scope).unwrap();
    assert_eq!(r.entries, ints(vec![7]));
}

#[test]
fn last_pipeline_output_is_the_result() {
    let mut ctx = EvaluationContext::new();
    let mut scope = Scope::new();
    let block = block_of(vec![group(vec![
        pipeline(vec![expr_node(lit(1))]),
        pipeline(vec![expr_node(lit(2))]),
    ])]);
    let r = run(&block, &mut ctx, &mut scope).unwrap();
    assert_eq!(r.entries, ints(vec![2]));
}

#[test]
fn external_input_reaches_only_the_first_pipeline() {
    let mut ctx = EvaluationContext::new();
    ctx.register("view".to_string(), Command::Inspect);
    let mut scope = Scope::new();
    let block = block_of(vec![group(vec![
        pipeline(vec![internal("view")]),
        pipeline(vec![internal("view")]),
    ])]);
    let input = ValueStream::from_entries(ints(vec![42]));
    let r = run_block(&block, &mut ctx, &mut scope, input, DEPTH).unwrap();
    // the second pipeline started from an empty stream, so the block's
    // result (the last pipeline's output) is empty
    assert!(r.is_empty());
    assert_eq!(ctx.calls, vec!["view".to_string(), "view".to_string()]);
}

#[test]
fn error_node_aborts_with_stored_error() {
    let mut ctx = EvaluationContext::new();
    let mut scope = Scope::new();
    let block = block_of(vec![group(vec![pipeline(vec![ClassifiedCommand::Error(labeled(
        "did not classify",
    ))])])]);
    assert_eq!(run(&block, &mut ctx, &mut scope), Err(labeled("did not classify")));
}

#[test]
fn in_band_error_aborts_block_and_skips_the_rest() {
    let mut ctx = EvaluationContext::new();
    ctx.register("view".to_string(), Command::Inspect);
    let mut scope = Scope::new();
    let poison = Expression::Literal(Rc::new(Value::Error(labeled("bad value"))));
    let block = block_of(vec![
        group(vec![pipeline(vec![expr_node(poison)]), pipeline(vec![internal("view")])]),
        group(vec![pipeline(vec![internal("view")])]),
    ]);
    assert_eq!(run(&block, &mut ctx, &mut scope), Err(labeled("bad value")));
    // neither the rest of the group nor the next group ran
    assert!(ctx.calls.is_empty());
}

#[test]
fn sink_error_wins_over_an_apparent_success() {
    let mut ctx = EvaluationContext::new();
    ctx.register("defer".to_string(), Command::Defer);
    ctx.register("view".to_string(), Command::Inspect);
    let mut scope = Scope::new();
    let block = block_of(vec![group(vec![
        pipeline(vec![expr_node(lit(1)), internal("defer")]),
        pipeline(vec![internal("view")]),
    ])]);
    assert_eq!(run(&block, &mut ctx, &mut scope), Err(ShellError::Deferred));
    // drained: a later checkpoint would see the sink empty
    assert!(ctx.get_errors().is_empty());
    // the second pipeline never ran
    assert_eq!(ctx.calls, vec!["defer".to_string()]);
}

#[test]
fn cancellation_returns_clean_empty_stream() {
    let mut ctx = EvaluationContext::new();
    ctx.register("view".to_string(), Command::Inspect);
    ctx.ctrl_c = true;
    let mut scope = Scope::new();
    let block = block_of(vec![group(vec![
        pipeline(vec![expr_node(lit(1))]),
        pipeline(vec![internal("view")]),
    ])]);
    let r = run(&block, &mut ctx, &mut scope).unwrap();
    assert!(r.is_empty());
    // no error anywhere, and nothing further was dispatched
    assert!(ctx.get_errors().is_empty());
    assert!(ctx.calls.is_empty());
}

#[test]
fn inline_closure_sees_its_argument() {
    let mut ctx = EvaluationContext::new();
    let mut scope = Scope::new();
    let body = body_of(vec!["x"], vec![expr_node(var("x"))]);
    let block = block_of(vec![group(vec![pipeline(vec![dynamic_inline(body, vec![lit(5)])])])]);
    let r = run(&block, &mut ctx, &mut scope).unwrap();
    assert_eq!(r.entries, ints(vec![5]));
    // the binding is not visible once the call has returned
    assert_eq!(scope.get_var(&"x".to_string()), None);
}

#[test]
fn captured_closure_sees_its_snapshot_not_the_caller() {
    let mut ctx = EvaluationContext::new();
    let mut scope = Scope::new();
    // a closure built elsewhere captured y == 9; its defining scope is gone
    let closure = Value::Block(CapturedBlock {
        block: Rc::new(body_of(Vec::new(), vec![expr_node(var("y"))])),
        captured: vec![("y".to_string(), Rc::new(Value::Int(9)))],
    });
    scope.add_var("f".to_string(), Rc::new(closure));
    let block = block_of(vec![group(vec![pipeline(vec![dynamic_var("f", Vec::new())])])]);
    let r = run(&block, &mut ctx, &mut scope).unwrap();
    assert_eq!(r.entries, ints(vec![9]));
}

#[test]
fn caller_bindings_after_capture_do_not_override_the_snapshot() {
    let mut ctx = EvaluationContext::new();
    let mut scope = Scope::new();
    // the closure captured y == 9; the caller later binds y == 100
    let closure = Value::Block(CapturedBlock {
        block: Rc::new(body_of(Vec::new(), vec![expr_node(var("y"))])),
        captured: vec![("y".to_string(), Rc::new(Value::Int(9)))],
    });
    scope.add_var("f".to_string(), Rc::new(closure));
    scope.add_var("y".to_string(), Rc::new(Value::Int(100)));
    let block = block_of(vec![group(vec![pipeline(vec![dynamic_var("f", Vec::new())])])]);
    let r = run(&block, &mut ctx, &mut scope).unwrap();
    assert_eq!(r.entries, ints(vec![9]));
    // and the caller's own binding is untouched afterwards
    assert_eq!(scope.get_var(&"y".to_string()), Some(Rc::new(Value::Int(100))));
}

#[test]
fn block_literal_captures_current_bindings() {
    let mut ctx = EvaluationContext::new();
    let mut scope = Scope::new();
    scope.add_var("a".to_string(), Rc::new(Value::Int(3)));
    let inner = body_of(Vec::new(), vec![expr_node(var("a"))]);
    let block = block_of(vec![group(vec![pipeline(vec![expr_node(Expression::Block(Rc::new(
        inner,
    )))])])]);
    let mut r = run(&block, &mut ctx, &mut scope).unwrap();
    let v = r.try_next().unwrap().unwrap();
    match &*v {
        Value::Block(cb) => {
            assert_eq!(cb.captured, vec![("a".to_string(), Rc::new(Value::Int(3)))]);
        },
        other => panic!("expected a closure value, got {:?}", other),
    }
}

#[test]
fn scope_is_balanced_when_a_dynamic_call_fails() {
    let mut ctx = EvaluationContext::new();
    let mut scope = Scope::new();
    scope.add_var("keep".to_string(), Rc::new(Value::Int(1)));
    let frames_before = scope.frames.len();
    let body = body_of(vec!["x"], vec![ClassifiedCommand::Error(labeled("inner failure"))]);
    let block = block_of(vec![group(vec![pipeline(vec![dynamic_inline(body, vec![lit(5)])])])]);
    assert_eq!(run(&block, &mut ctx, &mut scope), Err(labeled("inner failure")));
    // the frame pushed for the call was popped exactly once
    assert_eq!(scope.frames.len(), frames_before);
    assert_eq!(scope.get_var(&"keep".to_string()), Some(Rc::new(Value::Int(1))));
    assert_eq!(scope.get_var(&"x".to_string()), None);
}

#[test]
fn autoview_runs_between_groups_on_nonempty_output() {
    let mut ctx = EvaluationContext::new();
    ctx.register("autoview".to_string(), Command::Inspect);
    let mut scope = Scope::new();
    let block = block_of(vec![
        group(vec![pipeline(vec![expr_node(lit(1))])]),
        group(vec![pipeline(vec![expr_node(lit(2))])]),
    ]);
    let r = run(&block, &mut ctx, &mut scope).unwrap();
    assert_eq!(r.entries, ints(vec![2]));
    // invoked exactly once: between the groups, not before the first and
    // not after the last
    assert_eq!(ctx.calls, vec!["autoview".to_string()]);
}

#[test]
fn autoview_skipped_when_previous_group_was_empty() {
    let mut ctx = EvaluationContext::new();
    ctx.register("autoview".to_string(), Command::Inspect);
    let mut scope = Scope::new();
    let block = block_of(vec![
        group(Vec::new()),
        group(vec![pipeline(vec![expr_node(lit(2))])]),
    ]);
    let r = run(&block, &mut ctx, &mut scope).unwrap();
    assert_eq!(r.entries, ints(vec![2]));
    assert!(ctx.calls.is_empty());
}

#[test]
fn autoview_not_invoked_for_a_single_group() {
    let mut ctx = EvaluationContext::new();
    ctx.register("autoview".to_string(), Command::Inspect);
    let mut scope = Scope::new();
    let block = block_of(vec![group(vec![pipeline(vec![expr_node(lit(1))])])]);
    let r = run(&block, &mut ctx, &mut scope).unwrap();
    assert_eq!(r.entries, ints(vec![1]));
    assert!(ctx.calls.is_empty());
}

#[test]
fn groups_run_without_a_registered_formatter() {
    let mut ctx = EvaluationContext::new();
    let mut scope = Scope::new();
    let block = block_of(vec![
        group(vec![pipeline(vec![expr_node(lit(1))])]),
        group(vec![pipeline(vec![expr_node(lit(2))])]),
    ]);
    let r = run(&block, &mut ctx, &mut scope).unwrap();
    assert_eq!(r.entries, ints(vec![2]));
    assert!(ctx.calls.is_empty());
}

#[test]
fn surplus_parameters_are_ignored() {
    let mut ctx = EvaluationContext::new();
    let mut scope = Scope::new();
    let body = body_of(vec!["x", "y"], vec![expr_node(var("x"))]);
    let block = block_of(vec![group(vec![pipeline(vec![dynamic_inline(body, vec![lit(1)])])])]);
    let r = run(&block, &mut ctx, &mut scope).unwrap();
    assert_eq!(r.entries, ints(vec![1]));
}

#[test]
fn unbound_surplus_parameter_is_simply_not_in_scope() {
    let mut ctx = EvaluationContext::new();
    let mut scope = Scope::new();
    let body = body_of(vec!["x", "y"], vec![expr_node(var("y"))]);
    let block = block_of(vec![group(vec![pipeline(vec![dynamic_inline(body, vec![lit(1)])])])]);
    assert_eq!(run(&block, &mut ctx, &mut scope), Err(ShellError::VariableNotFound(span())));
}

#[test]
fn surplus_arguments_are_ignored() {
    let mut ctx = EvaluationContext::new();
    let mut scope = Scope::new();
    let body = body_of(vec!["x"], vec![expr_node(var("x"))]);
    let block = block_of(vec![group(vec![pipeline(vec![dynamic_inline(
        body,
        vec![lit(1), lit(2), lit(3)],
    )])])]);
    let r = run(&block, &mut ctx, &mut scope).unwrap();
    assert_eq!(r.entries, ints(vec![1]));
}

#[test]
fn dynamic_head_must_be_a_block() {
    let mut ctx = EvaluationContext::new();
    let mut scope = Scope::new();
    let head_span = Span::new(3, 9);
    let block = block_of(vec![group(vec![pipeline(vec![ClassifiedCommand::Dynamic(Call {
        head: Box::new(lit(4)),
        head_span,
        positional: Vec::new(),
    })])])]);
    assert_eq!(run(&block, &mut ctx, &mut scope), Err(ShellError::NotABlock(head_span)));
}

#[test]
fn dynamic_variable_holding_non_block_is_an_error() {
    let mut ctx = EvaluationContext::new();
    let mut scope = Scope::new();
    scope.add_var("n".to_string(), Rc::new(Value::Int(4)));
    let block = block_of(vec![group(vec![pipeline(vec![dynamic_var("n", Vec::new())])])]);
    assert_eq!(run(&block, &mut ctx, &mut scope), Err(ShellError::NotABlock(span())));
}

#[test]
fn dynamic_unknown_variable_is_an_error() {
    let mut ctx = EvaluationContext::new();
    let mut scope = Scope::new();
    let block = block_of(vec![group(vec![pipeline(vec![dynamic_var("ghostly", Vec::new())])])]);
    assert_eq!(run(&block, &mut ctx, &mut scope), Err(ShellError::VariableNotFound(span())));
}

#[test]
fn unknown_internal_command_is_an_error() {
    let mut ctx = EvaluationContext::new();
    let mut scope = Scope::new();
    let block = block_of(vec![group(vec![pipeline(vec![internal("nope")])])]);
    assert_eq!(
        run(&block, &mut ctx, &mut scope),
        Err(ShellError::CommandNotFound("nope".to_string()))
    );
    assert!(ctx.calls.is_empty());
}

#[test]
fn failing_command_propagates_directly() {
    let mut ctx = EvaluationContext::new();
    ctx.register("boom".to_string(), Command::Fail);
    let mut scope = Scope::new();
    let block = block_of(vec![group(vec![pipeline(vec![internal("boom")])])]);
    assert_eq!(
        run(&block, &mut ctx, &mut scope),
        Err(ShellError::CommandFailed("boom".to_string()))
    );
}

#[test]
fn nesting_deeper_than_the_limit_is_reported() {
    let mut ctx = EvaluationContext::new();
    let mut scope = Scope::new();
    let body = body_of(Vec::new(), vec![expr_node(lit(1))]);
    let block = block_of(vec![group(vec![pipeline(vec![dynamic_inline(body, Vec::new())])])]);
    assert_eq!(
        run_block(&block, &mut ctx, &mut scope, ValueStream::empty(), 0),
        Err(ShellError::DepthLimitReached)
    );
}

#[test]
fn definitions_are_hoisted_before_any_group() {
    let mut ctx = EvaluationContext::new();
    let mut scope = Scope::new();
    let helper = Rc::new(body_of(Vec::new(), vec![expr_node(lit(1))]));
    let block = Block {
        params: Vec::new(),
        definitions: vec![("helper".to_string(), helper)],
        groups: Vec::new(),
    };
    run(&block, &mut ctx, &mut scope).unwrap();
    assert!(scope.get_command(&"helper".to_string()).is_some());
    assert!(scope.get_command(&"other".to_string()).is_none());
}

#[test]
fn expression_node_discards_upstream_data() {
    let mut ctx = EvaluationContext::new();
    ctx.register("view".to_string(), Command::Inspect);
    let mut scope = Scope::new();
    let block = block_of(vec![group(vec![pipeline(vec![internal("view"), expr_node(lit(9))])])]);
    let input = ValueStream::from_entries(ints(vec![1, 2]));
    let r = run_block(&block, &mut ctx, &mut scope, input, DEPTH).unwrap();
    assert_eq!(r.entries, ints(vec![9]));
}

#[test]
fn inspect_passes_the_stream_through() {
    let mut ctx = EvaluationContext::new();
    ctx.register("view".to_string(), Command::Inspect);
    let mut scope = Scope::new();
    let block = block_of(vec![group(vec![pipeline(vec![internal("view")])])]);
    let input = ValueStream::from_entries(ints(vec![1, 2, 3]));
    let r = run_block(&block, &mut ctx, &mut scope, input, DEPTH).unwrap();
    assert_eq!(r.entries, ints(vec![1, 2, 3]));
    assert_eq!(ctx.calls, vec!["view".to_string()]);
}

#[test]
fn dynamic_call_ends_the_pipeline() {
    let mut ctx = EvaluationContext::new();
    ctx.register("view".to_string(), Command::Inspect);
    let mut scope = Scope::new();
    let body = body_of(Vec::new(), vec![expr_node(lit(5))]);
    // the node after the dynamic call never runs
    let block = block_of(vec![group(vec![pipeline(vec![
        dynamic_inline(body, Vec::new()),
        internal("view"),
    ])])]);
    let r = run(&block, &mut ctx, &mut scope).unwrap();
    assert_eq!(r.entries, ints(vec![5]));
    assert!(ctx.calls.is_empty());
}

#[test]
fn other_value_kinds_flow_through_unchanged() {
    let mut ctx = EvaluationContext::new();
    ctx.register("view".to_string(), Command::Inspect);
    let mut scope = Scope::new();
    let block = block_of(vec![group(vec![pipeline(vec![internal("view")])])]);
    let input = ValueStream::from_entries(vec![
        StreamEntry::Produced(Rc::new(Value::Nothing)),
        StreamEntry::Produced(Rc::new(Value::Str("plain".to_string()))),
    ]);
    let r = run_block(&block, &mut ctx, &mut scope, input, DEPTH).unwrap();
    assert_eq!(
        r.entries,
        vec![
            StreamEntry::Produced(Rc::new(Value::Nothing)),
            StreamEntry::Produced(Rc::new(Value::Str("plain".to_string()))),
        ]
    );
}

#[test]
fn formatter_deferred_error_aborts_between_groups() {
    let mut ctx = EvaluationContext::new();
    ctx.register("autoview".to_string(), Command::Defer);
    let mut scope = Scope::new();
    let block = block_of(vec![
        group(vec![pipeline(vec![expr_node(lit(1))])]),
        group(vec![pipeline(vec![expr_node(lit(2))])]),
    ]);
    assert_eq!(run(&block, &mut ctx, &mut scope), Err(ShellError::Deferred));
    // the sink was drained at the checkpoint that surfaced the error
    assert!(ctx.get_errors().is_empty());
    assert_eq!(ctx.calls, vec!["autoview".to_string()]);
}

#[test]
fn formatter_direct_failure_aborts_between_groups() {
    let mut ctx = EvaluationContext::new();
    ctx.register("autoview".to_string(), Command::Fail);
    let mut scope = Scope::new();
    let block = block_of(vec![
        group(vec![pipeline(vec![expr_node(lit(1))])]),
        group(vec![pipeline(vec![expr_node(lit(2))])]),
    ]);
    assert_eq!(
        run(&block, &mut ctx, &mut scope),
        Err(ShellError::CommandFailed("autoview".to_string()))
    );
}

#[test]
fn formatter_surfaces_in_band_error_from_previous_group() {
    let mut ctx = EvaluationContext::new();
    ctx.register("autoview".to_string(), Command::Inspect);
    let mut scope = Scope::new();
    let poison = Expression::Literal(Rc::new(Value::Error(labeled("late error"))));
    let block = block_of(vec![
        group(vec![pipeline(vec![expr_node(poison)])]),
        group(vec![pipeline(vec![expr_node(lit(2))])]),
    ]);
    assert_eq!(run(&block, &mut ctx, &mut scope), Err(labeled("late error")));
    // the formatter ran once, and the second group never did
    assert_eq!(ctx.calls, vec!["autoview".to_string()]);
}
