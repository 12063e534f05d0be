use std::rc::Rc;

use block_eval::block::{check_stream, CheckOutcome};
use block_eval::context::{Command, EvaluationContext};
use block_eval::errors::{clone_error, ShellError};
use block_eval::scope::Scope;
use block_eval::span::Span;
use block_eval::stream::{StreamEntry, ValueStream};
use block_eval::value::Value;

fn produced(n: i64) -> StreamEntry {
    StreamEntry::Produced(Rc::new(Value::Int(n)))
}

fn labeled(text: &str) -> ShellError {
    ShellError::Labeled {
        error: text.to_string(),
        label: text.to_string(),
        span: Span { start: 0, end: 0 },
    }
}

#[test]
fn stream_is_single_pass() {
    let mut s = ValueStream::from_entries(vec![produced(1), produced(2)]);
    assert!(!s.is_empty());
    assert_eq!(s.len(), 2);
    assert_eq!(s.try_next(), Ok(Some(Rc::new(Value::Int(1)))));
    assert_eq!(s.try_next(), Ok(Some(Rc::new(Value::Int(2)))));
    assert_eq!(s.try_next(), Ok(None));
    assert!(s.is_empty());
}

#[test]
fn stream_failure_is_out_of_band() {
    let mut s = ValueStream::from_entries(vec![StreamEntry::Failed(labeled("broken"))]);
    assert!(!s.is_empty());
    assert_eq!(s.try_next(), Err(labeled("broken")));
    assert_eq!(s.try_next(), Ok(None));
}

#[test]
fn empty_stream_reports_empty_without_consuming() {
    let s = ValueStream::empty();
    assert!(s.is_empty());
    assert_eq!(s.len(), 0);
}

#[test]
fn clone_error_copies_every_variant() {
    let e = labeled("x");
    assert_eq!(clone_error(&e), e);
    let e = ShellError::CommandNotFound("nope".to_string());
    assert_eq!(clone_error(&e), e);
    let e = ShellError::DepthLimitReached;
    assert_eq!(clone_error(&e), e);
}

#[test]
fn checkpoint_promotes_in_band_error() {
    let mut ctx = EvaluationContext::new();
    // an in-band error wins even over an error already sitting in the sink
    ctx.add_error(labeled("sunk"));
    let s = ValueStream::from_entries(vec![StreamEntry::Produced(Rc::new(Value::Error(labeled(
        "in band",
    ))))]);
    assert_eq!(check_stream(s, &mut ctx), CheckOutcome::Abort(labeled("in band")));
    // the sink was not drained on that path
    assert_eq!(ctx.get_errors().len(), 1);
}

#[test]
fn checkpoint_drains_sink_even_on_success_value() {
    let mut ctx = EvaluationContext::new();
    ctx.add_error(labeled("first"));
    ctx.add_error(labeled("second"));
    ctx.ctrl_c = true;
    let s = ValueStream::from_entries(vec![produced(1)]);
    // the sink wins over the produced value and over cancellation
    assert_eq!(check_stream(s, &mut ctx), CheckOutcome::Abort(labeled("first")));
    // drained: a later check sees the sink empty
    assert_eq!(ctx.get_errors().len(), 0);
    let s = ValueStream::from_entries(vec![produced(1)]);
    assert_eq!(check_stream(s, &mut ctx), CheckOutcome::Cancelled);
}

#[test]
fn checkpoint_polls_cancellation_behind_a_value() {
    let mut ctx = EvaluationContext::new();
    ctx.ctrl_c = true;
    let s = ValueStream::from_entries(vec![produced(1)]);
    assert_eq!(check_stream(s, &mut ctx), CheckOutcome::Cancelled);
    // behind an exhausted stream the flag is not polled
    assert_eq!(check_stream(ValueStream::empty(), &mut ctx), CheckOutcome::Proceed);
}

#[test]
fn checkpoint_aborts_on_out_of_band_failure() {
    let mut ctx = EvaluationContext::new();
    let s = ValueStream::from_entries(vec![StreamEntry::Failed(labeled("pull failed"))]);
    assert_eq!(check_stream(s, &mut ctx), CheckOutcome::Abort(labeled("pull failed")));
}

#[test]
fn checkpoint_proceeds_on_plain_value() {
    let mut ctx = EvaluationContext::new();
    let s = ValueStream::from_entries(vec![produced(7)]);
    assert_eq!(check_stream(s, &mut ctx), CheckOutcome::Proceed);
}

#[test]
fn scope_lookup_shadows_innermost_last() {
    let mut scope = Scope::new();
    scope.add_var("x".to_string(), Rc::new(Value::Int(1)));
    scope.enter_scope();
    scope.add_var("x".to_string(), Rc::new(Value::Int(2)));
    assert_eq!(scope.get_var(&"x".to_string()), Some(Rc::new(Value::Int(2))));
    scope.exit_scope();
    assert_eq!(scope.get_var(&"x".to_string()), Some(Rc::new(Value::Int(1))));
    assert_eq!(scope.get_var(&"y".to_string()), None);
}

#[test]
fn registry_last_registration_wins() {
    let mut ctx = EvaluationContext::new();
    ctx.register("view".to_string(), Command::Fail);
    ctx.register("view".to_string(), Command::Inspect);
    assert_eq!(ctx.get_command(&"view".to_string()), Some(Command::Inspect));
    assert_eq!(ctx.get_command(&"gone".to_string()), None);
}
