//! Dispatch of internal command nodes: resolve the name in the registry and
//! run the command against the current stream.

use vstd::prelude::*;

use crate::context::{registry_lookup, Command, EvaluationContext};
use crate::errors::ShellError;
use crate::hir::InternalCommand;
use crate::stream::ValueStream;

verus! {

/// What dispatching one internal command node does: an unknown name is an
/// error and leaves the context untouched; a resolved command is logged and
/// behaves as its registration says.
pub open spec fn internal_result_matches(
    command: InternalCommand,
    ctx0: EvaluationContext,
    ctx1: EvaluationContext,
    input: Seq<crate::stream::StreamEntry>,
    r: Result<ValueStream, ShellError>,
) -> bool {
    &&& ctx1.registry == ctx0.registry
    &&& ctx1.ctrl_c == ctx0.ctrl_c
    &&& match registry_lookup(ctx0.registry@, command.name@) {
        None => r == Err::<ValueStream, ShellError>(ShellError::CommandNotFound(command.name))
            && ctx1.calls == ctx0.calls && ctx1.errors == ctx0.errors,
        Some(c) => ctx1.calls@ =~= ctx0.calls@.push(command.name) && match c {
            Command::Inspect => (r matches Ok(s) && s@ =~= input) && ctx1.errors == ctx0.errors,
            Command::Defer => (r matches Ok(s) && s@ =~= input) && ctx1.errors@ =~= ctx0.errors@.push(
                ShellError::Deferred,
            ),
            Command::Fail => r == Err::<ValueStream, ShellError>(
                ShellError::CommandFailed(command.name),
            ) && ctx1.errors == ctx0.errors,
        },
    }
}

/// Resolves an internal command node by name and runs it. Any failure is
/// surfaced immediately; nothing is retried here.
pub fn run_internal_command(
    command: &InternalCommand,
    ctx: &mut EvaluationContext,
    input: ValueStream,
) -> (r: Result<ValueStream, ShellError>)
    ensures
        internal_result_matches(*command, *old(ctx), *final(ctx), input@, r),
{
    match ctx.get_command(&command.name) {
        None => Err(ShellError::CommandNotFound(command.name.clone())),
        Some(c) => ctx.run_command(c, command.name.clone(), input),
    }
}

} // verus!
