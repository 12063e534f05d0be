//! Session-scoped facilities shared by every stage of an evaluation: the
//! command registry, the deferred-error sink, a log of dispatched commands,
//! and the cancellation flag.

use vstd::prelude::*;

use crate::errors::ShellError;
use crate::inspect::{CommandArgs, InspectCommand};
use crate::stream::ValueStream;

verus! {

/// A registered command's behavior.
///
/// Command internals are outside the evaluator's scope; these are the narrow
/// behaviors the evaluator's own contract is stated against. `Inspect`
/// passes its input through unchanged (a formatter's data path), `Defer`
/// records an error in the shared sink instead of returning it, and `Fail`
/// fails directly.
#[derive(Clone, Copy, PartialEq, Eq, Structural, Debug)]
pub enum Command {
    Inspect,
    Defer,
    Fail,
}

/// The registered command a name resolves to: the entry added last wins.
pub open spec fn registry_lookup(registry: Seq<(String, Command)>, name: Seq<char>) -> Option<
    Command,
>
    decreases registry.len(),
{
    if registry.len() == 0 {
        None
    } else if registry.last().0@ == name {
        Some(registry.last().1)
    } else {
        registry_lookup(registry.drop_last(), name)
    }
}

/// Shared, session-scoped state. The cancellation flag is set from outside
/// the evaluator and only ever polled by it; the error sink is appended to
/// by commands and drained at the evaluator's checkpoints.
#[derive(Debug)]
pub struct EvaluationContext {
    pub registry: Vec<(String, Command)>,
    pub errors: Vec<ShellError>,
    pub calls: Vec<String>,
    pub ctrl_c: bool,
}

impl EvaluationContext {
    /// A context with nothing registered, an empty sink, and the
    /// cancellation flag clear.
    pub fn new() -> (r: EvaluationContext)
        ensures
            r.registry@ =~= Seq::<(String, Command)>::empty(),
            r.errors@ =~= Seq::<ShellError>::empty(),
            r.calls@ =~= Seq::<String>::empty(),
            r.ctrl_c == false,
    {
        EvaluationContext {
            registry: Vec::new(),
            errors: Vec::new(),
            calls: Vec::new(),
            ctrl_c: false,
        }
    }

    /// Registers a command under a name, shadowing earlier registrations.
    pub fn register(&mut self, name: String, command: Command)
        ensures
            final(self).registry@ =~= old(self).registry@.push((name, command)),
            final(self).errors == old(self).errors,
            final(self).calls == old(self).calls,
            final(self).ctrl_c == old(self).ctrl_c,
    {
        self.registry.push((name, command));
    }

    /// Looks a name up in the registry.
    pub fn get_command(&self, name: &String) -> (r: Option<Command>)
        ensures
            r == registry_lookup(self.registry@, name@),
    {
        let mut i = self.registry.len();
        proof {
            assert(self.registry@.take(self.registry@.len() as int) =~= self.registry@);
        }
        while i > 0
            invariant
                i <= self.registry@.len(),
                registry_lookup(self.registry@, name@) == registry_lookup(
                    self.registry@.take(i as int),
                    name@,
                ),
            decreases i,
        {
            if self.registry[i - 1].0 == *name {
                proof {
                    assert(self.registry@.take(i as int).last() == self.registry@[i - 1]);
                }
                return Some(self.registry[i - 1].1);
            }
            proof {
                assert(self.registry@.take(i as int).drop_last() =~= self.registry@.take(i - 1));
            }
            i = i - 1;
        }
        proof {
            assert(self.registry@.take(0) =~= Seq::<(String, Command)>::empty());
        }
        None
    }

    /// The deferred errors recorded so far, oldest first.
    pub fn get_errors(&self) -> (r: &Vec<ShellError>)
        ensures
            r == &self.errors,
    {
        &self.errors
    }

    /// Empties the sink; draining happens at most once per checkpoint.
    pub fn clear_errors(&mut self)
        ensures
            final(self).errors@ =~= Seq::<ShellError>::empty(),
            final(self).registry == old(self).registry,
            final(self).calls == old(self).calls,
            final(self).ctrl_c == old(self).ctrl_c,
    {
        self.errors.clear();
    }

    /// Records a deferred error, as a command would.
    pub fn add_error(&mut self, e: ShellError)
        ensures
            final(self).errors@ =~= old(self).errors@.push(e),
            final(self).registry == old(self).registry,
            final(self).calls == old(self).calls,
            final(self).ctrl_c == old(self).ctrl_c,
    {
        self.errors.push(e);
    }

    /// Runs an already-resolved command against an input stream, logging the
    /// dispatch. The outcome per behavior: `Inspect` hands the input on,
    /// `Defer` does too after recording an error in the sink, `Fail` returns
    /// a direct failure.
    pub fn run_command(&mut self, command: Command, name: String, input: ValueStream) -> (r:
        Result<ValueStream, ShellError>)
        ensures
            final(self).registry == old(self).registry,
            final(self).ctrl_c == old(self).ctrl_c,
            final(self).calls@ =~= old(self).calls@.push(name),
            match command {
                Command::Inspect => (r matches Ok(s) && s@ =~= input@) && final(self).errors == old(
                    self,
                ).errors,
                Command::Defer => (r matches Ok(s) && s@ =~= input@) && final(self).errors@ =~= old(
                    self,
                ).errors@.push(ShellError::Deferred),
                Command::Fail => r == Err::<ValueStream, ShellError>(ShellError::CommandFailed(name))
                    && final(self).errors == old(self).errors,
            },
    {
        match command {
            Command::Inspect => {
                self.calls.push(name);
                let inspector = InspectCommand;
                Ok(inspector.start(CommandArgs { input }))
            },
            Command::Defer => {
                self.calls.push(name);
                self.errors.push(ShellError::Deferred);
                Ok(input)
            },
            Command::Fail => {
                let err = ShellError::CommandFailed(name.clone());
                self.calls.push(name);
                Err(err)
            },
        }
    }
}

} // verus!
