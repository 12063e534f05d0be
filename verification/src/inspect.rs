//! The trivial formatting command: it surfaces each item it is given and
//! hands the stream on unchanged. Rendering items to a user belongs to the
//! host around the library, not to the data path specified here.

use vstd::prelude::*;

use crate::stream::ValueStream;

verus! {

/// What a command is started with: the stream produced by the previous
/// stage.
#[derive(Debug)]
pub struct CommandArgs {
    pub input: ValueStream,
}

/// A command that inspects values as they pass and changes nothing.
#[derive(Debug)]
pub struct InspectCommand;

impl InspectCommand {
    /// Starts the command: the output carries exactly the input's entries.
    pub fn start(&self, args: CommandArgs) -> (r: ValueStream)
        ensures
            r@ == args.input@,
    {
        args.input
    }
}

} // verus!
