//! The lazy value sequence threaded between pipeline stages.
//!
//! A stream is single-pass: `try_next` hands an entry out and it is gone.
//! Emptiness is knowable without consuming anything, which the evaluator
//! needs in order to skip checkpoints for stages that produced no output.

use std::rc::Rc;
use vstd::prelude::*;

use crate::errors::ShellError;
use crate::value::Value;

verus! {

/// One pull from a stream: either a produced value, or the stream failing
/// out-of-band at that point.
#[derive(Debug, PartialEq)]
pub enum StreamEntry {
    Produced(Rc<Value>),
    Failed(ShellError),
}

/// A possibly-empty sequence of entries, consumed front to back.
#[derive(Debug, PartialEq)]
pub struct ValueStream {
    pub entries: Vec<StreamEntry>,
}

impl View for ValueStream {
    type V = Seq<StreamEntry>;

    open spec fn view(&self) -> Seq<StreamEntry> {
        self.entries@
    }
}

impl ValueStream {
    /// A stream with nothing in it.
    pub fn empty() -> (r: ValueStream)
        ensures
            r@ =~= Seq::<StreamEntry>::empty(),
    {
        ValueStream { entries: Vec::new() }
    }

    /// A stream that will yield exactly the given entries, in order.
    pub fn from_entries(entries: Vec<StreamEntry>) -> (r: ValueStream)
        ensures
            r@ == entries@,
    {
        ValueStream { entries }
    }

    /// Whether nothing remains; cheap and non-consuming.
    pub fn is_empty(&self) -> (r: bool)
        ensures
            r == (self@.len() == 0),
    {
        self.entries.len() == 0
    }

    pub fn len(&self) -> (r: usize)
        ensures
            r == self@.len(),
    {
        self.entries.len()
    }

    /// Pulls the next entry: `Ok(Some(_))` for a produced value, `Err(_)`
    /// where the stream fails at this point, `Ok(None)` when it is spent.
    pub fn try_next(&mut self) -> (r: Result<Option<Rc<Value>>, ShellError>)
        ensures
            old(self)@.len() == 0 ==> r == Ok::<Option<Rc<Value>>, ShellError>(None)
                && final(self)@ =~= old(self)@,
            old(self)@.len() > 0 ==> final(self)@ =~= old(self)@.drop_first()
                && (match old(self)@[0] {
                    StreamEntry::Produced(v) => r == Ok::<Option<Rc<Value>>, ShellError>(Some(v)),
                    StreamEntry::Failed(e) => r == Err::<Option<Rc<Value>>, ShellError>(e),
                }),
    {
        if self.entries.len() == 0 {
            Ok(None)
        } else {
            let entry = self.entries.remove(0);
            proof {
                assert(old(self)@.remove(0) =~= old(self)@.drop_first());
            }
            match entry {
                StreamEntry::Produced(v) => Ok(Some(v)),
                StreamEntry::Failed(e) => Err(e),
            }
        }
    }

    /// Adapts the stream to the shape the checkpoint logic consumes. The
    /// internal and external representations coincide here, so this is the
    /// identity, kept for the shape of the calling code.
    pub fn to_output_stream(self) -> (r: ValueStream)
        ensures
            r@ == self@,
    {
        self
    }
}

} // verus!
