//! The actuation sink: where a cycle's command batch leaves the task graph.

use vstd::prelude::*;
use crate::messages::Command;

verus! {

/// The sink of the command batches. In simulation nothing is actuated: the
/// sink keeps the batch of the latest cycle, in order, for whoever observes
/// the airframe.
#[derive(Debug)]
pub struct ActuationSink {
    forwarded: Vec<Command>,
}

impl ActuationSink {
    /// The commands of the latest batch, in the order they were forwarded.
    pub closed spec fn observed(&self) -> Seq<Command> {
        self.forwarded@
    }

    /// A sink that has forwarded nothing.
    pub fn new() -> (r: ActuationSink)
        ensures
            r.observed() == Seq::<Command>::empty(),
    {
        ActuationSink { forwarded: Vec::new() }
    }

    /// Forwards a batch: afterwards the sink shows exactly its commands, in
    /// their order, and nothing of any earlier batch.
    pub fn consume(&mut self, batch: &Vec<Command>)
        ensures
            final(self).observed() == batch@,
    {
        let mut forwarded: Vec<Command> = Vec::new();
        let mut i: usize = 0;
        while i < batch.len()
            invariant
                i <= batch.len(),
                forwarded@ == batch@.take(i as int),
            decreases batch.len() - i,
        {
            forwarded.push(batch[i]);
            assert(forwarded@ =~= batch@.take(i as int + 1));
            i += 1;
        }
        assert(batch@.take(i as int) =~= batch@);
        self.forwarded = forwarded;
    }

    /// Reads the number of commands the sink shows.
    pub fn len(&self) -> (r: usize)
        ensures
            r == self.observed().len(),
    {
        self.forwarded.len()
    }

    /// Reads the command at `index`, if the sink shows that many.
    pub fn get(&self, index: usize) -> (r: Option<Command>)
        ensures
            r == if index < self.observed().len() {
                Some(self.observed()[index as int])
            } else {
                None
            },
    {
        if index < self.forwarded.len() {
            Some(self.forwarded[index])
        } else {
            None
        }
    }
}

} // verus!
