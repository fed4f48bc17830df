use vstd::prelude::*;
use crate::message::OutputMessage;

verus! {

/// The single bounded conduit between the two relays and the aggregator.
/// Lines leave in the order they were enqueued; a producer that finds the
/// channel full is refused and must try again once the consumer has made
/// room, which is the pipeline's backpressure point.
pub struct OutputChannel {
    queue: Vec<OutputMessage>,
    bound: usize,
}

impl OutputChannel {
    /// The queued lines, oldest first.
    pub closed spec fn contents(&self) -> Seq<Seq<char>> {
        self.queue@.map_values(|m: OutputMessage| m@)
    }

    /// The fixed capacity the channel was created with.
    pub closed spec fn cap(&self) -> nat {
        self.bound as nat
    }

    /// Well-formedness: the capacity is positive and never exceeded.
    pub open spec fn inv(&self) -> bool {
        self.cap() >= 1 && self.contents().len() <= self.cap()
    }

    pub fn new(capacity: usize) -> (channel: OutputChannel)
        requires
            capacity >= 1,
        ensures
            channel.inv(),
            channel.contents() == Seq::<Seq<char>>::empty(),
            channel.cap() == capacity as nat,
    {
        let channel = OutputChannel { queue: Vec::new(), bound: capacity };
        proof {
            assert(channel.contents() =~= Seq::<Seq<char>>::empty());
        }
        channel
    }

    pub fn capacity(&self) -> (n: usize)
        ensures
            n as nat == self.cap(),
    {
        self.bound
    }

    pub fn len(&self) -> (n: usize)
        ensures
            n as nat == self.contents().len(),
    {
        self.queue.len()
    }

    /// Offers one line. It is enqueued at the back while there is room;
    /// against a full channel the line comes back unchanged and nothing
    /// moves, so an outpacing producer stalls instead of buffering.
    pub fn try_send(&mut self, message: OutputMessage) -> (r: Result<(), OutputMessage>)
        requires
            old(self).inv(),
        ensures
            final(self).inv(),
            final(self).cap() == old(self).cap(),
            old(self).contents().len() < old(self).cap() ==> r is Ok && final(self).contents()
                == old(self).contents().push(message@),
            old(self).contents().len() >= old(self).cap() ==> r == Result::<(), OutputMessage>::Err(
                message,
            ) && final(self).contents() == old(self).contents(),
    {
        if self.queue.len() < self.bound {
            self.queue.push(message);
            proof {
                assert(self.contents() =~= old(self).contents().push(message@));
            }
            Ok(())
        } else {
            Err(message)
        }
    }

    /// Takes the oldest line, if any.
    pub fn recv(&mut self) -> (r: Option<OutputMessage>)
        requires
            old(self).inv(),
        ensures
            final(self).inv(),
            final(self).cap() == old(self).cap(),
            old(self).contents().len() == 0 ==> r is None && final(self).contents() == old(
                self,
            ).contents(),
            old(self).contents().len() > 0 ==> (r matches Some(m) && m@ == old(self).contents()[0]
                && final(self).contents() == old(self).contents().drop_first()),
    {
        if self.queue.len() == 0 {
            None
        } else {
            let message = self.queue.remove(0);
            proof {
                assert(self.contents() =~= old(self).contents().drop_first());
            }
            Some(message)
        }
    }
}

/// Backpressure bound: a well-formed channel never holds more lines than
/// the capacity it was created with, whatever the producers do.
pub proof fn lemma_channel_bounded(channel: &OutputChannel)
    requires
        channel.inv(),
    ensures
        channel.contents().len() <= channel.cap(),
{
}

} // verus!
