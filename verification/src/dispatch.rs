//! Dispatch Channel: an ordered hand-off queue carrying accepted interactions
//! from the endpoint to the worker pool. While the channel is open no
//! interaction is dropped or duplicated; a receive hands out the oldest
//! queued interaction and removes it.

use vstd::prelude::*;
use crate::interaction::Interaction;

verus! {

/// A first-in-first-out queue of accepted interactions. Its view is the
/// sequence of queued interactions, oldest first.
pub struct DispatchChannel {
    queue: Vec<Interaction>,
}

impl View for DispatchChannel {
    type V = Seq<Interaction>;

    closed spec fn view(&self) -> Seq<Interaction> {
        self.queue@
    }
}

impl DispatchChannel {
    /// An empty channel.
    pub fn new() -> (r: DispatchChannel)
        ensures
            r@ == Seq::<Interaction>::empty(),
    {
        DispatchChannel { queue: Vec::new() }
    }

    /// How many interactions are queued.
    pub fn len(&self) -> (r: usize)
        ensures
            r == self@.len(),
    {
        self.queue.len()
    }

    /// Enqueues one interaction; everything already queued stays, in order.
    pub fn send(&mut self, interaction: Interaction)
        ensures
            final(self)@ == old(self)@.push(interaction),
    {
        self.queue.push(interaction);
    }

    /// Takes the oldest queued interaction, removing it: what one receiver
    /// takes, no other receiver can see again.
    pub fn try_recv(&mut self) -> (r: Option<Interaction>)
        ensures
            old(self)@.len() == 0 ==> r is None && final(self)@ == old(self)@,
            old(self)@.len() > 0 ==> r == Some(old(self)@[0]) && final(self)@ == old(self)@.skip(
                1,
            ),
    {
        if self.queue.len() == 0 {
            None
        } else {
            let i = self.queue.remove(0);
            proof {
                assert(self.queue@ =~= old(self).queue@.skip(1));
            }
            Some(i)
        }
    }

    /// Empties the channel, handing out exactly the queued interactions: each
    /// one once, oldest first — none is dropped and none is duplicated.
    pub fn drain(&mut self) -> (r: Vec<Interaction>)
        ensures
            r@ == old(self)@,
            final(self)@ == Seq::<Interaction>::empty(),
    {
        let mut out: Vec<Interaction> = Vec::new();
        while self.len() > 0
            invariant
                out@ + self@ == old(self)@,
            decreases self@.len(),
        {
            let ghost prev = self@;
            let i = self.try_recv().unwrap();
            proof {
                assert(out@.push(i) + self@ =~= out@ + prev);
            }
            out.push(i);
        }
        proof {
            assert(self@ =~= Seq::<Interaction>::empty());
            assert(out@ + self@ =~= out@);
        }
        out
    }
}

/// Law: dispatch is exactly-once. Enqueueing an interaction on a channel
/// holding `queued` gives it out to the receivers exactly once more than
/// before: a full drain of the channel returns `queued.push(interaction)`,
/// in which `interaction` occurs exactly one more time than in `queued`,
/// and every other interaction exactly as often as before.
pub proof fn lemma_dispatch_exactly_once(queued: Seq<Interaction>, interaction: Interaction)
    ensures
        queued.push(interaction).to_multiset() == queued.to_multiset().insert(interaction),
        queued.push(interaction).to_multiset().count(interaction) == queued.to_multiset().count(
            interaction,
        ) + 1,
        forall|other: Interaction|
            other != interaction ==> queued.push(interaction).to_multiset().count(other)
                == queued.to_multiset().count(other),
{
    queued.to_multiset_ensures();
    assert(queued.push(interaction).to_multiset() =~= queued.to_multiset().insert(interaction));
}

} // verus!
