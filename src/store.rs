use vstd::prelude::*;

use crate::message::{views, Message, MessageView};

verus! {

/// The most messages the store keeps.
pub const CAPACITY: usize = 100;

/// The newest `CAPACITY` entries of `s`, in their order: what is left once the
/// oldest entries beyond the capacity have been removed from the front.
pub open spec fn newest(s: Seq<MessageView>) -> Seq<MessageView> {
    if s.len() > CAPACITY {
        s.subrange(s.len() - CAPACITY, s.len() as int)
    } else {
        s
    }
}

/// What a store holding `s` holds after appending each of `ms` in turn.
pub open spec fn after_inserts(s: Seq<MessageView>, ms: Seq<MessageView>) -> Seq<MessageView>
    decreases ms.len(),
{
    if ms.len() == 0 {
        s
    } else {
        newest(after_inserts(s, ms.drop_last()).push(ms.last()))
    }
}

/// The accepted messages, oldest first, at most `CAPACITY` of them.
pub struct MessageStore {
    messages: Vec<Message>,
}

impl View for MessageStore {
    type V = Seq<MessageView>;

    closed spec fn view(&self) -> Seq<MessageView> {
        views(self.messages@)
    }
}

impl MessageStore {
    /// The store holds no more than its capacity.
    pub open spec fn wf(&self) -> bool {
        self@.len() <= CAPACITY
    }

    /// Creates an empty store.
    pub fn new() -> (r: MessageStore)
        ensures
            r.wf(),
            r@ == Seq::<MessageView>::empty(),
    {
        let r = MessageStore { messages: Vec::new() };
        assert(r@ =~= Seq::<MessageView>::empty());
        r
    }

    /// The number of stored messages.
    pub fn len(&self) -> (r: usize)
        ensures
            r == self@.len(),
    {
        self.messages.len()
    }

    /// Removes messages from the front while there are more than `CAPACITY`.
    pub fn evict_overflow(&mut self)
        ensures
            final(self)@ == newest(old(self)@),
            final(self).wf(),
    {
        let ghost start = self@;
        while self.messages.len() > CAPACITY
            invariant
                start.len() >= self@.len(),
                self@ == start.subrange(start.len() - self@.len(), start.len() as int),
                start.len() > CAPACITY ==> self@.len() >= CAPACITY,
                start.len() <= CAPACITY ==> self@ == start,
            decreases self.messages@.len(),
        {
            let ghost before = self.messages@;
            self.messages.remove(0);
            assert(self.messages@ =~= before.subrange(1, before.len() as int));
            assert(self@ =~= views(before).subrange(1, before.len() as int));
            assert(self@ =~= start.subrange(start.len() - self@.len(), start.len() as int));
        }
        assert(self@ =~= newest(start));
    }

    /// Appends a message, evicting the oldest ones beyond the capacity.
    pub fn append(&mut self, m: Message)
        requires
            old(self).wf(),
        ensures
            final(self).wf(),
            final(self)@ == newest(old(self)@.push(m@)),
    {
        let ghost before = self@;
        self.messages.push(m);
        assert(self@ =~= before.push(m@));
        self.evict_overflow();
    }

    /// Returns an independent copy of the stored messages, oldest first.
    pub fn snapshot(&self) -> (r: Vec<Message>)
        ensures
            views(r@) == self@,
    {
        let mut r: Vec<Message> = Vec::new();
        let mut i: usize = 0;
        while i < self.messages.len()
            invariant
                i <= self.messages@.len(),
                views(r@) == views(self.messages@.subrange(0, i as int)),
            decreases self.messages@.len() - i,
        {
            let ghost prev = r@;
            let copy = self.messages[i].duplicate();
            r.push(copy);
            assert(r@ =~= prev.push(copy));
            assert(views(r@) =~= views(prev).push(self.messages@[i as int]@));
            assert(views(r@) =~= views(self.messages@.subrange(0, i + 1)));
            i = i + 1;
        }
        assert(self.messages@.subrange(0, i as int) =~= self.messages@);
        r
    }
}

/// Appending to a store trimmed to its newest entries is the same as trimming
/// after appending to the untrimmed sequence.
pub proof fn lemma_newest_push(s: Seq<MessageView>, m: MessageView)
    ensures
        newest(newest(s).push(m)) == newest(s.push(m)),
{
    if s.len() > CAPACITY {
        assert(newest(newest(s).push(m)) =~= newest(s.push(m)));
    }
}

/// However many messages are appended, and in whatever order, a store never holds
/// more than `CAPACITY` of them, and what it holds is exactly the newest of all
/// that it was given, in arrival order: eviction always removes the oldest first.
pub proof fn lemma_store_keeps_newest(s: Seq<MessageView>, ms: Seq<MessageView>)
    requires
        s.len() <= CAPACITY,
    ensures
        after_inserts(s, ms).len() <= CAPACITY,
        after_inserts(s, ms) == newest(s + ms),
    decreases ms.len(),
{
    if ms.len() > 0 {
        lemma_store_keeps_newest(s, ms.drop_last());
        lemma_newest_push(s + ms.drop_last(), ms.last());
        assert((s + ms.drop_last()).push(ms.last()) =~= s + ms);
    } else {
        assert(s + ms =~= s);
    }
}

} // verus!
