use vstd::prelude::*;

use crate::failure::server_log_text;
use crate::message::{views, Message, MessageView};
use crate::protocol::HandlerOutcome;
use crate::store::{lemma_newest_push, newest, MessageStore};

verus! {

/// What a scan found of one outstanding handler task.
pub enum TaskPoll<H> {
    /// The task has not completed: it stays outstanding.
    Running(H),
    /// The task has completed with this outcome.
    Finished(HandlerOutcome),
}

/// The tasks of `ps` that are still running, in scan order.
pub open spec fn still_running<H>(ps: Seq<TaskPoll<H>>) -> Seq<H>
    decreases ps.len(),
{
    if ps.len() == 0 {
        Seq::empty()
    } else {
        still_running(ps.drop_last()) + match ps.last() {
            TaskPoll::Running(h) => seq![h],
            TaskPoll::Finished(_) => Seq::empty(),
        }
    }
}

/// The messages that the finished tasks of `ps` brought, in scan order.
pub open spec fn arrived<H>(ps: Seq<TaskPoll<H>>) -> Seq<MessageView>
    decreases ps.len(),
{
    if ps.len() == 0 {
        Seq::empty()
    } else {
        arrived(ps.drop_last()) + match ps.last() {
            TaskPoll::Finished(HandlerOutcome::Message(m)) => seq![m@],
            _ => Seq::empty(),
        }
    }
}

/// The log lines for the finished tasks of `ps` that failed, in scan order.
pub open spec fn failure_log<H>(ps: Seq<TaskPoll<H>>) -> Seq<Seq<char>>
    decreases ps.len(),
{
    if ps.len() == 0 {
        Seq::empty()
    } else {
        failure_log(ps.drop_last()) + match ps.last() {
            TaskPoll::Finished(HandlerOutcome::Error(f)) => seq![server_log_text(f.kind, f.detail@)],
            _ => Seq::empty(),
        }
    }
}

/// The listener's state: the message store and the outstanding handler tasks,
/// oldest first. Both are owned by the single thread that accepts connections.
pub struct TaskTracker<H> {
    store: MessageStore,
    pending: Vec<H>,
}

impl<H> TaskTracker<H> {
    /// The stored messages, oldest first.
    pub closed spec fn stored(&self) -> Seq<MessageView> {
        self.store@
    }

    /// The outstanding tasks, in dispatch order.
    pub closed spec fn tasks(&self) -> Seq<H> {
        self.pending@
    }

    /// The store is within its capacity.
    pub closed spec fn wf(&self) -> bool {
        self.store.wf()
    }

    /// Creates a tracker with an empty store and no outstanding task.
    pub fn new() -> (r: TaskTracker<H>)
        ensures
            r.wf(),
            r.stored() == Seq::<MessageView>::empty(),
            r.tasks() == Seq::<H>::empty(),
    {
        TaskTracker { store: MessageStore::new(), pending: Vec::new() }
    }

    /// Hands out every outstanding task, in dispatch order, to be polled.
    pub fn take_pending(&mut self) -> (r: Vec<H>)
        requires
            old(self).wf(),
        ensures
            final(self).wf(),
            r@ == old(self).tasks(),
            final(self).tasks() == Seq::<H>::empty(),
            final(self).stored() == old(self).stored(),
    {
        let mut r: Vec<H> = Vec::new();
        std::mem::swap(&mut r, &mut self.pending);
        r
    }

    /// Retires the finished tasks of one scan, in scan order: a message is appended
    /// to the store (the oldest are evicted beyond the capacity), a failure is
    /// turned into the returned log line, and every other outcome is discarded.
    /// Tasks still running stay outstanding, in order, for the next scan.
    pub fn reap(&mut self, polled: Vec<TaskPoll<H>>) -> (logs: Vec<String>)
        requires
            old(self).wf(),
        ensures
            final(self).wf(),
            final(self).tasks() == old(self).tasks() + still_running(polled@),
            final(self).stored() == newest(old(self).stored() + arrived(polled@)),
            logs@.map_values(|l: String| l@) == failure_log(polled@),
    {
        let ghost all = polled@;
        let ghost store0 = self.store@;
        let ghost tasks0 = self.pending@;
        let mut logs: Vec<String> = Vec::new();
        for p in it: polled
            invariant
                it.seq() == all,
                self.store.wf(),
                self.pending@ == tasks0 + still_running(all.subrange(0, it.index() as int)),
                self.store@ == newest(store0 + arrived(all.subrange(0, it.index() as int))),
                logs@.map_values(|l: String| l@) == failure_log(all.subrange(0, it.index() as int)),
        {
            let ghost k = it.index() as int;
            let ghost before = all.subrange(0, k);
            let ghost after = all.subrange(0, k + 1);
            let ghost store_before = self.store@;
            let ghost logs_before = logs@;
            proof {
                assert(after.drop_last() =~= before);
                assert(after.last() == p);
            }
            match p {
                TaskPoll::Running(h) => {
                    self.pending.push(h);
                    assert(self.pending@ =~= tasks0 + still_running(after));
                    assert(arrived(after) =~= arrived(before));
                    assert(failure_log(after) =~= failure_log(before));
                },
                TaskPoll::Finished(outcome) => {
                    assert(still_running(after) =~= still_running(before));
                    match outcome {
                        HandlerOutcome::Message(m) => {
                            let ghost mv = m@;
                            self.store.append(m);
                            proof {
                                lemma_newest_push(store0 + arrived(before), mv);
                                assert((store0 + arrived(before)).push(mv) =~= store0 + arrived(
                                    after,
                                ));
                            }
                            assert(failure_log(after) =~= failure_log(before));
                        },
                        HandlerOutcome::Error(f) => {
                            let line = f.server_log_message();
                            logs.push(line);
                            assert(logs@.map_values(|l: String| l@) =~= failure_log(after));
                            assert(arrived(after) =~= arrived(before));
                        },
                        _ => {
                            assert(arrived(after) =~= arrived(before));
                            assert(failure_log(after) =~= failure_log(before));
                        },
                    }
                },
            }
        }
        proof {
            assert(all.subrange(0, all.len() as int) =~= all);
        }
        logs
    }

    /// Returns an independent copy of the stored messages, oldest first, for the
    /// handler task about to be dispatched.
    pub fn snapshot(&self) -> (r: Vec<Message>)
        ensures
            views(r@) == self.stored(),
    {
        self.store.snapshot()
    }

    /// Starts tracking a newly dispatched handler task.
    pub fn track(&mut self, task: H)
        requires
            old(self).wf(),
        ensures
            final(self).wf(),
            final(self).tasks() == old(self).tasks().push(task),
            final(self).stored() == old(self).stored(),
    {
        self.pending.push(task);
    }
}

} // verus!
