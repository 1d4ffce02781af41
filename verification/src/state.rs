//! The shared state of the bridge and its critical-section operations.
//!
//! One logically-atomic bundle holds the dispatch queue, the reply table,
//! the wake trigger and the two auxiliary lanes.  The caller serialises
//! access (one coarse lock around the whole bundle); each method here is the
//! body of one critical section, with a contract that pins down exactly how
//! the bundle changes.
//!
//! The wake trigger is modelled by an enqueue counter: every enqueue on the
//! dispatch queue raises it by one, and a waiter remembers the count it saw
//! when it was cloned.  A waiter cloned in the same critical section that
//! observed an empty queue therefore has a count strictly below the count
//! after any later enqueue — the no-lost-wakeup argument, proved in
//! [`lemma_no_lost_wakeup`].

use vstd::prelude::*;

use std::collections::VecDeque;
use tokio::sync::mpsc::UnboundedSender;
use tokio::sync::watch;

use crate::errors::BridgeError;
use crate::ids::CallId;
use crate::model::{
    InputCommand, InputPollResponse, RunCommandResponse, ServerCodeCommand, ServerCodePollResponse,
    ServerCodeResult, ToolArguments,
};

verus! {

/// What travels on a reply channel back to a waiting dispatcher call.
pub type CallResponse = Result<String, BridgeError>;

/// No identifier occurs twice.
pub open spec fn distinct_ids(s: Seq<CallId>) -> bool {
    forall|i: int, j: int| #![trigger s[i], s[j]] 0 <= i < j < s.len() ==> s[i] != s[j]
}

/// The envelope carries an identifier that the history records.
pub open spec fn envelope_recorded(cmd: ToolArguments, hist: Seq<CallId>) -> bool {
    cmd.id matches Some(id) && hist.contains(id)
}

/// Every envelope of `q` carries an identifier that `hist` records.
pub open spec fn queue_recorded(q: Seq<ToolArguments>, hist: Seq<CallId>) -> bool {
    forall|i: int| 0 <= i < q.len() ==> envelope_recorded(#[trigger] q[i], hist)
}

/// The identifiers of a reply table, in table order.
pub open spec fn ids_of<T>(s: Seq<(CallId, UnboundedSender<T>)>) -> Seq<CallId> {
    s.map_values(|p: (CallId, UnboundedSender<T>)| p.0)
}

/// Removes the entry registered under `id`, returning its send handle.
/// Leaves the table untouched when `id` is not registered.
fn remove_entry<T>(v: &mut Vec<(CallId, UnboundedSender<T>)>, id: CallId) -> (r: Option<
    UnboundedSender<T>,
>)
    requires
        distinct_ids(ids_of(old(v)@)),
    ensures
        distinct_ids(ids_of(final(v)@)),
        !ids_of(final(v)@).contains(id),
        match r {
            Some(tx) => exists|i: int|
                0 <= i < old(v)@.len() && old(v)@[i].0 == id && tx == old(v)@[i].1
                    && final(v)@ == old(v)@.remove(i),
            None => final(v)@ == old(v)@ && !ids_of(old(v)@).contains(id),
        },
{
    let mut i: usize = 0;
    while i < v.len()
        invariant
            i <= v@.len(),
            v@ == old(v)@,
            distinct_ids(ids_of(v@)),
            forall|j: int| 0 <= j < i ==> v@[j].0 != id,
        decreases v@.len() - i,
    {
        if v[i].0 == id {
            let (_, tx) = v.remove(i);
            proof {
                let pre = old(v)@;
                let idx = i as int;
                pre.remove_ensures(idx);
                ids_of(pre).remove_ensures(idx);
                assert(ids_of(pre)[idx] == id);
                assert(ids_of(v@) =~= ids_of(pre).remove(idx));
                assert forall|j: int| 0 <= j < ids_of(v@).len() implies ids_of(v@)[j]
                    != id by {
                    assert(ids_of(v@) == ids_of(pre).remove(idx));
                    if j < idx {
                        assert(ids_of(pre).remove(idx)[j] == ids_of(pre)[j]);
                        assert(pre[j].0 != id);
                        assert(ids_of(pre)[j] == pre[j].0);
                    } else {
                        assert(ids_of(pre).remove(idx)[j] == ids_of(pre)[j + 1]);
                        assert(ids_of(pre)[j + 1] != ids_of(pre)[idx]);
                    }
                }
                assert forall|j: int, k: int|
                    0 <= j < k < ids_of(v@).len() implies ids_of(v@)[j] != ids_of(v@)[k] by {
                    assert(ids_of(v@) == ids_of(pre).remove(idx));
                    let j2: int = if j < idx {
                        j
                    } else {
                        j + 1
                    };
                    let k2: int = if k < idx {
                        k
                    } else {
                        k + 1
                    };
                    assert(ids_of(pre).remove(idx)[j] == ids_of(pre)[j2]);
                    assert(ids_of(pre).remove(idx)[k] == ids_of(pre)[k2]);
                    assert(ids_of(pre)[j2] != ids_of(pre)[k2]);
                }
            }
            return Some(tx);
        }
        i += 1;
    }
    proof {
        assert forall|j: int| 0 <= j < ids_of(v@).len() implies ids_of(v@)[j] != id by {
            assert(ids_of(v@)[j] == v@[j].0);
        }
    }
    None
}


/// Whether `id` is registered in the table.
fn contains_entry<T>(v: &Vec<(CallId, UnboundedSender<T>)>, id: CallId) -> (r: bool)
    ensures
        r == ids_of(v@).contains(id),
{
    let mut i: usize = 0;
    while i < v.len()
        invariant
            i <= v@.len(),
            forall|j: int| 0 <= j < i ==> v@[j].0 != id,
        decreases v@.len() - i,
    {
        if v[i].0 == id {
            proof {
                assert(ids_of(v@)[i as int] == id);
            }
            return true;
        }
        i += 1;
    }
    proof {
        assert forall|j: int| 0 <= j < ids_of(v@).len() implies ids_of(v@)[j] != id by {
            assert(ids_of(v@)[j] == v@[j].0);
        }
    }
    false
}

/// A fresh identifier keeps a distinct table distinct.
proof fn lemma_distinct_push(s: Seq<CallId>, id: CallId)
    requires
        distinct_ids(s),
        !s.contains(id),
    ensures
        distinct_ids(s.push(id)),
{
    assert forall|a: int, b: int|
        0 <= a < b < s.push(id).len() implies s.push(id)[a] != s.push(id)[b] by {
        if b < s.len() {
            assert(s[a] != s[b]);
        } else {
            assert(s.push(id)[b] == id);
            if s[a] == id {
                assert(s.contains(id));
            }
        }
    }
}

/// What [`AppState::enqueue_call`] reports of one critical section.
pub enum EnqueueOutcome {
    /// The envelope was queued and its reply handle registered; the carried
    /// sender is a clone of the wake trigger, to be pulsed after release.
    Enqueued(watch::Sender<()>),
    /// The envelope's identifier already has a registered reply handle;
    /// nothing was changed.
    DuplicateId,
    /// The envelope carries no identifier; nothing was changed.
    MissingId,
}

/// What [`AppState::deliver_reply`] reports.
#[derive(Clone, Copy, Debug, PartialEq, Eq, Structural)]
pub enum DeliverOutcome {
    /// The reply was sent to the waiting caller.
    Delivered,
    /// The identifier was registered but the waiting caller has gone away.
    ChannelClosed,
    /// The identifier has no registered reply handle; nothing was changed.
    UnknownId,
}


/// What [`AppState::deliver_code_result`] reports.
#[derive(Clone, Copy, Debug, PartialEq, Eq, Structural)]
pub enum CodeDeliverOutcome {
    /// The result was sent to the waiting caller.
    Delivered,
    /// The identifier was registered but the waiting caller has gone away.
    ReceiverGone,
    /// The identifier has no registered handle; nothing was changed.
    UnknownId,
}

/// The dispatch side of the bundle — queue, reply table, enqueue count and
/// history — is untouched.
pub open spec fn dispatch_unchanged(pre: AppState, post: AppState) -> bool {
    &&& post.queue() == pre.queue()
    &&& post.replies() == pre.replies()
    &&& post.epoch() == pre.epoch()
    &&& post.enqueue_history() == pre.enqueue_history()
}

/// One input command went to the back of the input queue; nothing else
/// changed.
pub open spec fn input_pushed(pre: AppState, cmd: InputCommand, post: AppState) -> bool {
    &&& post.input_queue() == pre.input_queue().push(cmd)
    &&& dispatch_unchanged(pre, post)
    &&& post.code_queue() == pre.code_queue()
    &&& post.code_replies() == pre.code_replies()
}

/// The input queue was emptied; nothing else changed.
pub open spec fn input_drained(pre: AppState, post: AppState) -> bool {
    &&& post.input_queue().len() == 0
    &&& dispatch_unchanged(pre, post)
    &&& post.code_queue() == pre.code_queue()
    &&& post.code_replies() == pre.code_replies()
}

/// One server-code command was queued and its result handle registered;
/// nothing else changed.
pub open spec fn code_enqueued(
    pre: AppState,
    cmd: ServerCodeCommand,
    tx: UnboundedSender<ServerCodeResult>,
    post: AppState,
) -> bool {
    &&& !pre.has_code_pending(cmd.id)
    &&& post.has_code_pending(cmd.id)
    &&& post.code_queue() == pre.code_queue().push(cmd)
    &&& post.code_replies() == pre.code_replies().push((cmd.id, tx))
    &&& dispatch_unchanged(pre, post)
    &&& post.input_queue() == pre.input_queue()
}

/// The server-code queue was emptied; nothing else changed.
pub open spec fn code_drained(pre: AppState, post: AppState) -> bool {
    &&& post.code_queue().len() == 0
    &&& dispatch_unchanged(pre, post)
    &&& post.input_queue() == pre.input_queue()
    &&& post.code_replies() == pre.code_replies()
}

/// The server-code result handle registered under `id` was removed — and
/// only it.
pub open spec fn code_reply_removed(pre: AppState, id: CallId, post: AppState) -> bool {
    &&& exists|i: int|
        0 <= i < pre.code_replies().len() && pre.code_replies()[i].0 == id && post.code_replies()
            == pre.code_replies().remove(i)
    &&& !post.has_code_pending(id)
    &&& dispatch_unchanged(pre, post)
    &&& post.input_queue() == pre.input_queue()
    &&& post.code_queue() == pre.code_queue()
}

/// One tool call was enqueued: the envelope went to the back of the queue,
/// its reply handle was registered, the enqueue count rose by one, and
/// nothing else changed.
pub open spec fn call_enqueued(
    pre: AppState,
    cmd: ToolArguments,
    tx: UnboundedSender<CallResponse>,
    post: AppState,
) -> bool {
    &&& cmd.id is Some
    &&& !pre.has_pending(cmd.id->0)
    &&& post.has_pending(cmd.id->0)
    &&& post.queue() == pre.queue().push(cmd)
    &&& post.replies() == pre.replies().push((cmd.id->0, tx))
    &&& post.epoch() == pre.epoch() + 1
    &&& post.enqueue_history() == pre.enqueue_history().push(cmd.id->0)
    &&& lanes_unchanged(pre, post)
}

/// The head envelope left the queue; everything else is as before.
pub open spec fn request_popped(pre: AppState, cmd: ToolArguments, post: AppState) -> bool {
    &&& pre.queue().len() > 0
    &&& cmd == pre.queue()[0]
    &&& post.queue() == pre.queue().subrange(1, pre.queue().len() as int)
    &&& post.replies() == pre.replies()
    &&& post.epoch() == pre.epoch()
    &&& post.enqueue_history() == pre.enqueue_history()
    &&& lanes_unchanged(pre, post)
}

/// The reply handle registered under `id` was removed — and only it; the
/// queue, the enqueue count and the auxiliary lanes are as before.
pub open spec fn reply_removed(pre: AppState, id: CallId, post: AppState) -> bool {
    &&& exists|i: int|
        0 <= i < pre.replies().len() && pre.replies()[i].0 == id && post.replies() == pre.replies()
            .remove(i)
    &&& !post.has_pending(id)
    &&& post.queue() == pre.queue()
    &&& post.epoch() == pre.epoch()
    &&& post.enqueue_history() == pre.enqueue_history()
    &&& lanes_unchanged(pre, post)
}

/// `tx` is the send handle that `pre` had registered under `id`.
pub open spec fn registered_sender(
    pre: AppState,
    id: CallId,
    tx: UnboundedSender<CallResponse>,
) -> bool {
    exists|i: int|
        0 <= i < pre.replies().len() && pre.replies()[i].0 == id && tx == pre.replies()[i].1
}

/// The auxiliary lanes are untouched.
pub open spec fn lanes_unchanged(pre: AppState, post: AppState) -> bool {
    &&& post.input_queue() == pre.input_queue()
    &&& post.code_queue() == pre.code_queue()
    &&& post.code_replies() == pre.code_replies()
}

/// Nothing observable about the bundle changed.
pub open spec fn state_unchanged(pre: AppState, post: AppState) -> bool {
    &&& post.queue() == pre.queue()
    &&& post.replies() == pre.replies()
    &&& post.epoch() == pre.epoch()
    &&& post.enqueue_history() == pre.enqueue_history()
    &&& lanes_unchanged(pre, post)
}

/// The shared state bundle.  All synchronisation is owned by the caller; the
/// methods only describe what one acquisition does.
pub struct AppState {
    process_queue: VecDeque<ToolArguments>,
    output_map: Vec<(CallId, UnboundedSender<CallResponse>)>,
    trigger: watch::Sender<()>,
    waiter: watch::Receiver<()>,
    input_command_queue: VecDeque<InputCommand>,
    server_code_queue: VecDeque<ServerCodeCommand>,
    server_code_results: Vec<(CallId, UnboundedSender<ServerCodeResult>)>,
    enqueues: Ghost<nat>,
    enqueued_ids: Ghost<Seq<CallId>>,
}

/// A cloned receiver of the wake trigger, together with the enqueue count at
/// the moment it was cloned.
pub struct WakeWaiter {
    pub receiver: watch::Receiver<()>,
    pub seen: Ghost<nat>,
}

impl AppState {
    /// The dispatch queue, oldest envelope first.
    pub closed spec fn queue(&self) -> Seq<ToolArguments> {
        self.process_queue@
    }

    /// The reply table: which send handle answers which identifier.
    pub closed spec fn replies(&self) -> Seq<(CallId, UnboundedSender<CallResponse>)> {
        self.output_map@
    }

    /// The identifiers with a registered reply handle.
    pub open spec fn reply_ids(&self) -> Seq<CallId> {
        ids_of(self.replies())
    }

    /// Whether `id` has a registered reply handle.
    pub open spec fn has_pending(&self, id: CallId) -> bool {
        self.reply_ids().contains(id)
    }

    /// The auxiliary input-command queue, oldest first.
    pub closed spec fn input_queue(&self) -> Seq<InputCommand> {
        self.input_command_queue@
    }

    /// The server-code command queue, oldest first.
    pub closed spec fn code_queue(&self) -> Seq<ServerCodeCommand> {
        self.server_code_queue@
    }

    /// The reply table of the server-code lane.
    pub closed spec fn code_replies(&self) -> Seq<(CallId, UnboundedSender<ServerCodeResult>)> {
        self.server_code_results@
    }

    /// The identifiers with a registered server-code reply handle.
    pub open spec fn code_reply_ids(&self) -> Seq<CallId> {
        ids_of(self.code_replies())
    }

    /// Whether `id` has a registered server-code reply handle.
    pub open spec fn has_code_pending(&self, id: CallId) -> bool {
        self.code_reply_ids().contains(id)
    }

    /// How many envelopes have ever been enqueued on the dispatch queue;
    /// the model of the wake trigger, which is pulsed once per enqueue.
    pub closed spec fn epoch(&self) -> nat {
        self.enqueues@
    }

    /// Every identifier ever enqueued on the dispatch queue, in order.
    pub closed spec fn enqueue_history(&self) -> Seq<CallId> {
        self.enqueued_ids@
    }

    /// Well-formedness: identifiers in the reply tables are distinct, and
    /// every queued envelope carries an identifier that was enqueued.
    pub open spec fn wf(&self) -> bool {
        &&& distinct_ids(self.reply_ids())
        &&& distinct_ids(self.code_reply_ids())
        &&& queue_recorded(self.queue(), self.enqueue_history())
    }

    /// A fresh, empty state bundle with a connected wake trigger.
    pub fn new() -> (r: AppState)
        ensures
            r.wf(),
            r.queue().len() == 0,
            r.replies().len() == 0,
            r.input_queue().len() == 0,
            r.code_queue().len() == 0,
            r.code_replies().len() == 0,
            r.epoch() == 0,
            r.enqueue_history().len() == 0,
    {
        let (trigger, waiter) = watch::channel(());
        AppState {
            process_queue: VecDeque::new(),
            output_map: Vec::new(),
            trigger,
            waiter,
            input_command_queue: VecDeque::new(),
            server_code_queue: VecDeque::new(),
            server_code_results: Vec::new(),
            enqueues: Ghost(0),
            enqueued_ids: Ghost(Seq::empty()),
        }
    }

    /// Index of `id` in the reply table, if any.
    fn find_reply(&self, id: CallId) -> (r: Option<usize>)
        ensures
            match r {
                Some(i) => i < self.replies().len() && self.replies()[i as int].0 == id,
                None => !self.has_pending(id),
            },
    {
        let mut i: usize = 0;
        while i < self.output_map.len()
            invariant
                i <= self.replies().len(),
                forall|j: int| 0 <= j < i ==> self.replies()[j].0 != id,
            decreases self.replies().len() - i,
        {
            if self.output_map[i].0 == id {
                return Some(i);
            }
            i += 1;
        }
        assert(forall|j: int|
            0 <= j < self.reply_ids().len() ==> self.reply_ids()[j] != id);
        None
    }

    /// Whether `id` has a registered reply handle.
    pub fn is_pending(&self, id: CallId) -> (r: bool)
        ensures
            r == self.has_pending(id),
    {
        match self.find_reply(id) {
            Some(_) => {
                assert(self.has_pending(id)) by {
                    let i = choose|i: int|
                        0 <= i < self.replies().len() && self.replies()[i].0 == id;
                    assert(self.reply_ids()[i] == id);
                }
                true
            },
            None => false,
        }
    }

    /// One critical section of the dispatcher: push the envelope to the back
    /// of the queue, register the reply handle under its identifier, and
    /// hand back a clone of the wake trigger so the caller can pulse it
    /// after releasing the lock.  An envelope without an identifier, or with
    /// an identifier that is already pending, is rejected with the state
    /// untouched.
    pub fn enqueue_call(&mut self, cmd: ToolArguments, tx: UnboundedSender<CallResponse>) -> (r:
        EnqueueOutcome)
        requires
            old(self).wf(),
        ensures
            final(self).wf(),
            cmd.id is None ==> r is MissingId && state_unchanged(*old(self), *final(self)),
            cmd.id matches Some(id) ==> {
                if old(self).has_pending(id) {
                    r is DuplicateId && state_unchanged(*old(self), *final(self))
                } else {
                    r is Enqueued && call_enqueued(*old(self), cmd, tx, *final(self))
                }
            },
    {
        let id = match cmd.id {
            None => { return EnqueueOutcome::MissingId },
            Some(id) => id,
        };
        if self.is_pending(id) {
            return EnqueueOutcome::DuplicateId;
        }
        self.process_queue.push_back(cmd);
        self.output_map.push((id, tx));
        self.enqueues = Ghost(self.enqueues@ + 1);
        self.enqueued_ids = Ghost(self.enqueued_ids@.push(id));
        proof {
            let pre = *old(self);
            assert(self.reply_ids() =~= pre.reply_ids().push(id));
            assert(self.reply_ids()[pre.reply_ids().len() as int] == id);
            assert forall|a: int, b: int|
                0 <= a < b < self.reply_ids().len() implies self.reply_ids()[a]
                != self.reply_ids()[b] by {
                if b < pre.reply_ids().len() {
                    assert(pre.reply_ids()[a] != pre.reply_ids()[b]);
                } else {
                    assert(self.reply_ids()[b] == id);
                    if pre.reply_ids()[a] == id {
                        assert(pre.has_pending(id));
                    }
                }
            }
            assert forall|i: int|
                0 <= i < self.queue().len() implies envelope_recorded(
                #[trigger] self.queue()[i],
                self.enqueue_history(),
            ) by {
                if i < pre.queue().len() {
                    assert(envelope_recorded(pre.queue()[i], pre.enqueue_history()));
                    let k = choose|k: int|
                        0 <= k < pre.enqueue_history().len() && pre.enqueue_history()[k]
                            == pre.queue()[i].id->0;
                    assert(self.enqueue_history()[k] == pre.queue()[i].id->0);
                } else {
                    assert(self.queue()[i] == cmd);
                    assert(self.enqueue_history()[pre.enqueue_history().len() as int] == id);
                }
            }
            assert(queue_recorded(self.queue(), self.enqueue_history()));
        }
        EnqueueOutcome::Enqueued(self.trigger.clone())
    }

    /// Long-poll step: take the head envelope if there is one.  An empty
    /// queue leaves the state untouched — the caller then awaits the wake
    /// trigger with a waiter cloned in this same critical section.
    pub fn poll_request(&mut self) -> (r: Option<ToolArguments>)
        requires
            old(self).wf(),
        ensures
            final(self).wf(),
            old(self).queue().len() == 0 ==> r is None && state_unchanged(*old(self), *final(self)),
            old(self).queue().len() > 0 ==> (r matches Some(cmd) && request_popped(
                *old(self),
                cmd,
                *final(self),
            )),
            r matches Some(cmd) ==> envelope_recorded(cmd, old(self).enqueue_history()),
    {
        if self.process_queue.len() == 0 {
            return None;
        }
        let cmd = match self.process_queue.pop_front() {
            Some(cmd) => cmd,
            None => { return None },
        };
        proof {
            assert(envelope_recorded(old(self).queue()[0], old(self).enqueue_history()));
        }
        Some(cmd)
    }

    /// A clone of the wake trigger's receiving side, remembering the
    /// enqueue count at the moment of the clone.  Cloned while still holding
    /// the lock that observed an empty queue, it is the consumer's guarantee
    /// against lost wakeups (see [`lemma_no_lost_wakeup`]).
    pub fn clone_waiter(&self) -> (r: WakeWaiter)
        ensures
            r.seen@ == self.epoch(),
    {
        WakeWaiter { receiver: self.waiter.clone(), seen: Ghost(self.enqueues@) }
    }

    /// Removes and returns the reply handle registered under `id`, if any.
    /// Used by the reply-ingest path and by the forwarder when the primary's
    /// answer comes back.
    pub fn route_reply(&mut self, id: CallId) -> (r: Option<UnboundedSender<CallResponse>>)
        requires
            old(self).wf(),
        ensures
            final(self).wf(),
            !old(self).has_pending(id) ==> r is None && state_unchanged(*old(self), *final(self)),
            old(self).has_pending(id) ==> (r matches Some(tx) && reply_removed(
                *old(self),
                id,
                *final(self),
            ) && registered_sender(*old(self), id, tx)),
    {
        proof {
            if old(self).has_pending(id) {
                let i = choose|i: int|
                    0 <= i < old(self).reply_ids().len() && old(self).reply_ids()[i] == id;
                assert(old(self).replies()[i].0 == id);
            }
        }
        let r = remove_entry(&mut self.output_map, id);
        proof {
            if !old(self).has_pending(id) {
                match &r {
                    Some(tx) => {
                        let i = choose|i: int|
                            0 <= i < old(self).replies().len() && old(self).replies()[i].0 == id
                                && *tx == old(self).replies()[i].1
                                && self.replies() == old(self).replies().remove(i);
                        assert(old(self).reply_ids()[i] == id);
                    },
                    None => {},
                }
            }
        }
        r
    }

    /// Removes the reply handle for `id` if it is still registered; the
    /// cleanup every dispatcher failure path runs before returning, so no
    /// call can leak a reply-table entry.
    pub fn finish_call(&mut self, id: CallId)
        requires
            old(self).wf(),
        ensures
            final(self).wf(),
            !final(self).has_pending(id),
            old(self).has_pending(id) ==> reply_removed(*old(self), id, *final(self)),
            !old(self).has_pending(id) ==> state_unchanged(*old(self), *final(self)),
    {
        let _ = self.route_reply(id);
    }

    /// Reply-ingest: look the identifier up, remove its handle, and send the
    /// response string — verbatim — to the waiting caller.  An unknown
    /// identifier changes nothing and is reported as such.
    pub fn deliver_reply(&mut self, payload: RunCommandResponse) -> (r: DeliverOutcome)
        requires
            old(self).wf(),
        ensures
            final(self).wf(),
            !old(self).has_pending(payload.id) ==> r == DeliverOutcome::UnknownId
                && state_unchanged(*old(self), *final(self)),
            old(self).has_pending(payload.id) ==> r != DeliverOutcome::UnknownId && reply_removed(
                *old(self),
                payload.id,
                *final(self),
            ),
    {
        match self.route_reply(payload.id) {
            None => DeliverOutcome::UnknownId,
            Some(tx) => match tx.send(Ok(payload.response)) {
                Ok(_) => DeliverOutcome::Delivered,
                Err(_) => DeliverOutcome::ChannelClosed,
            },
        }
    }

    /// Input-lane ingest: append one fire-and-forget command.
    pub fn push_input(&mut self, cmd: InputCommand)
        requires
            old(self).wf(),
        ensures
            final(self).wf(),
            input_pushed(*old(self), cmd, *final(self)),
    {
        self.input_command_queue.push_back(cmd);
    }

    /// Input-lane poll: hand out every pending command, oldest first, and
    /// leave the lane empty.
    pub fn poll_input(&mut self) -> (r: InputPollResponse)
        requires
            old(self).wf(),
        ensures
            final(self).wf(),
            input_drained(*old(self), *final(self)),
            r.commands@ == old(self).input_queue(),
            r.count == r.commands@.len(),
    {
        let mut commands: Vec<InputCommand> = Vec::new();
        proof {
            assert(commands@ + self.input_command_queue@ =~= old(self).input_queue());
        }
        while self.input_command_queue.len() > 0
            invariant
                commands@ + self.input_command_queue@ == old(self).input_queue(),
                self.process_queue@ == old(self).process_queue@,
                self.output_map@ == old(self).output_map@,
                self.enqueues@ == old(self).enqueues@,
                self.enqueued_ids@ == old(self).enqueued_ids@,
                self.server_code_queue@ == old(self).server_code_queue@,
                self.server_code_results@ == old(self).server_code_results@,
            decreases self.input_command_queue@.len(),
        {
            let ghost pre_commands = commands@;
            let ghost pre_queue = self.input_command_queue@;
            match self.input_command_queue.pop_front() {
                Some(cmd) => {
                    commands.push(cmd);
                    proof {
                        assert(commands@ + self.input_command_queue@ =~= pre_commands
                            + pre_queue);
                    }
                },
                None => {},
            }
        }
        proof {
            assert(commands@ =~= old(self).input_queue());
        }
        let count = commands.len();
        InputPollResponse { commands, count }
    }

    /// Server-code ingest: queue the command and register its result handle.
    /// Rejected, with the state untouched, when the identifier already has a
    /// registered handle.
    pub fn enqueue_server_code(
        &mut self,
        cmd: ServerCodeCommand,
        tx: UnboundedSender<ServerCodeResult>,
    ) -> (r: bool)
        requires
            old(self).wf(),
        ensures
            final(self).wf(),
            !r ==> old(self).has_code_pending(cmd.id) && state_unchanged(
                *old(self),
                *final(self),
            ),
            r ==> code_enqueued(*old(self), cmd, tx, *final(self)),
    {
        if contains_entry(&self.server_code_results, cmd.id) {
            return false;
        }
        let ghost id = cmd.id;
        let cid = cmd.id;
        self.server_code_queue.push_back(cmd);
        self.server_code_results.push((cid, tx));
        proof {
            let pre = *old(self);
            assert(self.code_reply_ids() =~= pre.code_reply_ids().push(id));
            assert(self.code_reply_ids()[pre.code_reply_ids().len() as int] == id);
            lemma_distinct_push(pre.code_reply_ids(), id);
        }
        true
    }

    /// Server-code poll: hand out every pending command, oldest first, and
    /// leave the lane empty.
    pub fn poll_server_code(&mut self) -> (r: ServerCodePollResponse)
        requires
            old(self).wf(),
        ensures
            final(self).wf(),
            code_drained(*old(self), *final(self)),
            r.commands@ == old(self).code_queue(),
            r.count == r.commands@.len(),
    {
        let mut commands: Vec<ServerCodeCommand> = Vec::new();
        proof {
            assert(commands@ + self.server_code_queue@ =~= old(self).code_queue());
        }
        while self.server_code_queue.len() > 0
            invariant
                commands@ + self.server_code_queue@ == old(self).code_queue(),
                self.process_queue@ == old(self).process_queue@,
                self.output_map@ == old(self).output_map@,
                self.enqueues@ == old(self).enqueues@,
                self.enqueued_ids@ == old(self).enqueued_ids@,
                self.input_command_queue@ == old(self).input_command_queue@,
                self.server_code_results@ == old(self).server_code_results@,
            decreases self.server_code_queue@.len(),
        {
            let ghost pre_commands = commands@;
            let ghost pre_queue = self.server_code_queue@;
            match self.server_code_queue.pop_front() {
                Some(cmd) => {
                    commands.push(cmd);
                    proof {
                        assert(commands@ + self.server_code_queue@ =~= pre_commands
                            + pre_queue);
                    }
                },
                None => {},
            }
        }
        proof {
            assert(commands@ =~= old(self).code_queue());
        }
        let count = commands.len();
        ServerCodePollResponse { commands, count }
    }

    /// Removes the server-code result handle for `id` if it is still
    /// registered; the cleanup every failure path of the server-code RPC
    /// runs before returning.
    pub fn finish_server_code(&mut self, id: CallId)
        requires
            old(self).wf(),
        ensures
            final(self).wf(),
            !final(self).has_code_pending(id),
            old(self).has_code_pending(id) ==> code_reply_removed(*old(self), id, *final(self)),
            !old(self).has_code_pending(id) ==> state_unchanged(*old(self), *final(self)),
    {
        let r = remove_entry(&mut self.server_code_results, id);
        proof {
            if !old(self).has_code_pending(id) {
                match &r {
                    Some(tx) => {
                        let i = choose|i: int|
                            0 <= i < old(self).code_replies().len()
                                && old(self).code_replies()[i].0 == id
                                && *tx == old(self).code_replies()[i].1
                                && self.code_replies() == old(self).code_replies().remove(i);
                        assert(old(self).code_reply_ids()[i] == id);
                    },
                    None => {},
                }
            }
        }
    }

    /// Result-ingest of the server-code lane: look the identifier up, remove
    /// its handle, and send the result to the waiting caller.  An unknown
    /// identifier changes nothing and is reported as such.
    pub fn deliver_code_result(&mut self, result: ServerCodeResult) -> (r: CodeDeliverOutcome)
        requires
            old(self).wf(),
        ensures
            final(self).wf(),
            !old(self).has_code_pending(result.id) ==> r == CodeDeliverOutcome::UnknownId
                && state_unchanged(*old(self), *final(self)),
            old(self).has_code_pending(result.id) ==> r != CodeDeliverOutcome::UnknownId
                && code_reply_removed(*old(self), result.id, *final(self)),
    {
        let entry = remove_entry(&mut self.server_code_results, result.id);
        proof {
            if !old(self).has_code_pending(result.id) {
                match &entry {
                    Some(tx) => {
                        let i = choose|i: int|
                            0 <= i < old(self).code_replies().len()
                                && old(self).code_replies()[i].0 == result.id
                                && *tx == old(self).code_replies()[i].1
                                && self.code_replies() == old(self).code_replies().remove(i);
                        assert(old(self).code_reply_ids()[i] == result.id);
                    },
                    None => {},
                }
            }
        }
        match entry {
            None => CodeDeliverOutcome::UnknownId,
            Some(tx) => match tx.send(result) {
                Ok(_) => CodeDeliverOutcome::Delivered,
                Err(_) => CodeDeliverOutcome::ReceiverGone,
            },
        }
    }
}


/// LAW — exactly-once bookkeeping.  One successful enqueue adds exactly one
/// envelope to the queue and exactly one reply registration; consuming that
/// reply removes exactly the registration it added, leaving the reply table
/// as it was before the call.
pub proof fn lemma_call_bookkeeping(
    pre: AppState,
    cmd: ToolArguments,
    tx: UnboundedSender<CallResponse>,
    mid: AppState,
    post: AppState,
)
    requires
        pre.wf(),
        cmd.id is Some,
        call_enqueued(pre, cmd, tx, mid),
        reply_removed(mid, cmd.id->0, post),
    ensures
        mid.queue() == pre.queue().push(cmd),
        mid.replies().len() == pre.replies().len() + 1,
        post.replies() == pre.replies(),
{
    let id = cmd.id->0;
    let i = choose|i: int|
        0 <= i < mid.replies().len() && mid.replies()[i].0 == id && post.replies()
            == mid.replies().remove(i);
    if i < pre.replies().len() {
        assert(pre.reply_ids()[i] == id);
        assert(pre.has_pending(id));
        assert(false);
    }
    mid.replies().remove_ensures(i);
    assert(post.replies() =~= pre.replies());
}

/// LAW — a popped envelope was enqueued.  Whatever the long-poll hands out
/// carries an identifier that some earlier enqueue recorded.
pub proof fn lemma_popped_was_enqueued(pre: AppState, cmd: ToolArguments, post: AppState)
    requires
        pre.wf(),
        request_popped(pre, cmd, post),
    ensures
        envelope_recorded(cmd, pre.enqueue_history()),
{
    assert(envelope_recorded(pre.queue()[0], pre.enqueue_history()));
}

/// LAW — the trigger pulses on every enqueue, in particular on the one that
/// takes the queue from empty to non-empty.
pub proof fn lemma_wake_on_enqueue(
    pre: AppState,
    cmd: ToolArguments,
    tx: UnboundedSender<CallResponse>,
    post: AppState,
)
    requires
        call_enqueued(pre, cmd, tx, post),
    ensures
        post.epoch() == pre.epoch() + 1,
        pre.queue().len() == 0 ==> post.queue().len() > 0,
{
}

/// LAW — no lost wakeups.  A waiter cloned no later than some state `pre`
/// (its remembered count is at most `pre`'s) observes a strictly larger
/// count after any enqueue, so awaiting a change on it cannot miss that
/// enqueue.  In particular this holds for a waiter cloned in the very
/// critical section that found the queue empty.
pub proof fn lemma_no_lost_wakeup(
    pre: AppState,
    w: WakeWaiter,
    cmd: ToolArguments,
    tx: UnboundedSender<CallResponse>,
    post: AppState,
)
    requires
        w.seen@ <= pre.epoch(),
        call_enqueued(pre, cmd, tx, post),
    ensures
        post.epoch() > w.seen@,
{
}

/// LAW — reply round trip.  Starting from an empty queue: enqueue an
/// envelope, let the long-poll pop it, and route a reply for its identifier;
/// then the popped envelope is the enqueued one, the send handle the routing
/// found is exactly the one the enqueue registered, and the identifier is no
/// longer pending.
pub proof fn lemma_reply_round_trip(
    pre: AppState,
    cmd: ToolArguments,
    id: CallId,
    tx: UnboundedSender<CallResponse>,
    s1: AppState,
    popped: ToolArguments,
    s2: AppState,
    tx2: UnboundedSender<CallResponse>,
    s3: AppState,
)
    requires
        pre.wf(),
        pre.queue().len() == 0,
        cmd.id == Some(id),
        call_enqueued(pre, cmd, tx, s1),
        request_popped(s1, popped, s2),
        registered_sender(s2, id, tx2),
        reply_removed(s2, id, s3),
    ensures
        popped == cmd,
        tx2 == tx,
        !s3.has_pending(id),
        s3.queue().len() == 0,
{
    assert(s1.queue()[0] == cmd);
    let i = choose|i: int|
        0 <= i < s2.replies().len() && s2.replies()[i].0 == id && tx2 == s2.replies()[i].1;
    if i < pre.replies().len() {
        assert(pre.reply_ids()[i] == id);
        assert(pre.has_pending(id));
        assert(false);
    }
    assert(s2.replies()[i] == (id, tx));
}

} // verus!
