//! The queue by which a client session ties the responses that arrive to the
//! requests that it sent.
//!
//! A request is in flight from the moment it is handed to the queue until
//! its response arrives or its sender gives it up. A response to a request
//! in flight is kept until the session takes it; any other response is
//! dropped.

use std::collections::{HashMap, HashSet};
use vstd::prelude::*;
use vstd::std_specs::hash::group_hash_axioms;
use vstd::std_specs::iter::IteratorSpec;
use futures::sync::mpsc::{UnboundedReceiver, UnboundedSender};
use crate::supported_message::SupportedMessage;

verus! {

broadcast use group_hash_axioms;

/// The sending end of futures' channel without a bound.
#[verifier::external_type_specification]
#[verifier::external_body]
#[verifier::reject_recursive_types(T)]
pub struct ExUnboundedSender<T>(UnboundedSender<T>);

/// The receiving end of futures' channel without a bound.
#[verifier::external_type_specification]
#[verifier::external_body]
#[verifier::reject_recursive_types(T)]
pub struct ExUnboundedReceiver<T>(UnboundedReceiver<T>);

/// What travels to the task that writes to the transport.
pub enum Message {
    /// Asks the task to stop.
    Quit,
    /// A message to send.
    SupportedMessage(SupportedMessage),
}

/// futures' `sync::mpsc::unbounded`: the two ends of a new channel without a
/// bound.
#[verifier::external_body]
fn unbounded_channel() -> (result: (UnboundedSender<Message>, UnboundedReceiver<Message>)) {
    futures::sync::mpsc::unbounded::<Message>()
}

/// `Clone::clone` of futures' `UnboundedSender`: one more sending end of the
/// same channel.
#[verifier::external_body]
fn clone_sender(sender: &UnboundedSender<Message>) -> (result: UnboundedSender<Message>) {
    sender.clone()
}

/// futures' `UnboundedSender::unbounded_send`: hands the message to the
/// channel and says whether the channel took it, which it does not once its
/// receiving end is gone. Nothing is claimed of which of the two happens.
#[verifier::external_body]
fn unbounded_send(sender: &UnboundedSender<Message>, message: Message) -> (result: bool) {
    sender.unbounded_send(message).is_ok()
}

/// `sort` of std's slices, on handles: puts the handles in ascending order
/// and keeps each as often as it was there.
#[verifier::external_body]
fn sort_handles(handles: &mut Vec<u32>)
    ensures
        final(handles)@.to_multiset() == old(handles)@.to_multiset(),
        forall|i: int, j: int|
            0 <= i < j < final(handles)@.len() ==> final(handles)@[i] <= final(handles)@[j],
{
    handles.sort();
}

/// What the queue holds.
pub struct MessageQueueView {
    /// The requests in flight, each by its handle and whether it was sent as
    /// an asynchronous one.
    pub inflight: Set<(u32, bool)>,
    /// The responses that have arrived and were not taken, by handle, each
    /// with whether its request was sent as an asynchronous one.
    pub responses: Map<u32, (SupportedMessage, bool)>,
}

/// The queue as it is when nothing is in flight and nothing has arrived.
pub open spec fn empty_queue() -> MessageQueueView {
    MessageQueueView { inflight: Set::empty(), responses: Map::empty() }
}

/// The queue after a request with the given handle was handed to it.
pub open spec fn submitted(q: MessageQueueView, handle: u32, is_async: bool) -> MessageQueueView {
    MessageQueueView { inflight: q.inflight.insert((handle, is_async)), responses: q.responses }
}

/// The queue after the sender of the request with the given handle gave it
/// up: the request is no longer in flight, in either way of sending.
pub open spec fn expired(q: MessageQueueView, handle: u32) -> MessageQueueView {
    MessageQueueView {
        inflight: q.inflight.remove((handle, false)).remove((handle, true)),
        responses: q.responses,
    }
}

/// Whether a response with the given handle finds a request in flight.
pub open spec fn is_awaited(q: MessageQueueView, handle: u32) -> bool {
    q.inflight.contains((handle, true)) || q.inflight.contains((handle, false))
}

/// The queue after a response arrived. Where a request with the handle of
/// the response is in flight, the asynchronous one first, that request is no
/// longer in flight and the response is kept under the handle, in the place
/// of any response kept there before. Else the queue is as it was.
pub open spec fn responded(q: MessageQueueView, response: SupportedMessage) -> MessageQueueView {
    let handle = response@.request_handle();
    if q.inflight.contains((handle, true)) {
        MessageQueueView {
            inflight: q.inflight.remove((handle, true)),
            responses: q.responses.insert(handle, (response, true)),
        }
    } else if q.inflight.contains((handle, false)) {
        MessageQueueView {
            inflight: q.inflight.remove((handle, false)),
            responses: q.responses.insert(handle, (response, false)),
        }
    } else {
        q
    }
}

/// The queue after the response with the given handle was taken.
pub open spec fn taken(q: MessageQueueView, handle: u32) -> MessageQueueView {
    MessageQueueView { inflight: q.inflight, responses: q.responses.remove(handle) }
}

/// Whether a response to an asynchronous request is kept under the handle.
pub open spec fn is_async_response(q: MessageQueueView, handle: u32) -> bool {
    q.responses.contains_key(handle) && q.responses[handle].1
}

/// The handles below `bound` under which a response to an asynchronous
/// request is kept, in ascending order.
pub open spec fn async_handles_below(q: MessageQueueView, bound: nat) -> Seq<u32>
    decreases bound,
{
    if bound == 0 {
        Seq::empty()
    } else {
        let handle = (bound - 1) as u32;
        let below = async_handles_below(q, (bound - 1) as nat);
        if is_async_response(q, handle) {
            below.push(handle)
        } else {
            below
        }
    }
}

/// The handles under which a response to an asynchronous request is kept, in
/// ascending order: the order in which the responses are handed out.
pub open spec fn drain_order(q: MessageQueueView) -> Seq<u32> {
    async_handles_below(q, 0x1_0000_0000)
}

/// The responses to asynchronous requests, in the order of their handles.
pub open spec fn drained_responses(q: MessageQueueView) -> Seq<SupportedMessage> {
    drain_order(q).map_values(|handle: u32| q.responses[handle].0)
}

/// The queue after the responses to asynchronous requests were handed out.
pub open spec fn drained(q: MessageQueueView) -> MessageQueueView {
    MessageQueueView {
        inflight: q.inflight,
        responses: q.responses.remove_keys(Set::new(|handle: u32| is_async_response(q, handle))),
    }
}

/// Keeps track of the requests in flight and of the responses that wait to be
/// taken.
pub struct MessageQueue {
    /// The handles of the requests in flight that were sent as synchronous.
    inflight_sync: HashSet<u32>,
    /// The handles of the requests in flight that were sent as asynchronous.
    inflight_async: HashSet<u32>,
    /// The responses that wait to be taken.
    responses: HashMap<u32, (SupportedMessage, bool)>,
    /// The queue on which messages travel to the transport.
    sender: Option<UnboundedSender<Message>>,
}

impl View for MessageQueue {
    type V = MessageQueueView;

    closed spec fn view(&self) -> MessageQueueView {
        MessageQueueView {
            inflight: Set::new(
                |entry: (u32, bool)|
                    if entry.1 {
                        self.inflight_async@.contains(entry.0)
                    } else {
                        self.inflight_sync@.contains(entry.0)
                    },
            ),
            responses: self.responses@,
        }
    }
}

/// The handles are in ascending order, none twice.
pub open spec fn is_ascending(handles: Seq<u32>) -> bool {
    forall|i: int, j: int| 0 <= i < j < handles.len() ==> handles[i] < handles[j]
}

/// The handles in ascending order under which, below `bound`, a response to
/// an asynchronous request is kept are the handles in the order of handing
/// out.
pub proof fn lemma_ascending_is_drain_order(q: MessageQueueView, handles: Seq<u32>, bound: nat)
    requires
        bound <= 0x1_0000_0000,
        is_ascending(handles),
        forall|handle: u32|
            #[trigger] handles.contains(handle) <==> handle < bound && is_async_response(
                q,
                handle,
            ),
    ensures
        handles == async_handles_below(q, bound),
    decreases bound,
{
    if bound == 0 {
        if handles.len() > 0 {
            assert(handles.contains(handles[0]));
        }
        assert(handles =~= Seq::<u32>::empty());
    } else {
        let top = (bound - 1) as u32;
        if is_async_response(q, top) {
            assert(handles.contains(top));
            let k = choose|k: int| 0 <= k < handles.len() && handles[k] == top;
            if k < handles.len() - 1 {
                assert(handles.contains(handles[k + 1]));
            }
            let lower = handles.drop_last();
            assert forall|handle: u32|
                lower.contains(handle) <==> handle < (bound - 1) as nat && is_async_response(
                    q,
                    handle,
                ) by {
                if lower.contains(handle) {
                    let i = choose|i: int| 0 <= i < lower.len() && lower[i] == handle;
                    assert(handles[i] == handle);
                    assert(handles.contains(handle));
                }
                if handle < (bound - 1) as nat && is_async_response(q, handle) {
                    assert(handles.contains(handle));
                    let i = choose|i: int| 0 <= i < handles.len() && handles[i] == handle;
                    assert(lower[i] == handle);
                }
            }
            lemma_ascending_is_drain_order(q, lower, (bound - 1) as nat);
            assert(handles =~= lower.push(top));
        } else {
            assert forall|handle: u32|
                handles.contains(handle) <==> handle < (bound - 1) as nat && is_async_response(
                    q,
                    handle,
                ) by {
            }
            lemma_ascending_is_drain_order(q, handles, (bound - 1) as nat);
        }
    }
}

/// The handles are handed out in ascending order, each once, and they are
/// the handles under which a response to an asynchronous request is kept.
pub proof fn lemma_drain_order(q: MessageQueueView, bound: nat)
    requires
        bound <= 0x1_0000_0000,
    ensures
        is_ascending(async_handles_below(q, bound)),
        forall|handle: u32|
            #[trigger] async_handles_below(q, bound).contains(handle) <==> handle < bound
                && is_async_response(q, handle),
    decreases bound,
{
    let all = async_handles_below(q, bound);
    if bound == 0 {
        assert forall|handle: u32| !all.contains(handle) by {
            if all.contains(handle) {
                let i = choose|i: int| 0 <= i < all.len() && all[i] == handle;
            }
        }
    } else {
        let top = (bound - 1) as u32;
        let below = async_handles_below(q, (bound - 1) as nat);
        lemma_drain_order(q, (bound - 1) as nat);
        if is_async_response(q, top) {
            assert(all == below.push(top));
            assert(top as nat == bound - 1);
            assert forall|i: int, j: int| 0 <= i < j < all.len() implies all[i] < all[j] by {
                assert(all[i] == below[i]);
                assert(below.contains(below[i]));
                assert(below[i] < (bound - 1) as nat);
                if j < below.len() {
                    assert(all[j] == below[j]);
                } else {
                    assert(all[j] == top);
                }
            }
            assert forall|handle: u32|
                all.contains(handle) <==> handle < bound && is_async_response(q, handle) by {
                vstd::seq_lib::lemma_seq_contains_after_push(below, top, handle);
                assert(below.contains(handle) <==> handle < (bound - 1) as nat
                    && is_async_response(q, handle));
            }
        } else {
            assert(all == below);
        }
    }
}

/// A response for which no request is in flight leaves the queue as it was.
pub proof fn lemma_orphan_dropped(q: MessageQueueView, response: SupportedMessage)
    requires
        !is_awaited(q, response@.request_handle()),
    ensures
        responded(q, response) == q,
{
}

/// A response that arrives after its request was given up is dropped: the
/// queue keeps no response for it, whatever it held before the request was
/// sent.
pub proof fn lemma_late_response_dropped(
    q: MessageQueueView,
    handle: u32,
    is_async: bool,
    response: SupportedMessage,
)
    requires
        response@.request_handle() == handle,
    ensures
        responded(expired(submitted(q, handle, is_async), handle), response) == expired(
            submitted(q, handle, is_async),
            handle,
        ),
        expired(submitted(q, handle, is_async), handle).responses == q.responses,
{
}

/// The queue keeps at most one response for a handle: a response that
/// arrives takes the place of one kept under its handle, and once a response
/// was taken none is kept under its handle.
pub proof fn lemma_one_response_per_handle(
    q: MessageQueueView,
    response: SupportedMessage,
    handle: u32,
)
    ensures
        is_awaited(q, response@.request_handle()) ==> responded(
            q,
            response,
        ).responses[response@.request_handle()].0 == response,
        !taken(q, handle).responses.contains_key(handle),
        taken(taken(q, handle), handle) == taken(q, handle),
{
    assert(taken(taken(q, handle), handle).responses =~= taken(q, handle).responses);
}

/// Of two requests in flight with one handle, one sent either way, the first
/// response answers the asynchronous one and leaves the other in flight.
pub proof fn lemma_same_handle_twice(q: MessageQueueView, response: SupportedMessage)
    requires
        q.inflight.contains((response@.request_handle(), true)),
        q.inflight.contains((response@.request_handle(), false)),
    ensures
        responded(q, response).responses[response@.request_handle()] == (response, true),
        responded(q, response).inflight.contains((response@.request_handle(), false)),
        !responded(q, response).inflight.contains((response@.request_handle(), true)),
{
}

/// A request leaves the requests in flight in no other way than by its
/// response, by being given up, or by the queue being cleared: sending
/// another request, taking a response and handing the responses to
/// asynchronous requests out leave it in flight, and so does a response
/// with, or the giving up of, another handle.
pub proof fn lemma_inflight_stays(
    q: MessageQueueView,
    handle: u32,
    is_async: bool,
    other: u32,
    other_is_async: bool,
    response: SupportedMessage,
)
    requires
        q.inflight.contains((handle, is_async)),
        other != handle,
        response@.request_handle() != handle,
    ensures
        submitted(q, other, other_is_async).inflight.contains((handle, is_async)),
        taken(q, other).inflight.contains((handle, is_async)),
        taken(q, handle).inflight.contains((handle, is_async)),
        drained(q).inflight.contains((handle, is_async)),
        expired(q, other).inflight.contains((handle, is_async)),
        responded(q, response).inflight.contains((handle, is_async)),
{
}

/// A response to a request in flight is kept until it is taken, and taking
/// it hands out that response.
pub proof fn lemma_response_kept(
    q: MessageQueueView,
    handle: u32,
    is_async: bool,
    response: SupportedMessage,
)
    requires
        response@.request_handle() == handle,
    ensures
        responded(submitted(q, handle, is_async), response).responses.contains_key(handle),
        responded(submitted(q, handle, is_async), response).responses[handle].0 == response,
{
}

/// Handing the responses to asynchronous requests out leaves none of them
/// behind and leaves the others where they are; doing it again hands nothing
/// out.
pub proof fn lemma_drained_twice(q: MessageQueueView)
    ensures
        forall|handle: u32| !is_async_response(drained(q), handle),
        forall|handle: u32|
            q.responses.contains_key(handle) && !q.responses[handle].1 ==> drained(
                q,
            ).responses.contains_key(handle) && drained(q).responses[handle]
                == q.responses[handle],
        drain_order(drained(q)) == Seq::<u32>::empty(),
{
    lemma_ascending_is_drain_order(drained(q), Seq::<u32>::empty(), 0x1_0000_0000);
}

impl MessageQueue {
    /// Whether the queue has the channel on which messages travel to the
    /// transport.
    pub closed spec fn has_channel(&self) -> bool {
        self.sender is Some
    }

    /// A queue with nothing in flight, no response and no channel.
    pub fn new() -> (r: MessageQueue)
        ensures
            r@ == empty_queue(),
            !r.has_channel(),
    {
        let r = MessageQueue {
            inflight_sync: HashSet::new(),
            inflight_async: HashSet::new(),
            responses: HashMap::new(),
            sender: None,
        };
        assert(r@.inflight =~= Set::<(u32, bool)>::empty());
        r
    }

    /// Forgets the requests in flight and the responses. This is safe at any
    /// time and in any state of the queue.
    pub fn clear(&mut self)
        ensures
            final(self)@ == empty_queue(),
            final(self).has_channel() == old(self).has_channel(),
    {
        self.inflight_sync.clear();
        self.inflight_async.clear();
        self.responses.clear();
        assert(self@.inflight =~= Set::<(u32, bool)>::empty());
    }

    /// Makes the channel on which requests travel to the transport. The queue
    /// keeps one sending end; the other and the receiving end are returned.
    pub fn make_request_channel(&mut self) -> (r: (
        UnboundedSender<Message>,
        UnboundedReceiver<Message>,
    ))
        ensures
            final(self)@ == old(self)@,
            final(self).has_channel(),
    {
        let (tx, rx) = unbounded_channel();
        self.sender = Some(clone_sender(&tx));
        (tx, rx)
    }

    /// Tests whether the queue has the channel on which messages travel to
    /// the transport.
    pub fn is_connected(&self) -> (r: bool)
        ensures
            r == self.has_channel(),
    {
        self.sender.is_some()
    }

    /// Takes note that the server has processed a request. The queue stays as
    /// it is.
    pub fn request_was_processed(&mut self, request_handle: u32)
        ensures
            final(self)@ == old(self)@,
            final(self).has_channel() == old(self).has_channel(),
    {
    }

    /// Hands a message to the channel. A message that the channel does not
    /// take, because its receiving end is gone, is dropped.
    fn send_message(&mut self, message: Message) -> (r: bool)
        requires
            old(self).has_channel(),
        ensures
            final(self)@ == old(self)@,
            final(self).has_channel(),
    {
        match &self.sender {
            Some(sender) => unbounded_send(sender, message),
            None => false,
        }
    }

    /// Called by the session to add a request to be sent. The request is in
    /// flight from now on, whether or not the channel took it; the result
    /// says whether it did.
    pub fn add_request(&mut self, request: SupportedMessage, is_async: bool) -> (r: bool)
        requires
            old(self).has_channel(),
        ensures
            final(self)@ == submitted(old(self)@, request@.request_handle(), is_async),
            final(self).has_channel(),
    {
        let request_handle = request.request_handle();
        if is_async {
            self.inflight_async.insert(request_handle);
        } else {
            self.inflight_sync.insert(request_handle);
        }
        assert(self@.inflight =~= old(self)@.inflight.insert((request_handle, is_async)));
        self.send_message(Message::SupportedMessage(request))
    }

    /// Adds a request to be sent where the queue has its channel; else the
    /// request is handed back and the queue stays as it is.
    pub fn try_add_request(&mut self, request: SupportedMessage, is_async: bool) -> (r: Option<
        SupportedMessage,
    >)
        ensures
            old(self).has_channel() ==> r is None && final(self)@ == submitted(
                old(self)@,
                request@.request_handle(),
                is_async,
            ),
            !old(self).has_channel() ==> r == Some(request) && final(self)@ == old(self)@,
            final(self).has_channel() == old(self).has_channel(),
    {
        if self.sender.is_some() {
            let _ = self.add_request(request, is_async);
            None
        } else {
            Some(request)
        }
    }

    /// Asks the task that writes to the transport to stop. The result says
    /// whether the channel took the message.
    pub fn quit(&mut self) -> (r: bool)
        requires
            old(self).has_channel(),
        ensures
            final(self)@ == old(self)@,
            final(self).has_channel(),
    {
        self.send_message(Message::Quit)
    }

    /// Called when a session's request times out. The request is no longer in
    /// flight, and a response that arrives for it will be dropped.
    pub fn request_has_timed_out(&mut self, request_handle: u32)
        ensures
            final(self)@ == expired(old(self)@, request_handle),
            final(self).has_channel() == old(self).has_channel(),
    {
        let _ = self.inflight_sync.remove(&request_handle);
        let _ = self.inflight_async.remove(&request_handle);
        assert(self@.inflight =~= old(self)@.inflight.remove((request_handle, false)).remove(
            (request_handle, true),
        ));
    }

    /// Called by the connection to store a response for the consumption of
    /// the session. The result says whether the response was kept; one that
    /// belongs to no request in flight is dropped.
    pub fn store_response(&mut self, response: SupportedMessage) -> (r: bool)
        ensures
            final(self)@ == responded(old(self)@, response),
            r == is_awaited(old(self)@, response@.request_handle()),
            final(self).has_channel() == old(self).has_channel(),
    {
        let request_handle = response.request_handle();
        if self.inflight_async.remove(&request_handle) {
            self.responses.insert(request_handle, (response, true));
            assert(self@.inflight =~= old(self)@.inflight.remove((request_handle, true)));
            true
        } else if self.inflight_sync.remove(&request_handle) {
            self.responses.insert(request_handle, (response, false));
            assert(self@.inflight =~= old(self)@.inflight.remove((request_handle, false)));
            true
        } else {
            assert(self@.inflight =~= old(self)@.inflight);
            false
        }
    }

    /// The handles under which a response to an asynchronous request is kept,
    /// in ascending order.
    fn async_handles(&self) -> (r: Vec<u32>)
        ensures
            r@ == drain_order(self@),
    {
        let mut async_handles: Vec<u32> = Vec::new();
        let ghost keys = self.responses.keys().remaining();
        for handle in it: self.responses.keys()
            invariant
                it.seq() == keys,
                keys == self.responses.keys().remaining(),
                async_handles@.no_duplicates(),
                forall|h: u32|
                    async_handles@.contains(h) <==> keys.take(it.index() as int).unref().contains(
                        h,
                    ) && is_async_response(self@, h),
        {
            let ghost index = it.index();
            let ghost before = async_handles@;
            let ghost seen = keys.take(index as int).unref();
            proof {
                assert(keys.take(index + 1).unref() =~= seen.push(*handle));
                assert(!seen.contains(*handle)) by {
                    if seen.contains(*handle) {
                        let k = choose|k: int| 0 <= k < seen.len() && seen[k] == *handle;
                        assert(keys[k] != keys[index]);
                    }
                }
                assert(keys.unref()[index] == *handle);
                assert(keys.unref().to_set().contains(*handle));
            }
            match self.responses.get(handle) {
                Some(entry) => {
                    if entry.1 {
                        async_handles.push(*handle);
                    }
                },
                None => {},
            }
            proof {
                assert(!before.contains(*handle));
                assert(async_handles@.no_duplicates()) by {
                    if async_handles@.len() > before.len() {
                        assert forall|i: int, j: int|
                            0 <= i < async_handles@.len() && 0 <= j < async_handles@.len() && i
                                != j implies async_handles@[i] != async_handles@[j] by {
                            if i < before.len() {
                                assert(before.contains(before[i]));
                            }
                            if j < before.len() {
                                assert(before.contains(before[j]));
                            }
                        }
                    }
                }
                assert forall|h: u32|
                    async_handles@.contains(h) <==> seen.push(*handle).contains(h)
                        && is_async_response(self@, h) by {
                    vstd::seq_lib::lemma_seq_contains_after_push(seen, *handle, h);
                    vstd::seq_lib::lemma_seq_contains_after_push(before, *handle, h);
                }
            }
        }
        let ghost found = async_handles@;
        sort_handles(&mut async_handles);
        proof {
            let sorted = async_handles@;
            assert(keys.take(keys.len() as int) =~= keys);
            sorted.to_multiset_ensures();
            found.to_multiset_ensures();
            assert forall|h: u32| found.contains(h) <==> is_async_response(self@, h) by {
                if is_async_response(self@, h) {
                    assert(self.responses@.dom().contains(h));
                    assert(keys.unref().to_set().contains(h));
                    assert(keys.unref().contains(h));
                }
            }
            assert forall|h: u32|
                sorted.contains(h) <==> h < 0x1_0000_0000 && is_async_response(self@, h) by {
                assert(sorted.contains(h) <==> sorted.to_multiset().count(h) > 0);
                assert(found.contains(h) <==> found.to_multiset().count(h) > 0);
            }
            found.lemma_multiset_has_no_duplicates();
            sorted.lemma_multiset_has_no_duplicates_conv();
            lemma_ascending_is_drain_order(self@, sorted, 0x1_0000_0000);
        }
        async_handles
    }

    /// Takes all pending asynchronous responses, in the order of their
    /// handles, and returns them to the caller.
    pub fn async_responses(&mut self) -> (r: Vec<SupportedMessage>)
        ensures
            r@ == drained_responses(old(self)@),
            final(self)@ == drained(old(self)@),
            final(self).has_channel() == old(self).has_channel(),
    {
        let async_handles = self.async_handles();
        let ghost before = self@;
        let ghost order = async_handles@;
        proof {
            lemma_drain_order(before, 0x1_0000_0000);
        }
        let mut responses: Vec<SupportedMessage> = Vec::new();
        let mut i: usize = 0;
        while i < async_handles.len()
            invariant
                i <= async_handles.len(),
                async_handles@ == order,
                order == drain_order(before),
                before == old(self)@,
                is_ascending(order),
                forall|handle: u32| order.contains(handle) <==> is_async_response(before, handle),
                self@.inflight == before.inflight,
                self.has_channel() == old(self).has_channel(),
                self@.responses == before.responses.remove_keys(order.take(i as int).to_set()),
                responses@ == order.take(i as int).map_values(
                    |handle: u32| before.responses[handle].0,
                ),
            decreases async_handles.len() - i,
        {
            let handle = async_handles[i];
            proof {
                assert(order.contains(handle));
                assert(!order.take(i as int).to_set().contains(handle)) by {
                    if order.take(i as int).contains(handle) {
                        let k = choose|k: int| 0 <= k < i && order.take(i as int)[k] == handle;
                        assert(order[k] < order[i as int]);
                    }
                }
            }
            match self.responses.remove(&handle) {
                Some(entry) => {
                    responses.push(entry.0);
                },
                None => {},
            }
            proof {
                let done = order.take(i as int);
                let next = order.take(i + 1);
                assert(next =~= done.push(handle));
                done.lemma_push_to_set_commute(handle);
                assert(self@.responses =~= before.responses.remove_keys(next.to_set()));
                assert(responses@ =~= next.map_values(|handle: u32| before.responses[handle].0));
            }
            i += 1;
        }
        proof {
            assert(order.take(i as int) =~= order);
            assert(order.to_set() =~= Set::new(|handle: u32| is_async_response(before, handle)));
        }
        responses
    }

    /// Called by the session to take the identified response if one exists,
    /// otherwise nothing.
    pub fn take_response(&mut self, request_handle: u32) -> (r: Option<SupportedMessage>)
        ensures
            final(self)@ == taken(old(self)@, request_handle),
            r == (if old(self)@.responses.contains_key(request_handle) {
                Some(old(self)@.responses[request_handle].0)
            } else {
                None
            }),
            final(self).has_channel() == old(self).has_channel(),
    {
        match self.responses.remove(&request_handle) {
            Some(entry) => Some(entry.0),
            None => {
                assert(self@.responses =~= old(self)@.responses.remove(request_handle));
                None
            },
        }
    }

    /// Tests whether a request with the given handle, sent the given way, is
    /// in flight.
    pub fn is_inflight(&self, request_handle: u32, is_async: bool) -> (r: bool)
        ensures
            r == self@.inflight.contains((request_handle, is_async)),
    {
        if is_async {
            self.inflight_async.contains(&request_handle)
        } else {
            self.inflight_sync.contains(&request_handle)
        }
    }

    /// Tests whether a response waits to be taken under the given handle.
    pub fn has_response(&self, request_handle: u32) -> (r: bool)
        ensures
            r == self@.responses.contains_key(request_handle),
    {
        self.responses.contains_key(&request_handle)
    }

    /// The number of responses that wait to be taken.
    pub fn responses_len(&self) -> (r: usize)
        ensures
            r == self@.responses.len(),
    {
        self.responses.len()
    }
}

} // verus!
