use futures::Stream;
use opcua::date_time::DateTime;
use opcua::message_queue::{Message, MessageQueue};
use opcua::node_id::NodeId;
use opcua::service_types::close_session_request::CloseSessionRequest;
use opcua::service_types::delete_nodes_response::DeleteNodesResponse;
use opcua::service_types::{RequestHeader, ResponseHeader};
use opcua::status_codes::StatusCode;
use opcua::supported_message::SupportedMessage;

fn request(handle: u32) -> SupportedMessage {
    SupportedMessage::CloseSessionRequest(Box::new(CloseSessionRequest {
        request_header: RequestHeader::new(&NodeId::null(), &DateTime::epoch(), handle),
        delete_subscriptions: handle % 2 == 0,
    }))
}

fn response(handle: u32) -> SupportedMessage {
    let mut response_header = ResponseHeader::null_at(&DateTime::epoch());
    response_header.request_handle = handle;
    SupportedMessage::DeleteNodesResponse(Box::new(DeleteNodesResponse {
        response_header,
        results: Some(vec![StatusCode::Good; (handle % 4) as usize]),
        diagnostic_infos: None,
    }))
}

fn connected() -> MessageQueue {
    let mut queue = MessageQueue::new();
    let _ = queue.make_request_channel();
    queue
}

#[test]
fn new_queue_is_empty() {
    let mut queue = MessageQueue::new();
    assert!(!queue.is_connected());
    assert_eq!(queue.responses_len(), 0);
    assert!(!queue.is_inflight(0, false));
    assert!(!queue.is_inflight(0, true));
    assert_eq!(queue.take_response(0), None);
    assert_eq!(queue.async_responses(), vec![]);
}

#[test]
fn request_is_in_flight_until_its_response_arrives() {
    let mut queue = connected();
    queue.add_request(request(7), false);
    assert!(queue.is_inflight(7, false));
    assert!(!queue.is_inflight(7, true));
    assert!(!queue.has_response(7));
    assert!(queue.store_response(response(7)));
    assert!(!queue.is_inflight(7, false));
    assert!(queue.has_response(7));
    assert_eq!(queue.take_response(7), Some(response(7)));
    assert!(!queue.has_response(7));
    assert_eq!(queue.take_response(7), None);
}

#[test]
fn requests_travel_on_the_channel_in_order() {
    let mut queue = MessageQueue::new();
    let (tx, rx) = queue.make_request_channel();
    assert!(queue.is_connected());
    assert!(queue.add_request(request(1), false));
    assert!(queue.add_request(request(2), true));
    assert!(queue.quit());
    drop(tx);
    let mut seen = Vec::new();
    for message in rx.wait().take(3) {
        match message.unwrap() {
            Message::SupportedMessage(m) => seen.push(m.request_handle()),
            Message::Quit => seen.push(u32::MAX),
        }
    }
    assert_eq!(seen, vec![1, 2, u32::MAX]);
}

#[test]
fn a_message_for_a_channel_that_is_gone_is_dropped() {
    let mut queue = MessageQueue::new();
    let (tx, rx) = queue.make_request_channel();
    drop(rx);
    drop(tx);
    // the channel does not take the request, and the request is in flight all the same
    assert!(!queue.add_request(request(3), false));
    assert!(queue.is_inflight(3, false));
    assert!(!queue.quit());
}

#[test]
fn try_add_request_without_a_channel_hands_the_request_back() {
    let mut queue = MessageQueue::new();
    assert_eq!(queue.try_add_request(request(3), true), Some(request(3)));
    assert!(!queue.is_inflight(3, true));
    let _channel = queue.make_request_channel();
    assert_eq!(queue.try_add_request(request(3), true), None);
    assert!(queue.is_inflight(3, true));
}

// A response for a handle that was never submitted leaves the queue as it was.
#[test]
fn orphan_response_is_dropped() {
    let mut queue = connected();
    queue.add_request(request(1), false);
    queue.add_request(request(2), true);
    assert!(queue.store_response(response(2)));
    assert!(!queue.store_response(response(99)));
    assert!(!queue.has_response(99));
    assert_eq!(queue.responses_len(), 1);
    assert!(queue.is_inflight(1, false));
    assert!(!queue.is_inflight(2, true));
    assert!(queue.has_response(2));
    assert_eq!(queue.take_response(99), None);
    // a second response to a request that was answered is an orphan too
    assert!(!queue.store_response(response(2)));
    assert_eq!(queue.responses_len(), 1);
}

// Responses for the handles 5, 2 and 9 are handed out in the order 2, 5, 9.
#[test]
fn async_responses_come_out_in_the_order_of_their_handles() {
    let mut queue = connected();
    for handle in [5, 2, 9] {
        queue.add_request(request(handle), true);
    }
    for handle in [5, 2, 9] {
        assert!(queue.store_response(response(handle)));
    }
    assert_eq!(queue.async_responses(), vec![response(2), response(5), response(9)]);
    assert_eq!(queue.responses_len(), 0);
    assert_eq!(queue.async_responses(), vec![]);
}

#[test]
fn async_responses_leave_the_others_where_they_are() {
    let mut queue = connected();
    queue.add_request(request(4), false);
    queue.add_request(request(3), true);
    queue.add_request(request(u32::MAX), true);
    queue.add_request(request(0), true);
    queue.add_request(request(8), true);
    for handle in [u32::MAX, 4, 0, 3] {
        assert!(queue.store_response(response(handle)));
    }
    assert_eq!(queue.async_responses(), vec![response(0), response(3), response(u32::MAX)]);
    assert!(queue.has_response(4));
    assert!(!queue.has_response(3));
    assert!(queue.is_inflight(8, true));
    assert_eq!(queue.take_response(4), Some(response(4)));
    assert!(queue.store_response(response(8)));
    assert_eq!(queue.async_responses(), vec![response(8)]);
}

#[test]
fn many_async_responses_are_sorted() {
    let mut queue = connected();
    let mut handles: Vec<u32> = (0..200).map(|i| (i * 7919 + 13) % 1009).collect();
    for handle in &handles {
        queue.add_request(request(*handle), true);
        assert!(queue.store_response(response(*handle)));
    }
    handles.sort();
    handles.dedup();
    let out: Vec<u32> = queue.async_responses().iter().map(|m| m.request_handle()).collect();
    assert_eq!(out, handles);
}

// submit, expire, then the response: the response is dropped, not queued.
#[test]
fn response_after_timeout_is_dropped() {
    let mut queue = connected();
    queue.add_request(request(11), false);
    queue.request_has_timed_out(11);
    assert!(!queue.is_inflight(11, false));
    assert!(!queue.store_response(response(11)));
    assert!(!queue.has_response(11));
    assert_eq!(queue.take_response(11), None);
    assert_eq!(queue.responses_len(), 0);
}

#[test]
fn timeout_removes_both_ways_of_sending() {
    let mut queue = connected();
    queue.add_request(request(11), false);
    queue.add_request(request(11), true);
    queue.add_request(request(12), true);
    queue.request_has_timed_out(11);
    assert!(!queue.is_inflight(11, false));
    assert!(!queue.is_inflight(11, true));
    assert!(queue.is_inflight(12, true));
    // giving up what is not in flight changes nothing
    queue.request_has_timed_out(11);
    queue.request_has_timed_out(77);
    assert!(queue.is_inflight(12, true));
    assert!(!queue.store_response(response(11)));
}

#[test]
fn timeout_leaves_a_response_that_has_arrived() {
    let mut queue = connected();
    queue.add_request(request(11), false);
    assert!(queue.store_response(response(11)));
    queue.request_has_timed_out(11);
    assert_eq!(queue.take_response(11), Some(response(11)));
}

// Two requests with one handle: the first response answers the asynchronous one.
#[test]
fn same_handle_sent_both_ways() {
    let mut queue = connected();
    queue.add_request(request(5), false);
    queue.add_request(request(5), true);
    assert!(queue.store_response(response(5)));
    assert!(queue.is_inflight(5, false));
    assert!(!queue.is_inflight(5, true));
    assert_eq!(queue.responses_len(), 1);
    assert_eq!(queue.async_responses(), vec![response(5)]);
    assert!(queue.store_response(response(5)));
    assert!(!queue.is_inflight(5, false));
    assert_eq!(queue.async_responses(), vec![]);
    assert_eq!(queue.take_response(5), Some(response(5)));
    assert!(!queue.store_response(response(5)));
}

#[test]
fn at_most_one_response_is_kept_for_a_handle() {
    let mut queue = connected();
    queue.add_request(request(5), false);
    queue.add_request(request(5), true);
    let mut first = response(5);
    if let SupportedMessage::DeleteNodesResponse(ref mut r) = first {
        r.results = None;
    }
    assert!(queue.store_response(first));
    assert!(queue.store_response(response(5)));
    assert_eq!(queue.responses_len(), 1);
    // the later response has taken the place of the earlier one
    assert_eq!(queue.take_response(5), Some(response(5)));
    assert_eq!(queue.take_response(5), None);
}

// Clearing twice in a row, or clearing an empty queue, is safe.
#[test]
fn clear_is_safe_at_any_time() {
    let mut queue = MessageQueue::new();
    queue.clear();
    queue.clear();
    assert_eq!(queue.responses_len(), 0);
    let _channel = queue.make_request_channel();
    queue.add_request(request(1), false);
    queue.add_request(request(2), true);
    queue.add_request(request(3), true);
    assert!(queue.store_response(response(2)));
    queue.clear();
    assert!(queue.is_connected());
    assert!(!queue.is_inflight(1, false));
    assert!(!queue.is_inflight(3, true));
    assert!(!queue.has_response(2));
    assert_eq!(queue.responses_len(), 0);
    queue.clear();
    assert_eq!(queue.responses_len(), 0);
    assert!(!queue.store_response(response(1)));
    assert_eq!(queue.async_responses(), vec![]);
    // the queue goes on working
    queue.add_request(request(1), false);
    assert!(queue.store_response(response(1)));
    assert_eq!(queue.take_response(1), Some(response(1)));
}

#[test]
fn request_was_processed_changes_nothing() {
    let mut queue = connected();
    queue.add_request(request(1), false);
    queue.request_was_processed(1);
    assert!(queue.is_inflight(1, false));
    assert_eq!(queue.responses_len(), 0);
}
