use xen_ctrl::directory::parse_directory;
use xen_ctrl::queue::{ReplyQueue, WatchQueue};
use xen_ctrl::store::{
    check_reply, directory_request, read_request, route_incoming, watch_field, watch_request,
    write_request, Channel, StoreError, XenStoreMessage, XS_WATCH_PATH, XS_WATCH_TOKEN,
};
use xen_ctrl::wire::{
    XenSocketMessage, XS_DIRECTORY, XS_READ, XS_WATCH, XS_WATCH_EVENT, XS_WRITE,
};

fn header(kind: u32, len: usize) -> XenSocketMessage {
    XenSocketMessage { kind, req_id: 0, tx_id: 0, len: len as u32 }
}

fn deliver(kind: u32, body: &[u8]) -> xen_ctrl::store::Routed {
    route_incoming(header(kind, body.len()), body.to_vec())
}

#[test]
fn header_bytes_round_trip() {
    let h = XenSocketMessage { kind: XS_WRITE, req_id: 0x01020304, tx_id: 7, len: 300 };
    let bytes = h.to_bytes();
    assert_eq!(
        bytes,
        vec![11, 0, 0, 0, 4, 3, 2, 1, 7, 0, 0, 0, 44, 1, 0, 0]
    );
    assert_eq!(XenSocketMessage::from_bytes(&bytes), h);
}

#[test]
fn header_new_refuses_oversized_body() {
    assert_eq!(XenSocketMessage::new(XS_READ, 4096), Some(header(XS_READ, 4096)));
    assert_eq!(XenSocketMessage::new(XS_READ, 4097), None);
}

#[test]
fn read_request_is_nul_terminated_path() {
    let req = read_request("domid").unwrap();
    assert_eq!(req.body, b"domid\0".to_vec());
    assert_eq!(req.header, header(XS_READ, 6));
    let wire = req.to_wire();
    assert_eq!(wire.len(), 22);
    assert_eq!(&wire[16..], b"domid\0");
    let dir = directory_request("/local/domain").unwrap();
    assert_eq!(dir.header.kind, XS_DIRECTORY);
    assert_eq!(dir.body, b"/local/domain\0".to_vec());
}

#[test]
fn write_request_value_is_not_terminated() {
    let req = write_request("a/b", "v").unwrap();
    assert_eq!(req.body, b"a/b\0v".to_vec());
    assert_eq!(req.header, header(XS_WRITE, 5));
}

#[test]
fn watch_request_terminates_both() {
    let req = watch_request("p", "tok").unwrap();
    assert_eq!(req.body, b"p\0tok\0".to_vec());
    assert_eq!(req.header.kind, XS_WATCH);
    assert_eq!(req.header.len, 6);
}

#[test]
fn oversized_write_is_refused_locally() {
    let path = "p".repeat(4000);
    let value = "v".repeat(95);
    assert_eq!(write_request(&path, &value).unwrap().header.len, 4096);
    let value = "v".repeat(96);
    assert!(matches!(write_request(&path, &value), Err(StoreError::TooBig)));
    let huge = "x".repeat(5000);
    assert!(matches!(read_request(&huge), Err(StoreError::TooBig)));
}

#[test]
fn interior_nul_is_refused() {
    assert!(matches!(read_request("a\0b"), Err(StoreError::InteriorNul)));
    assert!(matches!(write_request("a", "b\0"), Err(StoreError::InteriorNul)));
    assert!(matches!(watch_request("a", "\0"), Err(StoreError::InteriorNul)));
}

#[test]
fn write_then_read_round_trip_on_the_wire() {
    let w = write_request("data/key", "v").unwrap();
    assert_eq!(w.body, b"data/key\0v".to_vec());
    let ack = deliver(XS_WRITE, b"OK\0");
    assert_eq!(ack.channel, Channel::Reply);
    assert!(check_reply(XS_WRITE, ack.message).is_ok());
    let r = read_request("data/key").unwrap();
    assert_eq!(r.body, b"data/key\0".to_vec());
    let reply = deliver(XS_READ, b"v");
    assert_eq!(check_reply(XS_READ, reply.message).unwrap(), "v");
}

#[test]
fn watch_event_goes_to_watch_channel_only() {
    let mut replies = ReplyQueue::new();
    let mut watches = WatchQueue::new();
    let incoming = vec![deliver(XS_WATCH_EVENT, b"/a\0tok"), deliver(XS_READ, b"value")];
    for routed in incoming {
        match routed.channel {
            Channel::Reply => replies.push(routed.message),
            Channel::Watch => watches.push(routed.message),
        }
    }
    let reply = replies.pop().unwrap();
    assert_eq!(check_reply(XS_READ, reply).unwrap(), "value");
    assert!(replies.is_empty());
    let event = watches.pop().unwrap();
    assert_eq!(watch_field(event, XS_WATCH_PATH).unwrap(), "/a");
}

#[test]
fn watch_event_taken_as_reply_is_a_mismatch() {
    let routed = deliver(XS_WATCH_EVENT, b"/a\0tok");
    assert!(matches!(
        check_reply(XS_READ, routed.message),
        Err(StoreError::KindMismatch)
    ));
}

#[test]
fn unknown_kind_is_transaction_error_on_reply_channel() {
    let routed = deliver(99, b"zz");
    assert_eq!(routed.channel, Channel::Reply);
    assert!(matches!(routed.message, Err(StoreError::UnknownKind)));
}

#[test]
fn invalid_text_is_data_error() {
    let routed = deliver(XS_READ, &[0xff, 0xfe]);
    assert!(matches!(routed.message, Err(StoreError::InvalidData)));
    let routed = deliver(XS_WATCH_EVENT, &[0xc3]);
    assert_eq!(routed.channel, Channel::Watch);
    assert!(matches!(routed.message, Err(StoreError::InvalidData)));
}

#[test]
fn empty_read_reply_is_empty_text() {
    let routed = deliver(XS_READ, b"");
    assert_eq!(check_reply(XS_READ, routed.message).unwrap(), "");
}

#[test]
fn text_body_is_decoded() {
    let routed = deliver(XS_READ, "h\u{e9}".as_bytes());
    match routed.message {
        Ok(XenStoreMessage { kind, body }) => {
            assert_eq!(kind, XS_READ);
            assert_eq!(body, "h\u{e9}");
        }
        Err(e) => panic!("unexpected {:?}", e),
    }
}

#[test]
fn errors_pass_through_check_reply() {
    assert!(matches!(
        check_reply(XS_READ, Err(StoreError::Disconnected)),
        Err(StoreError::Disconnected)
    ));
}

#[test]
fn notification_count_follows_watch_queue() {
    let mut q = WatchQueue::new();
    assert_eq!(q.pending(), 0);
    for _ in 0..3 {
        q.push(deliver(XS_WATCH_EVENT, b"p\0t").message);
    }
    assert_eq!(q.pending(), 3);
    assert!(q.pop().is_some());
    assert_eq!(q.pending(), 2);
    assert!(q.pop().is_some());
    assert!(q.pop().is_some());
    assert!(q.pop().is_none());
    assert_eq!(q.pending(), 0);
    assert!(q.is_empty());
    assert!(q.has_room());
}

#[test]
fn watch_fields_by_index() {
    let ev = || deliver(XS_WATCH_EVENT, b"/local/x\0mytoken").message;
    assert_eq!(watch_field(ev(), XS_WATCH_PATH).unwrap(), "/local/x");
    assert_eq!(watch_field(ev(), XS_WATCH_TOKEN).unwrap(), "mytoken");
    assert!(matches!(watch_field(ev(), 2), Err(StoreError::FieldOutOfRange)));
    let trailing = deliver(XS_WATCH_EVENT, b"a\0b\0").message;
    assert_eq!(watch_field(trailing, 2).unwrap(), "");
}

#[test]
fn watch_field_rejects_non_event() {
    let msg = Ok(XenStoreMessage { kind: XS_READ, body: String::from("a") });
    assert!(matches!(watch_field(msg, 0), Err(StoreError::InvalidData)));
}

#[test]
fn directory_entries_parse() {
    assert_eq!(parse_directory("1\u{0}2\u{0}\u{0}3").unwrap(), vec![1, 2, 3]);
    assert_eq!(parse_directory("").unwrap(), Vec::<i32>::new());
    assert_eq!(parse_directory("\u{0}\u{0}").unwrap(), Vec::<i32>::new());
    assert_eq!(parse_directory("-5\u{0}+7\u{0}").unwrap(), vec![-5, 7]);
    assert_eq!(parse_directory("2147483647").unwrap(), vec![i32::MAX]);
    assert_eq!(parse_directory("-2147483648").unwrap(), vec![i32::MIN]);
    assert_eq!(parse_directory("007").unwrap(), vec![7]);
}

#[test]
fn directory_bad_entries_are_data_errors() {
    assert!(matches!(parse_directory("abc"), Err(StoreError::InvalidData)));
    assert!(matches!(parse_directory("1\u{0}x"), Err(StoreError::InvalidData)));
    assert!(matches!(parse_directory("2147483648"), Err(StoreError::InvalidData)));
    assert!(matches!(parse_directory("-"), Err(StoreError::InvalidData)));
    assert!(matches!(parse_directory("+"), Err(StoreError::InvalidData)));
}
