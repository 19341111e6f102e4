use bytes::Bytes;
use nats_connect::connection::{deliver_polled, split_payload};
use nats_connect::{Connection, Message, MessageError, Polled};

fn data(payload: &'static [u8]) -> Message {
    Message {
        payload: Bytes::from_static(payload),
        reply: None,
        status: None,
        description: None,
    }
}

fn fresh() -> Connection {
    Connection::new("_INBOX.peer".to_string(), "_INBOX.own".to_string())
}

fn ready(payload: &'static [u8]) -> Polled<Result<Bytes, MessageError>> {
    Polled::Ready(Ok(Bytes::from_static(payload)))
}

#[test]
fn new_connection_keeps_nothing_back() {
    let conn = fresh();
    assert_eq!(conn.outbound(), "_INBOX.peer");
    assert_eq!(conn.inbox(), "_INBOX.own");
    assert_eq!(conn.buffered(), 0);
}

#[test]
fn payload_that_fits_is_handed_out_whole() {
    let (head, rest) = split_payload(Bytes::from_static(b"ping"), 4);
    assert_eq!(head, Bytes::from_static(b"ping"));
    assert_eq!(rest, None);
    let (head, rest) = split_payload(Bytes::from_static(b"ping"), 100);
    assert_eq!(head, Bytes::from_static(b"ping"));
    assert_eq!(rest, None);
}

#[test]
fn payload_that_does_not_fit_is_split_at_the_capacity() {
    let (head, rest) = split_payload(Bytes::from_static(b"hello world"), 5);
    assert_eq!(head, Bytes::from_static(b"hello"));
    assert_eq!(rest, Some(Bytes::from_static(b" world")));
}

#[test]
fn no_room_at_all_keeps_the_whole_payload_back() {
    let (head, rest) = split_payload(Bytes::from_static(b"abc"), 0);
    assert_eq!(head, Bytes::new());
    assert_eq!(rest, Some(Bytes::from_static(b"abc")));
}

#[test]
fn empty_payload_is_handed_out_empty() {
    let (head, rest) = split_payload(Bytes::new(), 0);
    assert_eq!(head, Bytes::new());
    assert_eq!(rest, None);
}

#[test]
fn pending_subscription_leaves_the_read_pending() {
    assert_eq!(deliver_polled(Polled::Pending, 8), (Polled::Pending, None));
    let mut conn = fresh();
    assert_eq!(conn.poll_read(8, || Polled::Pending), Polled::Pending);
    assert_eq!(conn.buffered(), 0);
}

#[test]
fn closed_subscription_ends_the_stream_with_no_octets() {
    assert_eq!(
        deliver_polled(Polled::Ready(None), 8),
        (Polled::Ready(Ok(Bytes::new())), None)
    );
    let mut conn = fresh();
    assert_eq!(conn.poll_read(8, || Polled::Ready(None)), ready(b""));
    assert_eq!(conn.poll_read(8, || Polled::Ready(None)), ready(b""));
    assert_eq!(conn.buffered(), 0);
}

#[test]
fn message_that_fits_is_read_in_one_go() {
    let mut conn = fresh();
    let out = conn.poll_read(16, || Polled::Ready(Some(data(b"ping"))));
    assert_eq!(out, ready(b"ping"));
    assert_eq!(conn.buffered(), 0);
}

#[test]
fn message_of_exactly_the_capacity_leaves_nothing_behind() {
    let mut conn = fresh();
    let out = conn.poll_read(4, || Polled::Ready(Some(data(b"ping"))));
    assert_eq!(out, ready(b"ping"));
    assert_eq!(conn.buffered(), 0);
}

#[test]
fn oversized_message_is_cut_and_the_rest_kept_back() {
    let mut conn = fresh();
    let out = conn.poll_read(5, || Polled::Ready(Some(data(b"hello world"))));
    assert_eq!(out, ready(b"hello"));
    assert_eq!(conn.buffered(), 6);
}

#[test]
fn remainder_is_served_without_asking_the_subscription() {
    let mut conn = fresh();
    conn.poll_read(5, || Polled::Ready(Some(data(b"hello world"))));
    let out = conn.poll_read(4, || panic!("the subscription must not be asked"));
    assert_eq!(out, ready(b" wor"));
    assert_eq!(conn.buffered(), 2);
    let out = conn.poll_read(4, || panic!("the subscription must not be asked"));
    assert_eq!(out, ready(b"ld"));
    assert_eq!(conn.buffered(), 0);
    let out = conn.poll_read(4, || Polled::Ready(Some(data(b"!"))));
    assert_eq!(out, ready(b"!"));
}

#[test]
fn repeated_reads_reconstruct_an_oversized_payload() {
    let payload: &'static [u8] = b"0123456789";
    let capacity = 3;
    let mut conn = fresh();
    let mut seen = Vec::new();
    let mut reads = 0;
    let mut arrived = false;
    while !arrived || conn.buffered() > 0 {
        let out = conn.poll_read(capacity, || {
            arrived = true;
            Polled::Ready(Some(data(payload)))
        });
        match out {
            Polled::Ready(Ok(chunk)) => {
                assert!(chunk.len() <= capacity);
                seen.extend_from_slice(&chunk);
            }
            other => panic!("unexpected read result: {other:?}"),
        }
        reads += 1;
    }
    assert_eq!(seen, payload);
    assert_eq!(reads, 4);
}

#[test]
fn reads_hand_out_the_expected_pieces() {
    let mut conn = fresh();
    let mut pieces = Vec::new();
    pieces.push(conn.poll_read(4, || Polled::Ready(Some(data(b"abcdefghij")))));
    pieces.push(conn.poll_read(4, || Polled::Pending));
    pieces.push(conn.poll_read(4, || Polled::Pending));
    assert_eq!(pieces, vec![ready(b"abcd"), ready(b"efgh"), ready(b"ij")]);
    assert_eq!(conn.poll_read(4, || Polled::Pending), Polled::Pending);
}

#[test]
fn read_with_no_room_hands_out_nothing_and_loses_nothing() {
    let mut conn = fresh();
    let out = conn.poll_read(0, || Polled::Ready(Some(data(b"abc"))));
    assert_eq!(out, ready(b""));
    assert_eq!(conn.buffered(), 3);
    assert_eq!(conn.poll_read(0, || Polled::Pending), ready(b""));
    assert_eq!(conn.buffered(), 3);
    assert_eq!(conn.poll_read(8, || Polled::Pending), ready(b"abc"));
    assert_eq!(conn.buffered(), 0);
}

#[test]
fn failed_message_fails_the_read_and_keeps_nothing_back() {
    let mut conn = fresh();
    let mut msg = data(b"not stream data");
    msg.status = Some(503);
    let out = conn.poll_read(4, || Polled::Ready(Some(msg)));
    assert_eq!(out, Polled::Ready(Err(MessageError::ConnectionRefused)));
    assert_eq!(conn.buffered(), 0);
    let out = conn.poll_read(4, || Polled::Ready(Some(data(b"ok"))));
    assert_eq!(out, ready(b"ok"));
}

#[test]
fn each_failure_status_fails_the_read_with_its_failure() {
    let cases = [
        (408, MessageError::TimedOut),
        (409, MessageError::RemoteTerminated),
        (
            500,
            MessageError::Broker {
                code: 500,
                description: Some("boom".to_string()),
            },
        ),
    ];
    for (status, expected) in cases {
        let mut msg = data(b"");
        msg.status = Some(status);
        msg.description = Some("boom".to_string());
        assert_eq!(
            deliver_polled(Polled::Ready(Some(msg)), 4),
            (Polled::Ready(Err(expected)), None)
        );
    }
}

#[test]
fn reply_subject_of_a_data_message_is_ignored() {
    let mut msg = data(b"payload");
    msg.reply = Some("somewhere.else".to_string());
    let mut conn = fresh();
    assert_eq!(conn.poll_read(3, || Polled::Ready(Some(msg))), ready(b"pay"));
    assert_eq!(conn.outbound(), "_INBOX.peer");
    assert_eq!(conn.inbox(), "_INBOX.own");
    assert_eq!(conn.buffered(), 4);
}

#[test]
fn messages_are_read_in_the_order_they_arrived() {
    let mut queue = vec![data(b"one"), data(b"two!"), data(b""), data(b"three")];
    queue.reverse();
    let mut conn = fresh();
    let mut seen = Vec::new();
    let mut chunks = 0;
    loop {
        match conn.poll_read(2, || match queue.pop() {
            Some(msg) => Polled::Ready(Some(msg)),
            None => Polled::Pending,
        }) {
            Polled::Ready(Ok(chunk)) => {
                seen.extend_from_slice(&chunk);
                chunks += 1;
            }
            Polled::Pending => break,
            Polled::Ready(Err(e)) => panic!("unexpected failure: {e:?}"),
        }
    }
    assert_eq!(seen, b"onetwo!three");
    assert_eq!(chunks, 2 + 2 + 1 + 3);
}

#[test]
fn two_connections_buffer_independently() {
    let mut a = Connection::new("_INBOX.b".to_string(), "_INBOX.a".to_string());
    let mut b = Connection::new("_INBOX.a".to_string(), "_INBOX.b".to_string());
    assert_eq!(a.poll_read(1, || Polled::Ready(Some(data(b"xyz")))), ready(b"x"));
    assert_eq!(a.buffered(), 2);
    assert_eq!(b.buffered(), 0);
    assert_eq!(b.poll_read(1, || Polled::Pending), Polled::Pending);
    assert_eq!(a.poll_read(1, || Polled::Pending), ready(b"y"));
    assert_eq!(b.poll_read(8, || Polled::Ready(Some(data(b"pq")))), ready(b"pq"));
    assert_eq!(a.poll_read(1, || Polled::Pending), ready(b"z"));
}
