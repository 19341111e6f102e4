use bytes::Bytes;
use nats_connect::{accept, connect, Connection, HandshakeError, Message, MessageError, Polled};
use std::cell::RefCell;
use std::collections::{HashMap, VecDeque};

/// A broker in memory: one queue for each subscribed subject.
struct Broker {
    queues: RefCell<HashMap<String, VecDeque<Message>>>,
}

impl Broker {
    fn new() -> Broker {
        Broker {
            queues: RefCell::new(HashMap::new()),
        }
    }

    fn subscribe(&self, subject: &str) {
        self.queues
            .borrow_mut()
            .insert(subject.to_string(), VecDeque::new());
    }

    fn unsubscribe(&self, subject: &str) {
        self.queues.borrow_mut().remove(subject);
    }

    /// Delivers to the subscriber of `subject`. A request that nobody listens
    /// for is answered on its reply subject with the no-responders status.
    fn publish(&self, subject: &str, reply: Option<&str>, payload: Bytes) {
        let mut queues = self.queues.borrow_mut();
        if let Some(queue) = queues.get_mut(subject) {
            queue.push_back(Message {
                payload,
                reply: reply.map(str::to_string),
                status: None,
                description: None,
            });
        } else if let Some(queue) = reply.and_then(|reply| queues.get_mut(reply)) {
            queue.push_back(Message {
                payload: Bytes::new(),
                reply: None,
                status: Some(503),
                description: None,
            });
        }
    }

    /// The next message for `subject` without waiting; a subject that is no
    /// longer subscribed to reports the end of its subscription.
    fn poll_next(&self, subject: &str) -> Polled<Option<Message>> {
        match self.queues.borrow_mut().get_mut(subject) {
            None => Polled::Ready(None),
            Some(queue) => match queue.pop_front() {
                Some(msg) => Polled::Ready(Some(msg)),
                None => Polled::Pending,
            },
        }
    }

    fn next(&self, subject: &str) -> Option<Message> {
        match self.poll_next(subject) {
            Polled::Ready(msg) => msg,
            Polled::Pending => None,
        }
    }
}

fn client() -> async_nats::Client {
    let runtime = tokio::runtime::Builder::new_current_thread()
        .enable_all()
        .build()
        .unwrap();
    runtime
        .block_on(
            async_nats::ConnectOptions::new()
                .retry_on_initial_connect()
                .connect("nats://127.0.0.1:4222"),
        )
        .unwrap()
}

fn write_all(broker: &Broker, conn: &Connection, limit: usize, mut buf: &[u8]) {
    while !buf.is_empty() {
        match conn.poll_write_capped(limit, buf, |subject, payload| {
            broker.publish(&subject, None, payload);
            Polled::Ready(Ok(()))
        }) {
            Polled::Ready(Ok(n)) => buf = &buf[n..],
            other => panic!("unexpected write result: {other:?}"),
        }
    }
}

fn read(broker: &Broker, conn: &mut Connection, capacity: usize) -> Polled<Vec<u8>> {
    let inbox = conn.inbox().to_string();
    match conn.poll_read(capacity, || broker.poll_next(&inbox)) {
        Polled::Ready(Ok(chunk)) => Polled::Ready(chunk.to_vec()),
        Polled::Pending => Polled::Pending,
        Polled::Ready(Err(e)) => panic!("unexpected read failure: {e:?}"),
    }
}

fn read_until_pending(broker: &Broker, conn: &mut Connection, capacity: usize) -> Vec<u8> {
    let mut seen = Vec::new();
    while let Polled::Ready(chunk) = read(broker, conn, capacity) {
        seen.extend_from_slice(&chunk);
    }
    seen
}

fn establish(broker: &Broker, nats: &async_nats::Client) -> (Connection, Connection, Bytes) {
    broker.subscribe("svc.echo");

    let step = connect(nats, "svc.echo".to_string(), Bytes::from_static(b"hello"));
    broker.subscribe(&step.inbox);
    let step = step.subscribed(Ok(())).unwrap();
    broker.publish(&step.subject, Some(&step.inbox), step.payload.clone());
    let initiator = step.published(Ok(())).unwrap();

    let request = broker.next("svc.echo");
    let step = accept(nats, request, |payload| {
        assert_eq!(payload, Bytes::from_static(b"hello"));
        Ok(Bytes::new())
    })
    .unwrap();
    broker.subscribe(&step.inbox);
    let step = step.subscribed(Ok(())).unwrap();
    broker.publish(&step.subject, Some(&step.inbox), step.payload.clone());
    let responder = step.published(Ok(())).unwrap();

    let reply = broker.next(&initiator.inbox);
    let (initiator, payload) = initiator.received(reply).unwrap();
    (initiator, responder, payload)
}

#[test]
fn echo_service_end_to_end() {
    let broker = Broker::new();
    let nats = client();
    let (mut initiator, mut responder, payload) = establish(&broker, &nats);
    assert_eq!(payload, Bytes::new());
    assert_eq!(initiator.outbound(), responder.inbox());
    assert_eq!(responder.outbound(), initiator.inbox());

    assert_eq!(read(&broker, &mut responder, 64), Polled::Pending);
    write_all(&broker, &initiator, 1024, b"ping");
    assert_eq!(read(&broker, &mut responder, 64), Polled::Ready(b"ping".to_vec()));
    assert_eq!(read(&broker, &mut initiator, 64), Polled::Pending);
    write_all(&broker, &responder, 1024, b"pong");
    assert_eq!(read(&broker, &mut initiator, 64), Polled::Ready(b"pong".to_vec()));

    broker.unsubscribe(initiator.inbox());
    broker.unsubscribe(responder.inbox());
    assert_eq!(read(&broker, &mut initiator, 64), Polled::Ready(Vec::new()));
    assert_eq!(read(&broker, &mut responder, 64), Polled::Ready(Vec::new()));
}

#[test]
fn connect_to_a_subject_without_listener_is_refused() {
    let broker = Broker::new();
    let nats = client();
    let step = connect(&nats, "svc.echo".to_string(), Bytes::from_static(b"hello"));
    broker.subscribe(&step.inbox);
    let step = step.subscribed(Ok(())).unwrap();
    broker.publish(&step.subject, Some(&step.inbox), step.payload.clone());
    let step = step.published(Ok(())).unwrap();
    let reply = broker.next(&step.inbox);
    assert!(matches!(
        step.received(reply),
        Err(HandshakeError::Message(MessageError::ConnectionRefused))
    ));
}

#[test]
fn rejected_handshake_publishes_no_reply() {
    let broker = Broker::new();
    let nats = client();
    broker.subscribe("svc.echo");
    let step = connect(&nats, "svc.echo".to_string(), Bytes::from_static(b"hello"));
    broker.subscribe(&step.inbox);
    let step = step.subscribed(Ok(())).unwrap();
    broker.publish(&step.subject, Some(&step.inbox), step.payload.clone());
    let initiator = step.published(Ok(())).unwrap();

    let request = broker.next("svc.echo");
    let out = accept(&nats, request, |_| {
        Err(std::io::Error::new(std::io::ErrorKind::Other, "go away"))
    });
    match out {
        Err(HandshakeError::Callback(e)) => assert_eq!(e.to_string(), "go away"),
        other => panic!("unexpected result: {other:?}"),
    }
    assert_eq!(broker.poll_next(&initiator.inbox), Polled::Pending);
    assert_eq!(broker.queues.borrow().len(), 2);
}

#[test]
fn large_transfer_crosses_small_limits_intact() {
    let broker = Broker::new();
    let nats = client();
    let (mut initiator, mut responder, _) = establish(&broker, &nats);
    let sent: Vec<u8> = (0..1000u32).map(|i| (i % 251) as u8).collect();
    write_all(&broker, &initiator, 7, &sent);
    assert_eq!(read_until_pending(&broker, &mut responder, 3), sent);
    write_all(&broker, &responder, 64, &sent);
    assert_eq!(read_until_pending(&broker, &mut initiator, 1000), sent);
    write_all(&broker, &initiator, 1, &sent[..10]);
    assert_eq!(read_until_pending(&broker, &mut responder, 1), &sent[..10]);
}

#[test]
fn two_connections_on_one_subject_do_not_mix() {
    let broker = Broker::new();
    let nats = client();
    let (mut first_i, mut first_r, _) = establish(&broker, &nats);
    let (mut second_i, mut second_r, _) = establish(&broker, &nats);
    let inboxes = [
        first_i.inbox().to_string(),
        first_r.inbox().to_string(),
        second_i.inbox().to_string(),
        second_r.inbox().to_string(),
    ];
    for (i, a) in inboxes.iter().enumerate() {
        for b in &inboxes[i + 1..] {
            assert_ne!(a, b);
        }
    }
    write_all(&broker, &first_i, 4, b"to the first");
    write_all(&broker, &second_i, 4, b"to the second");
    assert_eq!(read(&broker, &mut first_r, 2), Polled::Ready(b"to".to_vec()));
    assert_eq!(first_r.buffered(), 2);
    assert_eq!(second_r.buffered(), 0);
    assert_eq!(read_until_pending(&broker, &mut second_r, 5), b"to the second");
    assert_eq!(read_until_pending(&broker, &mut first_r, 5), b" the first");
    assert_eq!(read(&broker, &mut first_i, 8), Polled::Pending);
    assert_eq!(read(&broker, &mut second_i, 8), Polled::Pending);
}
