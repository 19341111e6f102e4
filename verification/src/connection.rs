//! The established duplex stream.
//!
//! A [`Connection`] writes by publishing to the peer's private inbox and reads
//! from the subscription on its own private inbox. The broker delivers whole
//! messages, while a reader asks for as many octets as it has room for, so the
//! connection keeps back what did not fit and serves it first on the next read.
//!
//! Reading and writing never wait. Each operation is handed the one broker call
//! it may need as a function, makes it at most once, and reports
//! [`Polled::Pending`] when the broker was not ready.

use crate::broker::max_payload;
use crate::buffer::contents;
use crate::message::{
    classify, process_message, Message, MessageError, MessageErrorView, MessageView,
};
use bytes::Bytes;
use vstd::prelude::*;

verus! {

/// The answer of an operation that never waits.
#[derive(Debug, PartialEq, Eq)]
pub enum Polled<T> {
    /// The operation is done, with this result.
    Ready(T),
    /// The broker was not ready; ask again later.
    Pending,
}

/// Why a write failed: the broker client could not publish.
#[derive(Debug, PartialEq, Eq)]
pub struct PublishError {
    /// The broker client's own account of the failure.
    pub reason: String,
}

/// What a reader with room for `capacity` octets is handed of `payload`, and
/// what is kept back for the next read: nothing when the payload fits, else
/// everything after the first `capacity` octets.
pub open spec fn serve(payload: Seq<u8>, capacity: nat) -> (Seq<u8>, Option<Seq<u8>>) {
    if payload.len() > capacity {
        (payload.take(capacity as int), Some(payload.skip(capacity as int)))
    } else {
        (payload, None)
    }
}

/// What a read that found nothing kept back makes of the subscription's
/// answer, for a reader with room for `capacity` octets: the result of the
/// read, and what is kept back for the next one.
///
/// No message yet leaves the read pending. A closed subscription ends the
/// stream: the read succeeds with no octets. A message is classified; a failure
/// is the read's failure, and a payload is served as [`serve`] says. The reply
/// subject of a data message plays no part.
pub open spec fn deliver(polled: Polled<Option<MessageView>>, capacity: nat) -> (
    Polled<Result<Seq<u8>, MessageErrorView>>,
    Option<Seq<u8>>,
) {
    match polled {
        Polled::Pending => (Polled::Pending, None),
        Polled::Ready(None) => (Polled::Ready(Ok(Seq::empty())), None),
        Polled::Ready(Some(msg)) => match classify(msg) {
            Err(e) => (Polled::Ready(Err(e)), None),
            Ok((payload, _)) => (
                Polled::Ready(Ok(serve(payload, capacity).0)),
                serve(payload, capacity).1,
            ),
        },
    }
}

/// One read of a connection that keeps back `remainder`, for a reader with room
/// for `capacity` octets, when asking the subscription would answer `polled`:
/// the result of the read and what is kept back afterwards. What was kept back
/// is served first, and then the subscription is not asked at all.
pub open spec fn read(
    remainder: Option<Seq<u8>>,
    polled: Polled<Option<MessageView>>,
    capacity: nat,
) -> (Polled<Result<Seq<u8>, MessageErrorView>>, Option<Seq<u8>>) {
    match remainder {
        Some(rest) => (Polled::Ready(Ok(serve(rest, capacity).0)), serve(rest, capacity).1),
        None => deliver(polled, capacity),
    }
}

/// The part of `buf` that one write publishes while the broker accepts payloads
/// of up to `limit` octets: all of it when it fits, else its first `limit`
/// octets.
pub open spec fn outgoing(buf: Seq<u8>, limit: nat) -> Seq<u8> {
    if buf.len() <= limit {
        buf
    } else {
        buf.take(limit as int)
    }
}

/// The result of a write that published `accepted` octets, given the broker
/// client's answer to the publish.
pub open spec fn written(accepted: nat, polled: Polled<Result<(), Seq<char>>>) -> Polled<
    Result<nat, Seq<char>>,
> {
    match polled {
        Polled::Pending => Polled::Pending,
        Polled::Ready(Ok(())) => Polled::Ready(Ok(accepted)),
        Polled::Ready(Err(reason)) => Polled::Ready(Err(reason)),
    }
}

/// The mathematical value of a subscription's answer.
pub open spec fn subscription_answer(polled: Polled<Option<Message>>) -> Polled<
    Option<MessageView>,
> {
    match polled {
        Polled::Pending => Polled::Pending,
        Polled::Ready(None) => Polled::Ready(None),
        Polled::Ready(Some(msg)) => Polled::Ready(Some(msg@)),
    }
}

/// The mathematical value of a read's result.
pub open spec fn read_result(out: Polled<Result<Bytes, MessageError>>) -> Polled<
    Result<Seq<u8>, MessageErrorView>,
> {
    match out {
        Polled::Pending => Polled::Pending,
        Polled::Ready(Ok(bytes)) => Polled::Ready(Ok(contents(bytes))),
        Polled::Ready(Err(e)) => Polled::Ready(Err(e@)),
    }
}

/// The mathematical value of the broker client's answer to a publish.
pub open spec fn publish_answer(polled: Polled<Result<(), String>>) -> Polled<
    Result<(), Seq<char>>,
> {
    match polled {
        Polled::Pending => Polled::Pending,
        Polled::Ready(Ok(())) => Polled::Ready(Ok(())),
        Polled::Ready(Err(reason)) => Polled::Ready(Err(reason@)),
    }
}

/// The mathematical value of a write's result.
pub open spec fn write_result(out: Polled<Result<usize, PublishError>>) -> Polled<
    Result<nat, Seq<char>>,
> {
    match out {
        Polled::Pending => Polled::Pending,
        Polled::Ready(Ok(n)) => Polled::Ready(Ok(n as nat)),
        Polled::Ready(Err(e)) => Polled::Ready(Err(e.reason@)),
    }
}

/// Hands a reader with room for `capacity` octets its share of a payload.
///
/// Returns what the reader gets and what has to be kept back, exactly as
/// [`serve`] says.
pub fn split_payload(payload: Bytes, capacity: usize) -> (out: (Bytes, Option<Bytes>))
    ensures
        contents(out.0) == serve(contents(payload), capacity as nat).0,
        remainder_view(out.1) == serve(contents(payload), capacity as nat).1,
        out.1 matches Some(rest) ==> contents(rest).len() > 0,
{
    let mut payload = payload;
    if payload.len() > capacity {
        let rest = payload.split_off(capacity);
        (payload, Some(rest))
    } else {
        (payload, None)
    }
}

/// The octets kept back, if any.
pub open spec fn remainder_view(rest: Option<Bytes>) -> Option<Seq<u8>> {
    match rest {
        Some(bytes) => Some(contents(bytes)),
        None => None,
    }
}

/// Turns the subscription's answer into the result of a read that found
/// nothing kept back, for a reader with room for `capacity` octets.
///
/// Returns the result of the read and what has to be kept back, exactly as
/// [`deliver`] says.
pub fn deliver_polled(polled: Polled<Option<Message>>, capacity: usize) -> (out: (
    Polled<Result<Bytes, MessageError>>,
    Option<Bytes>,
))
    ensures
        read_result(out.0) == deliver(subscription_answer(polled), capacity as nat).0,
        remainder_view(out.1) == deliver(subscription_answer(polled), capacity as nat).1,
        out.1 matches Some(rest) ==> contents(rest).len() > 0,
{
    match polled {
        Polled::Pending => (Polled::Pending, None),
        Polled::Ready(None) => (Polled::Ready(Ok(Bytes::new())), None),
        Polled::Ready(Some(msg)) => match process_message(msg) {
            Err(e) => (Polled::Ready(Err(e)), None),
            Ok((payload, _)) => {
                let (head, rest) = split_payload(payload, capacity);
                (Polled::Ready(Ok(head)), rest)
            },
        },
    }
}

/// Cuts from `buf` what one write publishes while the broker accepts payloads
/// of up to `limit` octets, exactly as [`outgoing`] says.
pub fn chunk(buf: &[u8], limit: usize) -> (out: Bytes)
    ensures
        contents(out) == outgoing(buf@, limit as nat),
{
    let n = if buf.len() <= limit {
        buf.len()
    } else {
        limit
    };
    let (head, _) = buf.split_at(n);
    proof {
        assert(head@ == outgoing(buf@, limit as nat));
    }
    Bytes::copy_from_slice(head)
}

/// Turns the broker client's answer to a publish of `accepted` octets into the
/// result of the write, exactly as [`written`] says: pending stays pending,
/// success reports `accepted`, and a failure carries the client's account.
pub fn publish_polled(accepted: usize, polled: Polled<Result<(), String>>) -> (out: Polled<
    Result<usize, PublishError>,
>)
    ensures
        write_result(out) == written(accepted as nat, publish_answer(polled)),
{
    match polled {
        Polled::Pending => Polled::Pending,
        Polled::Ready(Ok(())) => Polled::Ready(Ok(accepted)),
        Polled::Ready(Err(reason)) => Polled::Ready(Err(PublishError { reason })),
    }
}

/// One end of an established duplex stream.
///
/// It holds the subject it publishes to (the peer's private inbox), the subject
/// of the subscription it reads from (its own private inbox), and at most one
/// remainder: octets of a message already received that the reader had no room
/// for. A remainder is never empty.
#[derive(Debug)]
pub struct Connection {
    tx: String,
    inbox: String,
    rx_buffer: Option<Bytes>,
}

/// What a [`Connection`] is, mathematically.
pub struct ConnectionView {
    /// The subject that writes are published to.
    pub outbound: Seq<char>,
    /// The subject of the subscription that reads are served from.
    pub inbox: Seq<char>,
    /// The octets kept back from the last message read, if any.
    pub remainder: Option<Seq<u8>>,
}

impl View for Connection {
    type V = ConnectionView;

    closed spec fn view(&self) -> ConnectionView {
        ConnectionView {
            outbound: self.tx@,
            inbox: self.inbox@,
            remainder: remainder_view(self.rx_buffer),
        }
    }
}

impl ConnectionView {
    /// A remainder, when there is one, is not empty.
    pub open spec fn wf(self) -> bool {
        self.remainder matches Some(rest) ==> rest.len() > 0
    }
}

impl Connection {
    /// A connection that publishes to `tx` and reads from the subscription on
    /// `inbox`, with nothing kept back.
    pub fn new(tx: String, inbox: String) -> (conn: Connection)
        ensures
            conn@ == (ConnectionView { outbound: tx@, inbox: inbox@, remainder: None }),
            conn@.wf(),
    {
        Connection { tx, inbox, rx_buffer: None }
    }

    /// The subject that writes are published to: the peer's private inbox.
    pub fn outbound(&self) -> (subject: &str)
        ensures
            subject@ == self@.outbound,
    {
        self.tx.as_str()
    }

    /// The subject of the subscription that reads are served from: this
    /// side's private inbox.
    pub fn inbox(&self) -> (subject: &str)
        ensures
            subject@ == self@.inbox,
    {
        self.inbox.as_str()
    }

    /// The number of octets kept back for the next read: zero when nothing is
    /// kept back.
    pub fn buffered(&self) -> (n: usize)
        ensures
            n == match self@.remainder {
                Some(rest) => rest.len(),
                None => 0,
            },
    {
        match &self.rx_buffer {
            Some(rest) => rest.len(),
            None => 0,
        }
    }

    /// Reads into room for `capacity` octets.
    ///
    /// What was kept back from an earlier message is served first, and then
    /// `poll_next` is not called: it need not even be callable, and the read is
    /// the same whatever the subscription would have answered. Otherwise
    /// `poll_next` is called once, to ask the subscription on this connection's
    /// inbox for its next message without waiting, and its answer decides the
    /// read as [`deliver`] says. Either way the result and the new remainder
    /// are those of [`read`]; in particular a failed or pending read keeps
    /// nothing back, and no read changes the two subjects.
    pub fn poll_read<F: FnOnce() -> Polled<Option<Message>>>(
        &mut self,
        capacity: usize,
        poll_next: F,
    ) -> (out: Polled<Result<Bytes, MessageError>>)
        requires
            old(self)@.remainder is None ==> call_requires(poll_next, ()),
        ensures
            final(self)@.wf(),
            final(self)@.outbound == old(self)@.outbound,
            final(self)@.inbox == old(self)@.inbox,
            old(self)@.remainder is Some ==> forall|polled: Polled<Option<MessageView>>|
                (read_result(out), final(self)@.remainder) == #[trigger] read(
                    old(self)@.remainder,
                    polled,
                    capacity as nat,
                ),
            old(self)@.remainder is None ==> exists|polled: Polled<Option<Message>>|
                call_ensures(poll_next, (), polled) && (read_result(out), final(self)@.remainder)
                    == read(None, subscription_answer(polled), capacity as nat),
    {
        let (out, rest) = match self.rx_buffer.take() {
            Some(buffer) => {
                let (head, rest) = split_payload(buffer, capacity);
                (Polled::Ready(Ok(head)), rest)
            },
            None => deliver_polled(poll_next(), capacity),
        };
        self.rx_buffer = rest;
        out
    }

    /// Writes from `buf` while the broker accepts payloads of up to `limit`
    /// octets.
    ///
    /// Calls `publish` once, with this connection's outbound subject and the
    /// part of `buf` that [`outgoing`] selects, to hand that payload to the
    /// broker without waiting. The result is that of [`written`]: on success
    /// the number of octets published, which is never more than `limit`.
    /// Nothing is retried and nothing is kept: the connection is unchanged.
    pub fn poll_write_capped<F: FnOnce(String, Bytes) -> Polled<Result<(), String>>>(
        &self,
        limit: usize,
        buf: &[u8],
        publish: F,
    ) -> (out: Polled<Result<usize, PublishError>>)
        requires
            forall|subject: String, payload: Bytes|
                subject@ == self@.outbound && contents(payload) == outgoing(buf@, limit as nat)
                    ==> call_requires(publish, (subject, payload)),
        ensures
            exists|subject: String, payload: Bytes, polled: Polled<Result<(), String>>|
                subject@ == self@.outbound && contents(payload) == outgoing(buf@, limit as nat)
                    && call_ensures(publish, (subject, payload), polled) && write_result(out)
                    == written(outgoing(buf@, limit as nat).len(), publish_answer(polled)),
    {
        let payload = chunk(buf, limit);
        let accepted = payload.len();
        let polled = publish(self.tx.clone(), payload);
        publish_polled(accepted, polled)
    }

    /// Writes from `buf`, cut to the payload limit that the broker advertises
    /// at this moment.
    ///
    /// The limit is asked of `nats` on every call, since it may change; the
    /// rest is [`Connection::poll_write_capped`] with that limit.
    pub fn poll_write<F: FnOnce(String, Bytes) -> Polled<Result<(), String>>>(
        &self,
        nats: &async_nats::Client,
        buf: &[u8],
        publish: F,
    ) -> (out: Polled<Result<usize, PublishError>>)
        requires
            forall|limit: usize, subject: String, payload: Bytes|
                subject@ == self@.outbound && contents(payload) == outgoing(buf@, limit as nat)
                    ==> call_requires(publish, (subject, payload)),
        ensures
            exists|
                limit: usize,
                subject: String,
                payload: Bytes,
                polled: Polled<Result<(), String>>,
            |
                subject@ == self@.outbound && contents(payload) == outgoing(buf@, limit as nat)
                    && call_ensures(publish, (subject, payload), polled) && write_result(out)
                    == written(outgoing(buf@, limit as nat).len(), publish_answer(polled)),
    {
        let limit = max_payload(nats);
        self.poll_write_capped(limit, buf, publish)
    }

    /// Flushes the stream. Publishing buffers nothing, so there is nothing to
    /// do: the flush is done at once and succeeds.
    pub fn poll_flush(&self) -> (out: Polled<Result<(), PublishError>>)
        ensures
            out == Polled::<Result<(), PublishError>>::Ready(Ok(())),
    {
        Polled::Ready(Ok(()))
    }

    /// Shuts the stream down. No message tells the peer, so there is nothing to
    /// do: the shutdown is done at once and succeeds.
    pub fn poll_shutdown(&self) -> (out: Polled<Result<(), PublishError>>)
        ensures
            out == Polled::<Result<(), PublishError>>::Ready(Ok(())),
    {
        Polled::Ready(Ok(()))
    }
}

} // verus!
