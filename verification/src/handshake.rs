//! The handshake that establishes a connection.
//!
//! The initiator subscribes to a fresh private inbox, publishes its handshake
//! payload to the well-known subject with that inbox as the reply subject, and
//! awaits one message on the inbox: the peer's accept, whose reply subject is
//! the peer's private inbox. The responder takes one request from its listening
//! subscription, lets the application transform the request payload, subscribes
//! to a fresh private inbox of its own and publishes the transformed payload to
//! the requester's inbox, with its own inbox as the reply subject.
//!
//! Talking to the broker means waiting, which is the caller's part. Each type
//! here stands for one piece of outside work that is due, holds what that work
//! needs, and has one method that takes what the broker answered and gives the
//! next piece of work, the established connection, or the failure. Nothing is
//! retried.

use crate::buffer::contents;
use crate::connection::{Connection, ConnectionView};
use crate::message::{
    classify, process_message, Message, MessageError, MessageErrorView, MessageView,
    STATUS_NO_RESPONDERS,
};
use bytes::Bytes;
use vstd::prelude::*;

verus! {

/// The error type of `std::io`, which the responder's handshake transform
/// returns. It is opaque to the verifier and only ever passed on.
#[verifier::external_type_specification]
#[verifier::external_body]
pub struct ExIoError(std::io::Error);

/// Why a handshake was given up.
#[derive(Debug)]
pub enum HandshakeError {
    /// Subscribing to the private inbox failed; the broker client's account.
    Subscribe(String),
    /// Publishing the handshake message failed; the broker client's account.
    Publish(String),
    /// The subscription ended before a handshake message arrived.
    NoMessage,
    /// The handshake message reports a failure.
    Message(MessageError),
    /// The handshake message names no subject to reply to.
    MissingReply,
    /// The application's handshake transform rejected the request.
    Callback(std::io::Error),
}

/// What a [`HandshakeError`] is, mathematically.
pub enum HandshakeErrorView {
    Subscribe(Seq<char>),
    Publish(Seq<char>),
    NoMessage,
    Message(MessageErrorView),
    MissingReply,
    Callback(std::io::Error),
}

impl View for HandshakeError {
    type V = HandshakeErrorView;

    open spec fn view(&self) -> HandshakeErrorView {
        match self {
            HandshakeError::Subscribe(reason) => HandshakeErrorView::Subscribe(reason@),
            HandshakeError::Publish(reason) => HandshakeErrorView::Publish(reason@),
            HandshakeError::NoMessage => HandshakeErrorView::NoMessage,
            HandshakeError::Message(e) => HandshakeErrorView::Message(e@),
            HandshakeError::MissingReply => HandshakeErrorView::MissingReply,
            HandshakeError::Callback(e) => HandshakeErrorView::Callback(*e),
        }
    }
}

/// What a handshake message is made of: the private inbox of the side that
/// sends it, the subject it goes to, and the payload it carries.
pub struct ExchangeView {
    /// The sender's private inbox: subscribed to first, then named as the
    /// reply subject of the message.
    pub inbox: Seq<char>,
    /// The subject the message is published to.
    pub subject: Seq<char>,
    /// The payload of the message.
    pub payload: Seq<u8>,
}

/// What a handshake message yields: its payload and the subject to reply to.
///
/// No message at all is [`HandshakeErrorView::NoMessage`]; a message that the
/// classifier fails fails the handshake with that failure; and a message that
/// names no reply subject is [`HandshakeErrorView::MissingReply`].
pub open spec fn handshake_message(message: Option<MessageView>) -> Result<
    (Seq<u8>, Seq<char>),
    HandshakeErrorView,
> {
    match message {
        None => Err(HandshakeErrorView::NoMessage),
        Some(msg) => match classify(msg) {
            Err(e) => Err(HandshakeErrorView::Message(e)),
            Ok((_, None)) => Err(HandshakeErrorView::MissingReply),
            Ok((payload, Some(reply))) => Ok((payload, reply)),
        },
    }
}

/// The mathematical value of an optional message.
pub open spec fn message_view(message: Option<Message>) -> Option<MessageView> {
    match message {
        Some(msg) => Some(msg@),
        None => None,
    }
}

/// The mathematical value of what [`read_handshake`] returns.
pub open spec fn handshake_read(out: Result<(Bytes, String), HandshakeError>) -> Result<
    (Seq<u8>, Seq<char>),
    HandshakeErrorView,
> {
    match out {
        Ok((payload, reply)) => Ok((contents(payload), reply@)),
        Err(e) => Err(e@),
    }
}

/// Reads a handshake message: its payload and the subject to reply to, or the
/// failure, exactly as [`handshake_message`] says.
pub fn read_handshake(message: Option<Message>) -> (out: Result<(Bytes, String), HandshakeError>)
    ensures
        handshake_read(out) == handshake_message(message_view(message)),
{
    match message {
        None => Err(HandshakeError::NoMessage),
        Some(msg) => match process_message(msg) {
            Err(e) => Err(HandshakeError::Message(e)),
            Ok((_, None)) => Err(HandshakeError::MissingReply),
            Ok((payload, Some(reply))) => Ok((payload, reply)),
        },
    }
}

/// The initiator's first piece of work: subscribe to `inbox`.
#[derive(Debug)]
pub struct ConnectSubscribe {
    /// The initiator's fresh private inbox.
    pub inbox: String,
    /// The well-known subject the peer listens on.
    pub subject: String,
    /// The handshake payload for the peer.
    pub payload: Bytes,
}

/// The initiator's second piece of work: publish `payload` to `subject` with
/// `inbox` as the reply subject.
#[derive(Debug)]
pub struct ConnectPublish {
    /// The initiator's private inbox, now subscribed to.
    pub inbox: String,
    /// The well-known subject the peer listens on.
    pub subject: String,
    /// The handshake payload for the peer.
    pub payload: Bytes,
}

/// The initiator's last piece of work: await one message on the subscription
/// to `inbox`.
#[derive(Debug)]
pub struct ConnectReceive {
    /// The initiator's private inbox, on which the peer's accept arrives.
    pub inbox: String,
}

/// The responder's first piece of work: subscribe to `inbox`.
#[derive(Debug)]
pub struct AcceptSubscribe {
    /// The responder's fresh private inbox.
    pub inbox: String,
    /// The requester's private inbox, named in its request.
    pub subject: String,
    /// The application's answer to the request payload.
    pub payload: Bytes,
}

/// The responder's last piece of work: publish `payload` to `subject` with
/// `inbox` as the reply subject.
#[derive(Debug)]
pub struct AcceptPublish {
    /// The responder's private inbox, now subscribed to.
    pub inbox: String,
    /// The requester's private inbox, named in its request.
    pub subject: String,
    /// The application's answer to the request payload.
    pub payload: Bytes,
}

impl View for ConnectSubscribe {
    type V = ExchangeView;

    open spec fn view(&self) -> ExchangeView {
        ExchangeView { inbox: self.inbox@, subject: self.subject@, payload: contents(self.payload) }
    }
}

impl View for ConnectPublish {
    type V = ExchangeView;

    open spec fn view(&self) -> ExchangeView {
        ExchangeView { inbox: self.inbox@, subject: self.subject@, payload: contents(self.payload) }
    }
}

impl View for AcceptSubscribe {
    type V = ExchangeView;

    open spec fn view(&self) -> ExchangeView {
        ExchangeView { inbox: self.inbox@, subject: self.subject@, payload: contents(self.payload) }
    }
}

impl View for AcceptPublish {
    type V = ExchangeView;

    open spec fn view(&self) -> ExchangeView {
        ExchangeView { inbox: self.inbox@, subject: self.subject@, payload: contents(self.payload) }
    }
}

/// What the initiator has once the peer's accept is read: a connection that
/// publishes to the peer's inbox and reads from its own, with nothing kept
/// back, and the payload the peer answered with.
pub open spec fn connected(inbox: Seq<char>, accept: Option<MessageView>) -> Result<
    (ConnectionView, Seq<u8>),
    HandshakeErrorView,
> {
    match handshake_message(accept) {
        Err(e) => Err(e),
        Ok((payload, reply)) => Ok(
            (ConnectionView { outbound: reply, inbox, remainder: None }, payload),
        ),
    }
}

/// The mathematical value of what [`ConnectReceive::received`] returns.
pub open spec fn connect_result(out: Result<(Connection, Bytes), HandshakeError>) -> Result<
    (ConnectionView, Seq<u8>),
    HandshakeErrorView,
> {
    match out {
        Ok((conn, payload)) => Ok((conn@, contents(payload))),
        Err(e) => Err(e@),
    }
}

/// Starts the initiator's side of a handshake with a given private inbox:
/// the first piece of work is to subscribe to it.
pub fn connect_from(inbox: String, subject: String, payload: Bytes) -> (out: ConnectSubscribe)
    ensures
        out@ == (ExchangeView { inbox: inbox@, subject: subject@, payload: contents(payload) }),
{
    ConnectSubscribe { inbox, subject, payload }
}

/// Starts the initiator's side of a handshake towards the peer that listens on
/// `subject`, with `payload` as the handshake payload.
///
/// The private inbox is made up by the broker client, so all that is known of
/// it is that the handshake goes on with it; the subject and the payload are
/// those given.
pub fn connect(nats: &async_nats::Client, subject: String, payload: Bytes) -> (out:
    ConnectSubscribe)
    ensures
        out@.subject == subject@,
        out@.payload == contents(payload),
{
    let inbox = nats.new_inbox();
    connect_from(inbox, subject, payload)
}

impl ConnectSubscribe {
    /// Takes the outcome of subscribing to the inbox: on success the handshake
    /// message is due, unchanged; a failure ends the handshake with the broker
    /// client's account of it.
    pub fn subscribed(self, outcome: Result<(), String>) -> (out: Result<
        ConnectPublish,
        HandshakeError,
    >)
        ensures
            match outcome {
                Ok(()) => out matches Ok(next) && next@ == self@,
                Err(reason) => out matches Err(e) && e@ == HandshakeErrorView::Subscribe(reason@),
            },
    {
        match outcome {
            Ok(()) => Ok(
                ConnectPublish { inbox: self.inbox, subject: self.subject, payload: self.payload },
            ),
            Err(reason) => Err(HandshakeError::Subscribe(reason)),
        }
    }
}

impl ConnectPublish {
    /// Takes the outcome of publishing the handshake message: on success the
    /// peer's accept is awaited on the inbox; a failure ends the handshake with
    /// the broker client's account of it.
    pub fn published(self, outcome: Result<(), String>) -> (out: Result<
        ConnectReceive,
        HandshakeError,
    >)
        ensures
            match outcome {
                Ok(()) => out matches Ok(next) && next.inbox@ == self@.inbox,
                Err(reason) => out matches Err(e) && e@ == HandshakeErrorView::Publish(reason@),
            },
    {
        match outcome {
            Ok(()) => Ok(ConnectReceive { inbox: self.inbox }),
            Err(reason) => Err(HandshakeError::Publish(reason)),
        }
    }
}

impl ConnectReceive {
    /// Takes what the subscription to the inbox delivered, if anything, and
    /// establishes the connection or fails, exactly as [`connected`] says.
    pub fn received(self, accept: Option<Message>) -> (out: Result<
        (Connection, Bytes),
        HandshakeError,
    >)
        ensures
            connect_result(out) == connected(self.inbox@, message_view(accept)),
            out matches Ok((conn, _)) ==> conn@.wf(),
    {
        match read_handshake(accept) {
            Err(e) => Err(e),
            Ok((payload, tx)) => Ok((Connection::new(tx, self.inbox), payload)),
        }
    }
}

/// What the responder does with a request once the application has seen its
/// payload: a request that cannot be read fails as [`handshake_message`] says,
/// a rejection by the application fails the handshake with the application's
/// error, and otherwise the application's answer is to go to the requester's
/// inbox, with the responder's `inbox` as the reply subject.
pub open spec fn accepted(
    inbox: Seq<char>,
    request: Option<MessageView>,
    handled: Result<Seq<u8>, std::io::Error>,
) -> Result<ExchangeView, HandshakeErrorView> {
    match handshake_message(request) {
        Err(e) => Err(e),
        Ok((_, reply)) => match handled {
            Err(e) => Err(HandshakeErrorView::Callback(e)),
            Ok(payload) => Ok(ExchangeView { inbox, subject: reply, payload }),
        },
    }
}

/// The mathematical value of what the application's handshake transform
/// returns.
pub open spec fn handled_view(handled: Result<Bytes, std::io::Error>) -> Result<
    Seq<u8>,
    std::io::Error,
> {
    match handled {
        Ok(payload) => Ok(contents(payload)),
        Err(e) => Err(e),
    }
}

/// The mathematical value of what [`accept`] returns.
pub open spec fn accept_result(out: Result<AcceptSubscribe, HandshakeError>) -> Result<
    ExchangeView,
    HandshakeErrorView,
> {
    match out {
        Ok(next) => Ok(next@),
        Err(e) => Err(e@),
    }
}

/// Goes on with the responder's side of a handshake once the application has
/// answered: `subject` is the requester's inbox and `handled` the
/// application's answer to the request payload.
///
/// A rejection fails the handshake with the application's error, and then
/// nothing is due: no inbox is made up, no subscription is made and no reply is
/// published. Otherwise the broker client makes up a private inbox, and the
/// next piece of work is to subscribe to it; the reply that will go to
/// `subject` carries the application's answer.
pub fn accept_handled(
    nats: &async_nats::Client,
    subject: String,
    handled: Result<Bytes, std::io::Error>,
) -> (out: Result<AcceptSubscribe, HandshakeError>)
    ensures
        match handled {
            Ok(payload) => out matches Ok(next) && next@.subject == subject@ && next@.payload
                == contents(payload),
            Err(e) => out matches Err(err) && err@ == HandshakeErrorView::Callback(e),
        },
{
    match handled {
        Ok(payload) => Ok(AcceptSubscribe { inbox: nats.new_inbox(), subject, payload }),
        Err(e) => Err(HandshakeError::Callback(e)),
    }
}

/// Starts the responder's side of a handshake from what the listening
/// subscription delivered.
///
/// The request is read as [`read_handshake`] says, and a request that cannot be
/// read fails the handshake; `handle` need not even be callable then.
/// Otherwise `handle` is called once, with the request payload, and its answer
/// decides as in [`accept_handled`]: a failure fails the handshake with that
/// error and leaves no reply to publish, and a success makes subscribing to a
/// fresh private inbox the next piece of work. Either way the result is that
/// of [`accepted`].
pub fn accept<F: FnOnce(Bytes) -> Result<Bytes, std::io::Error>>(
    nats: &async_nats::Client,
    request: Option<Message>,
    handle: F,
) -> (out: Result<AcceptSubscribe, HandshakeError>)
    requires
        forall|payload: Bytes|
            handshake_message(message_view(request)) matches Ok(read) && contents(payload)
                == read.0 ==> call_requires(handle, (payload,)),
    ensures
        handshake_message(message_view(request)) matches Err(e) ==> accept_result(out) == Err::<
            ExchangeView,
            HandshakeErrorView,
        >(e),
        handshake_message(message_view(request)) is Ok ==> exists|
            inbox: Seq<char>,
            payload: Bytes,
            handled: Result<Bytes, std::io::Error>,
        |
            contents(payload) == handshake_message(message_view(request))->Ok_0.0 && call_ensures(
                handle,
                (payload,),
                handled,
            ) && accept_result(out) == accepted(
                inbox,
                message_view(request),
                handled_view(handled),
            ),
{
    match read_handshake(request) {
        Err(e) => Err(e),
        Ok((payload, subject)) => {
            let ghost asked = payload;
            let handled = handle(payload);
            let ghost answered = handled;
            let out = accept_handled(nats, subject, handled);
            proof {
                let inbox = if out is Ok {
                    out->Ok_0@.inbox
                } else {
                    Seq::empty()
                };
                assert(call_ensures(handle, (asked,), answered) && accept_result(out) == accepted(
                    inbox,
                    message_view(request),
                    handled_view(answered),
                ));
            }
            out
        },
    }
}

impl AcceptSubscribe {
    /// Takes the outcome of subscribing to the inbox: on success the reply is
    /// due, unchanged; a failure ends the handshake with the broker client's
    /// account of it.
    pub fn subscribed(self, outcome: Result<(), String>) -> (out: Result<
        AcceptPublish,
        HandshakeError,
    >)
        ensures
            match outcome {
                Ok(()) => out matches Ok(next) && next@ == self@,
                Err(reason) => out matches Err(e) && e@ == HandshakeErrorView::Subscribe(reason@),
            },
    {
        match outcome {
            Ok(()) => Ok(
                AcceptPublish { inbox: self.inbox, subject: self.subject, payload: self.payload },
            ),
            Err(reason) => Err(HandshakeError::Subscribe(reason)),
        }
    }
}

/// What the responder has once its reply is published: a connection that
/// publishes to the requester's inbox and reads from the responder's own, with
/// nothing kept back.
pub open spec fn replied(reply: ExchangeView) -> ConnectionView {
    ConnectionView { outbound: reply.subject, inbox: reply.inbox, remainder: None }
}

impl AcceptPublish {
    /// Takes the outcome of publishing the reply: on success the connection is
    /// established, exactly as [`replied`] says; a failure ends the handshake
    /// with the broker client's account of it.
    pub fn published(self, outcome: Result<(), String>) -> (out: Result<Connection, HandshakeError>)
        ensures
            match outcome {
                Ok(()) => out matches Ok(conn) && conn@ == replied(self@) && conn@.wf(),
                Err(reason) => out matches Err(e) && e@ == HandshakeErrorView::Publish(reason@),
            },
    {
        match outcome {
            Ok(()) => Ok(Connection::new(self.subject, self.inbox)),
            Err(reason) => Err(HandshakeError::Publish(reason)),
        }
    }
}

/// The message that the broker delivers when a handshake message is
/// published: the payload, with the sender's inbox as the reply subject, and
/// no status.
pub open spec fn delivered(exchange: ExchangeView) -> MessageView {
    MessageView {
        payload: exchange.payload,
        reply: Some(exchange.inbox),
        status: None,
        description: None,
    }
}

/// A request sent where nobody listens is refused: when the message that
/// arrives on the initiator's inbox carries the no-responders status, the
/// handshake fails with [`MessageErrorView::ConnectionRefused`], whatever else
/// the message holds.
pub proof fn lemma_no_listener_is_refused(inbox: Seq<char>, msg: MessageView)
    requires
        msg.status == Some(STATUS_NO_RESPONDERS),
    ensures
        connected(inbox, Some(msg)) == Err::<(ConnectionView, Seq<u8>), HandshakeErrorView>(
            HandshakeErrorView::Message(MessageErrorView::ConnectionRefused),
        ),
{
}

/// A rejected request is never answered: when the application's transform
/// fails on a request that could be read, the responder's handshake fails with
/// the transform's own error, so that no reply is left to publish.
pub proof fn lemma_rejection_is_surfaced(
    inbox: Seq<char>,
    request: Option<MessageView>,
    error: std::io::Error,
)
    requires
        handshake_message(request) is Ok,
    ensures
        accepted(inbox, request, Err(error)) == Err::<ExchangeView, HandshakeErrorView>(
            HandshakeErrorView::Callback(error),
        ),
{
}

/// A handshake joins the two ends: when the responder reads the request that
/// the initiator published, the application answers with `answer`, and the
/// initiator reads the reply that the responder published, then both sides are
/// established, each publishes to the inbox that the other reads from, and the
/// initiator is handed `answer`.
pub proof fn lemma_handshake_joins_the_ends(
    request: ExchangeView,
    answer: Seq<u8>,
    responder_inbox: Seq<char>,
)
    ensures
        accepted(responder_inbox, Some(delivered(request)), Ok(answer)) matches Ok(reply)
            && connected(request.inbox, Some(delivered(reply))) matches Ok(initiator)
            && initiator.1 == answer && initiator.0.outbound == replied(reply).inbox && replied(
            reply,
        ).outbound == initiator.0.inbox && initiator.0.inbox == request.inbox && replied(
            reply,
        ).inbox == responder_inbox,
{
}

/// Handshakes do not share: two handshakes that were given different inboxes
/// end, on either side, in connections that read from different inboxes, and
/// each connection starts with nothing kept back.
pub proof fn lemma_handshakes_stay_apart(
    inbox_a: Seq<char>,
    accept_a: Option<MessageView>,
    inbox_b: Seq<char>,
    accept_b: Option<MessageView>,
    reply_a: ExchangeView,
    reply_b: ExchangeView,
)
    requires
        inbox_a != inbox_b,
        reply_a.inbox != reply_b.inbox,
    ensures
        connected(inbox_a, accept_a) matches Ok(a) ==> connected(inbox_b, accept_b) matches Ok(b)
            ==> a.0.inbox != b.0.inbox && a.0.remainder is None && b.0.remainder is None,
        replied(reply_a).inbox != replied(reply_b).inbox,
        replied(reply_a).remainder is None,
        replied(reply_b).remainder is None,
{
}

} // verus!
