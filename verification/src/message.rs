//! Broker messages and how they are classified.
//!
//! A message carries payload octets, possibly a subject to reply to, and
//! possibly a status code with a description. The status code decides whether
//! the message is ordinary traffic or reports a failure.

use crate::buffer::contents;
use bytes::Bytes;
use vstd::prelude::*;

verus! {

/// Status code of an ordinary message.
pub const STATUS_OK: u16 = 200;

/// Status code of a request that timed out.
pub const STATUS_TIMEOUT: u16 = 408;

/// Status code of a request that the remote side terminated.
pub const STATUS_REQUEST_TERMINATED: u16 = 409;

/// Status code of a request on a subject that nobody is subscribed to.
pub const STATUS_NO_RESPONDERS: u16 = 503;

/// One message as the broker delivered it.
#[derive(Debug, PartialEq, Eq)]
pub struct Message {
    /// The payload octets.
    pub payload: Bytes,
    /// The subject the sender wants replies on, if it named one.
    pub reply: Option<String>,
    /// The status code, if the message carries one.
    pub status: Option<u16>,
    /// The human-readable description that came with the status code.
    pub description: Option<String>,
}

/// What a [`Message`] is, mathematically.
pub struct MessageView {
    pub payload: Seq<u8>,
    pub reply: Option<Seq<char>>,
    pub status: Option<u16>,
    pub description: Option<Seq<char>>,
}

impl View for Message {
    type V = MessageView;

    open spec fn view(&self) -> MessageView {
        MessageView {
            payload: contents(self.payload),
            reply: self.reply.deep_view(),
            status: self.status,
            description: self.description.deep_view(),
        }
    }
}

/// Why a message is not ordinary traffic.
#[derive(Debug, PartialEq, Eq)]
pub enum MessageError {
    /// Nobody is subscribed to the subject the request went to.
    ConnectionRefused,
    /// The request timed out.
    TimedOut,
    /// The remote side terminated the request.
    RemoteTerminated,
    /// Any other status code, with the description that came with it.
    Broker { code: u16, description: Option<String> },
}

/// What a [`MessageError`] is, mathematically.
pub enum MessageErrorView {
    ConnectionRefused,
    TimedOut,
    RemoteTerminated,
    Broker { code: u16, description: Option<Seq<char>> },
}

impl View for MessageError {
    type V = MessageErrorView;

    open spec fn view(&self) -> MessageErrorView {
        match self {
            MessageError::ConnectionRefused => MessageErrorView::ConnectionRefused,
            MessageError::TimedOut => MessageErrorView::TimedOut,
            MessageError::RemoteTerminated => MessageErrorView::RemoteTerminated,
            MessageError::Broker { code, description } => MessageErrorView::Broker {
                code: *code,
                description: description.deep_view(),
            },
        }
    }
}

/// The classification of a message: its payload and reply subject when it has
/// no status code or the code for an ordinary message, else the failure that
/// its status code stands for.
pub open spec fn classify(msg: MessageView) -> Result<
    (Seq<u8>, Option<Seq<char>>),
    MessageErrorView,
> {
    match msg.status {
        None => Ok((msg.payload, msg.reply)),
        Some(code) => if code == STATUS_OK {
            Ok((msg.payload, msg.reply))
        } else if code == STATUS_NO_RESPONDERS {
            Err(MessageErrorView::ConnectionRefused)
        } else if code == STATUS_TIMEOUT {
            Err(MessageErrorView::TimedOut)
        } else if code == STATUS_REQUEST_TERMINATED {
            Err(MessageErrorView::RemoteTerminated)
        } else {
            Err(MessageErrorView::Broker { code, description: msg.description })
        },
    }
}

/// The mathematical value of what [`process_message`] returns.
pub open spec fn classified(out: Result<(Bytes, Option<String>), MessageError>) -> Result<
    (Seq<u8>, Option<Seq<char>>),
    MessageErrorView,
> {
    match out {
        Ok((payload, reply)) => Ok((contents(payload), reply.deep_view())),
        Err(e) => Err(e@),
    }
}

/// Classifies a message by its status code.
///
/// A message without a status code, or with [`STATUS_OK`], yields its payload
/// and its reply subject untouched. The three known failure codes yield their
/// failure, and every other code yields [`MessageError::Broker`] with the code
/// and the description.
pub fn process_message(msg: Message) -> (out: Result<(Bytes, Option<String>), MessageError>)
    ensures
        classified(out) == classify(msg@),
{
    let Message { payload, reply, status, description } = msg;
    match status {
        None => Ok((payload, reply)),
        Some(code) => {
            if code == STATUS_OK {
                Ok((payload, reply))
            } else if code == STATUS_NO_RESPONDERS {
                Err(MessageError::ConnectionRefused)
            } else if code == STATUS_TIMEOUT {
                Err(MessageError::TimedOut)
            } else if code == STATUS_REQUEST_TERMINATED {
                Err(MessageError::RemoteTerminated)
            } else {
                Err(MessageError::Broker { code, description })
            }
        },
    }
}

} // verus!
