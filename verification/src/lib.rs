//! A point-to-point, ordered, duplex byte stream carried over a
//! publish/subscribe broker.
//!
//! Two peers that never open a network connection to each other agree, by a
//! request/reply handshake on a well-known subject, on a pair of private inbox
//! subjects. Afterwards each side publishes stream bytes to the other side's
//! inbox and reads them back from its own.
//!
//! Everything that decides or computes lives here and is verified: how a broker
//! message is classified, the order and content of the handshake exchange, how
//! outgoing bytes are cut to the broker's payload limit and how incoming
//! messages are handed out to a reader with a small buffer. Awaiting the broker
//! is left to the caller, which reports back what the broker answered.

pub mod broker;
pub mod buffer;
pub mod connection;
pub mod delivery;
pub mod handshake;
pub mod message;

pub use connection::{Connection, Polled, PublishError};
pub use handshake::{
    accept, accept_handled, connect, connect_from, read_handshake, AcceptPublish, AcceptSubscribe,
    ConnectPublish, ConnectReceive, ConnectSubscribe, HandshakeError,
};
pub use message::{process_message, Message, MessageError};
