//! The broker client, as far as the library calls it without awaiting.
//!
//! `async_nats::Client` is a handle to a live connection. Two of its methods
//! answer at once: one makes up a fresh inbox subject, the other reports the
//! payload limit the server last advertised. Both answers depend on more than
//! their arguments (a random generator, the state of the connection), so
//! nothing is claimed of them here.

use vstd::prelude::*;

verus! {

/// The broker client handle of `async_nats`, opaque to the verifier.
#[verifier::external_type_specification]
#[verifier::external_body]
pub struct ExClient(async_nats::Client);

/// `Client::new_inbox`: a subject for replies, made of the client's inbox
/// prefix and a random unique part. No property of the result is assumed.
pub assume_specification[ async_nats::Client::new_inbox ](nats: &async_nats::Client) -> (inbox:
    String)
;

/// `Client::server_info`, of which only `max_payload` is kept: the largest
/// payload the server said it accepts, as last received. It may change between
/// calls, and no property of the result is assumed.
#[verifier::external_body]
pub(crate) fn max_payload(nats: &async_nats::Client) -> (limit: usize) {
    nats.server_info().max_payload
}

} // verus!
