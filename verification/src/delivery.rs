//! What a stream delivers over several reads and writes.
//!
//! One read hands out at most as many octets as the reader has room for, and
//! one write publishes at most as many as the broker accepts. This module
//! follows a connection over a run of reads, and a writer over a run of writes,
//! and proves that the octets come through complete and in order.

use crate::connection::{outgoing, read, serve, Polled};
use crate::message::{classify, MessageView};
use vstd::arithmetic::div_mod::lemma_div_plus_one;
use vstd::prelude::*;

verus! {

/// A message that is nothing but stream data: a payload, without a reply
/// subject or a status.
pub open spec fn data_message(payload: Seq<u8>) -> MessageView {
    MessageView { payload, reply: None, status: None, description: None }
}

/// What an open subscription answers when asked for its next message while it
/// holds `queue`: the first message of the queue, or pending when it is empty.
pub open spec fn next_message(queue: Seq<MessageView>) -> Polled<Option<MessageView>> {
    if queue.len() == 0 {
        Polled::Pending
    } else {
        Polled::Ready(Some(queue.first()))
    }
}

/// The octets that a connection keeps back.
pub open spec fn kept(remainder: Option<Seq<u8>>) -> Seq<u8> {
    match remainder {
        Some(rest) => rest,
        None => Seq::empty(),
    }
}

/// The payloads of the messages of a queue, in order.
pub open spec fn payloads(queue: Seq<MessageView>) -> Seq<Seq<u8>> {
    queue.map_values(|msg: MessageView| msg.payload)
}

/// How far a run of reads is from its end: the messages still queued count
/// first, then what is kept back.
pub open spec fn backlog(remainder: Option<Seq<u8>>) -> nat {
    match remainder {
        Some(rest) => rest.len() + 1,
        None => 0,
    }
}

/// What successive reads hand out, one entry for each read, to a reader that
/// always has room for `capacity` octets, from a connection that keeps back
/// `remainder` and whose subscription holds `queue`. Each read is
/// [`read`]; a read served from the remainder leaves the queue alone, any other
/// takes the first message off it. The run ends with the first read that is
/// pending or fails. A reader without room for a single octet gets nowhere, and
/// its run is empty.
pub open spec fn reads(remainder: Option<Seq<u8>>, queue: Seq<MessageView>, capacity: nat) -> Seq<
    Seq<u8>,
>
    decreases queue.len(), backlog(remainder),
{
    let step = read(remainder, next_message(queue), capacity);
    let queued = if remainder is None && queue.len() > 0 {
        queue.drop_first()
    } else {
        queue
    };
    if capacity == 0 {
        Seq::empty()
    } else {
        match step.0 {
            Polled::Ready(Ok(chunk)) => seq![chunk] + reads(step.1, queued, capacity),
            _ => Seq::empty(),
        }
    }
}

/// The payloads that reach the broker when a writer offers `buf`, notes how
/// many octets the write accepted and offers the rest again, until nothing is
/// left, while the broker accepts payloads of up to `limit` octets. Each
/// payload is [`outgoing`] of what is left. Under a limit of zero no octet ever
/// goes out, and the run is empty.
pub open spec fn writes(buf: Seq<u8>, limit: nat) -> Seq<Seq<u8>>
    decreases buf.len(),
{
    if buf.len() == 0 || limit == 0 {
        Seq::empty()
    } else {
        seq![outgoing(buf, limit)] + writes(buf.skip(outgoing(buf, limit).len() as int), limit)
    }
}

/// The number of parts of at most `size` octets that `len` octets make, for a
/// `size` of at least one: `len` divided by `size`, rounded up.
pub open spec fn parts(len: nat, size: nat) -> nat {
    ((len + size - 1) / (size as int)) as nat
}

/// Putting end to end distributes over a first entry.
proof fn lemma_flatten_cons(head: Seq<u8>, tail: Seq<Seq<u8>>)
    ensures
        (seq![head] + tail).flatten() == head + tail.flatten(),
{
    let all = seq![head] + tail;
    assert(all.first() == head);
    assert(all.drop_first() =~= tail);
}

/// Taking one full part away leaves one part less.
proof fn lemma_parts_step(len: nat, size: nat)
    requires
        0 < size < len,
    ensures
        parts(len, size) == 1 + parts((len - size) as nat, size),
{
    lemma_div_plus_one(len - 1, size as int);
}

/// What fits in one part makes one part.
proof fn lemma_parts_small(len: nat, size: nat)
    requires
        0 < len <= size,
    ensures
        parts(len, size) == 1,
{
    assert((len + size - 1) / (size as int) == 1) by (nonlinear_arith)
        requires
            0 < len <= size,
    ;
}

/// One read hands out at most as many octets as the reader has room for, and
/// what it hands out followed by what it keeps back is the payload it served.
/// What it keeps back is never empty, and is shorter than the payload as soon
/// as the reader has room for one octet.
pub proof fn lemma_serve_splits(payload: Seq<u8>, capacity: nat)
    ensures
        serve(payload, capacity).0.len() <= capacity,
        serve(payload, capacity).0 + kept(serve(payload, capacity).1) == payload,
        serve(payload, capacity).1 matches Some(rest) ==> rest.len() > 0 && (capacity > 0
            ==> rest.len() < payload.len()),
{
    assert(serve(payload, capacity).0 + kept(serve(payload, capacity).1) =~= payload);
}

/// Reads reassemble the stream: as long as the reader has room for at least one
/// octet and every queued message is ordinary, the reads hand out, complete and
/// in order, first what the connection kept back and then the payload of each
/// queued message; and no read hands out more than the reader has room for.
pub proof fn lemma_reads_reassemble(
    remainder: Option<Seq<u8>>,
    queue: Seq<MessageView>,
    capacity: nat,
)
    requires
        capacity > 0,
        forall|i: int| 0 <= i < queue.len() ==> classify(#[trigger] queue[i]) is Ok,
    ensures
        reads(remainder, queue, capacity).flatten() == kept(remainder) + payloads(queue).flatten(),
        forall|i: int|
            0 <= i < reads(remainder, queue, capacity).len() ==> (#[trigger] reads(
                remainder,
                queue,
                capacity,
            )[i]).len() <= capacity,
    decreases queue.len(), backlog(remainder),
{
    let all = reads(remainder, queue, capacity);
    match remainder {
        Some(rest) => {
            let (chunk, left) = serve(rest, capacity);
            lemma_serve_splits(rest, capacity);
            lemma_reads_reassemble(left, queue, capacity);
            let after = reads(left, queue, capacity);
            assert(all == seq![chunk] + after);
            lemma_flatten_cons(chunk, after);
            assert(all.flatten() =~= kept(remainder) + payloads(queue).flatten());
        },
        None => {
            if queue.len() == 0 {
                assert(all =~= Seq::<Seq<u8>>::empty());
                assert(payloads(queue) =~= Seq::<Seq<u8>>::empty());
                assert(all.flatten() =~= kept(remainder) + payloads(queue).flatten());
            } else {
                let msg = queue.first();
                assert(classify(queue[0]) is Ok);
                let payload = msg.payload;
                let (chunk, left) = serve(payload, capacity);
                lemma_serve_splits(payload, capacity);
                let queued = queue.drop_first();
                assert forall|i: int| 0 <= i < queued.len() implies classify(
                    #[trigger] queued[i],
                ) is Ok by {
                    assert(queued[i] == queue[i + 1]);
                }
                lemma_reads_reassemble(left, queued, capacity);
                let after = reads(left, queued, capacity);
                assert(all == seq![chunk] + after);
                lemma_flatten_cons(chunk, after);
                assert(payloads(queue) =~= seq![payload] + payloads(queued));
                lemma_flatten_cons(payload, payloads(queued));
                assert(all.flatten() =~= kept(remainder) + payloads(queue).flatten());
            }
        },
    }
}

/// The number of reads that a remainder takes: a reader with room for
/// `capacity` octets, at least one, is served what a connection keeps back in
/// as many reads as the remainder makes parts of that size.
pub proof fn lemma_remainder_reads(rest: Seq<u8>, capacity: nat)
    requires
        capacity > 0,
        rest.len() > 0,
    ensures
        reads(Some(rest), Seq::empty(), capacity).len() == parts(rest.len(), capacity),
    decreases rest.len(),
{
    let (chunk, left) = serve(rest, capacity);
    let queue = Seq::<MessageView>::empty();
    assert(reads(Some(rest), queue, capacity) == seq![chunk] + reads(left, queue, capacity));
    match left {
        Some(more) => {
            assert(more.len() == rest.len() - capacity);
            lemma_remainder_reads(more, capacity);
            lemma_parts_step(rest.len(), capacity);
        },
        None => {
            assert(reads(None, queue, capacity) =~= Seq::<Seq<u8>>::empty());
            lemma_parts_small(rest.len(), capacity);
        },
    }
}

/// A payload is read back whole, however much longer than the reader's room it
/// is: when one ordinary message that carries at least one octet arrives at a
/// connection that keeps nothing back, a reader with room for `capacity`
/// octets, at least one, gets the payload complete and in order, in exactly as
/// many reads as the payload makes parts of that size.
pub proof fn lemma_oversized_payload_reads(msg: MessageView, capacity: nat)
    requires
        capacity > 0,
        classify(msg) is Ok,
        msg.payload.len() > 0,
    ensures
        reads(None, seq![msg], capacity).flatten() == msg.payload,
        reads(None, seq![msg], capacity).len() == parts(msg.payload.len(), capacity),
{
    let queue = seq![msg];
    assert(queue[0] == msg);
    lemma_reads_reassemble(None, queue, capacity);
    assert(payloads(queue) =~= seq![msg.payload]);
    lemma_flatten_cons(msg.payload, Seq::empty());
    assert(seq![msg.payload] + Seq::<Seq<u8>>::empty() =~= seq![msg.payload]);
    assert(reads(None, queue, capacity).flatten() =~= msg.payload);

    let (chunk, left) = serve(msg.payload, capacity);
    let empty = Seq::<MessageView>::empty();
    assert(queue.drop_first() =~= empty);
    assert(reads(None, queue, capacity) == seq![chunk] + reads(left, empty, capacity));
    match left {
        Some(more) => {
            lemma_remainder_reads(more, capacity);
            lemma_parts_step(msg.payload.len(), capacity);
        },
        None => {
            assert(reads(None, empty, capacity) =~= Seq::<Seq<u8>>::empty());
            lemma_parts_small(msg.payload.len(), capacity);
        },
    }
}

/// A write never publishes more than the broker accepts: of a buffer longer
/// than the limit exactly `limit` octets go out, and of any other all of it.
pub proof fn lemma_write_is_capped(buf: Seq<u8>, limit: nat)
    ensures
        outgoing(buf, limit).len() <= limit,
        buf.len() > limit ==> outgoing(buf, limit).len() == limit,
        buf.len() <= limit ==> outgoing(buf, limit) == buf,
        outgoing(buf, limit) == buf.take(outgoing(buf, limit).len() as int),
{
    assert(buf.take(buf.len() as int) =~= buf);
}

/// Writing again with what is left delivers everything: while the broker
/// accepts payloads of up to `limit` octets, at least one, the payloads
/// published for `buf` are, put end to end, `buf` itself; none is longer than
/// `limit`; and there are as many as `buf` makes parts of that size.
pub proof fn lemma_writes_deliver_all(buf: Seq<u8>, limit: nat)
    requires
        limit > 0,
    ensures
        writes(buf, limit).flatten() == buf,
        forall|i: int|
            0 <= i < writes(buf, limit).len() ==> 0 < (#[trigger] writes(buf, limit)[i]).len()
                <= limit,
        buf.len() > 0 ==> writes(buf, limit).len() == parts(buf.len(), limit),
        buf.len() == 0 ==> writes(buf, limit).len() == 0,
    decreases buf.len(),
{
    if buf.len() == 0 {
        assert(writes(buf, limit).flatten() =~= buf);
    } else {
        let first = outgoing(buf, limit);
        let rest = buf.skip(first.len() as int);
        lemma_write_is_capped(buf, limit);
        lemma_writes_deliver_all(rest, limit);
        lemma_flatten_cons(first, writes(rest, limit));
        assert(first + rest =~= buf);
        if buf.len() > limit {
            lemma_parts_step(buf.len(), limit);
        } else {
            lemma_parts_small(buf.len(), limit);
        }
    }
}

/// The messages that carry the payloads of a run of writes.
pub open spec fn data_messages(chunks: Seq<Seq<u8>>) -> Seq<MessageView> {
    chunks.map_values(|payload: Seq<u8>| data_message(payload))
}

/// From writer to reader: whatever the broker's limit and the reader's room,
/// as long as each is at least one octet, the reads on one side hand out,
/// complete and in order, the buffer that the other side wrote, when the
/// broker delivers the published payloads in the order they were published.
pub proof fn lemma_written_is_read(buf: Seq<u8>, limit: nat, capacity: nat)
    requires
        limit > 0,
        capacity > 0,
    ensures
        reads(None, data_messages(writes(buf, limit)), capacity).flatten() == buf,
{
    let queue = data_messages(writes(buf, limit));
    lemma_writes_deliver_all(buf, limit);
    lemma_reads_reassemble(None, queue, capacity);
    assert(payloads(queue) =~= writes(buf, limit));
    assert(kept(None) + buf =~= buf);
}

} // verus!
