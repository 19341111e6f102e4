//! `bytes::Bytes` as a sequence of octets.
//!
//! Payloads travel through the library as `Bytes`, the buffer type of the
//! broker client. The verifier cannot look inside one, so this module names
//! what a buffer holds and states, for the few operations the library calls,
//! what the `bytes` crate documents of them. Nothing in this module is proved.

use vstd::prelude::*;

verus! {

/// The buffer type of the `bytes` crate, opaque to the verifier.
#[verifier::external_type_specification]
#[verifier::external_body]
pub struct ExBytes(bytes::Bytes);

/// The octets a buffer holds, first to last.
pub uninterp spec fn contents(b: bytes::Bytes) -> Seq<u8>;

/// `Bytes::len`: the number of octets in the buffer.
pub assume_specification[ bytes::Bytes::len ](b: &bytes::Bytes) -> (n: usize)
    ensures
        n == contents(*b).len(),
;

/// `Bytes::new`: an empty buffer.
pub assume_specification[ bytes::Bytes::new ]() -> (b: bytes::Bytes)
    ensures
        contents(b) == Seq::<u8>::empty(),
;

/// `Bytes::copy_from_slice`: a buffer holding a copy of the slice.
pub assume_specification[ bytes::Bytes::copy_from_slice ](data: &[u8]) -> (b: bytes::Bytes)
    ensures
        contents(b) == data@,
;

/// `Bytes::split_off`: afterwards the buffer keeps the octets before `at` and
/// the result holds those from `at` on. The crate panics when `at` is past the
/// end, so that is ruled out.
pub assume_specification[ bytes::Bytes::split_off ](b: &mut bytes::Bytes, at: usize) -> (tail:
    bytes::Bytes)
    requires
        at <= contents(*old(b)).len(),
    ensures
        contents(*final(b)) == contents(*old(b)).take(at as int),
        contents(tail) == contents(*old(b)).skip(at as int),
;

} // verus!
