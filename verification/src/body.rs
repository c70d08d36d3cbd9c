//! Bounded accumulation of a request body.

use vstd::prelude::*;
use crate::error::ServerError;

verus! {

/// The default ceiling on a request body, in bytes.
pub const MAX_SIZE: usize = 10_000;

/// `BytesMut`, made known as a type. Nothing is seen of what is inside a
/// value; what it holds is spoken of through `buffered`.
#[verifier::external_type_specification]
#[verifier::external_body]
pub struct ExBytesMut(actix_web::web::BytesMut);

/// The bytes that a `BytesMut` holds, in order. The contracts of
/// `BytesMut::new`, `len`, `extend_from_slice` and `to_vec` below say all
/// that is known of it.
pub uninterp spec fn buffered(buffer: actix_web::web::BytesMut) -> Seq<u8>;

/// `BytesMut::new`: the buffer it returns holds no bytes.
#[verifier::external_body]
fn buffer_new() -> (buffer: actix_web::web::BytesMut)
    ensures
        buffered(buffer) == Seq::<u8>::empty(),
{
    actix_web::web::BytesMut::new()
}

/// `BytesMut::len`: the number of bytes held.
#[verifier::external_body]
fn buffer_len(buffer: &actix_web::web::BytesMut) -> (n: usize)
    ensures
        n == buffered(*buffer).len(),
{
    buffer.len()
}

/// `BytesMut::extend_from_slice`: the bytes given are added behind the
/// bytes held. The call panics where the new length does not fit a `usize`,
/// which the precondition rules out.
#[verifier::external_body]
fn buffer_extend(buffer: &mut actix_web::web::BytesMut, bytes: &[u8])
    requires
        buffered(*old(buffer)).len() + bytes@.len() <= usize::MAX,
    ensures
        buffered(*final(buffer)) == buffered(*old(buffer)) + bytes@,
{
    buffer.extend_from_slice(bytes);
}

/// `to_vec` on the bytes of a `BytesMut`: a copy of the bytes held, in
/// order.
#[verifier::external_body]
fn buffer_to_vec(buffer: &actix_web::web::BytesMut) -> (bytes: Vec<u8>)
    ensures
        bytes@ == buffered(*buffer),
{
    buffer.to_vec()
}

/// Whether `chunk` would take a body of `held` bytes past `ceiling`.
pub open spec fn overflows(held: nat, chunk: nat, ceiling: nat) -> bool {
    held + chunk > ceiling
}

/// The body of a request as it is read, chunk by chunk.
#[derive(Debug, PartialEq, Eq)]
pub struct BodyBuffer {
    bytes: actix_web::web::BytesMut,
}

impl View for BodyBuffer {
    type V = Seq<u8>;

    closed spec fn view(&self) -> Seq<u8> {
        buffered(self.bytes)
    }
}

impl BodyBuffer {
    /// A body of which nothing has been read.
    pub fn new() -> (body: Self)
        ensures
            body@ == Seq::<u8>::empty(),
    {
        BodyBuffer { bytes: buffer_new() }
    }

    /// The number of bytes read so far.
    pub fn len(&self) -> (n: usize)
        ensures
            n == self@.len(),
    {
        buffer_len(&self.bytes)
    }

    /// Adds a chunk to the body read so far. A chunk that would take the
    /// body past the ceiling is refused and leaves the body as it was.
    pub fn accumulate(&mut self, chunk: &[u8], ceiling: usize) -> (taken: Result<(), ServerError>)
        ensures
            match taken {
                Err(e) => e == ServerError::BodyOverflow && overflows(
                    old(self)@.len(),
                    chunk@.len(),
                    ceiling as nat,
                ) && final(self)@ == old(self)@,
                Ok(()) => !overflows(old(self)@.len(), chunk@.len(), ceiling as nat)
                    && final(self)@ == old(self)@ + chunk@,
            },
    {
        let held = buffer_len(&self.bytes);
        if chunk.len() > ceiling || held > ceiling - chunk.len() {
            return Err(ServerError::BodyOverflow);
        }
        buffer_extend(&mut self.bytes, chunk);
        Ok(())
    }

    /// The bytes read.
    pub fn to_vec(&self) -> (bytes: Vec<u8>)
        ensures
            bytes@ == self@,
    {
        buffer_to_vec(&self.bytes)
    }
}

} // verus!
