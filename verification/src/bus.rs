//! The instruction buffer: a bounded first-in first-out queue of bytes,
//! kept in a `queues::Buffer`.

use queues::{Buffer, IsQueue};
use vstd::prelude::*;

verus! {

/// `queues::Buffer`: a queue whose inside is not seen here. What it holds
/// and how much it can hold are named below.
#[verifier::external_type_specification]
#[verifier::external_body]
#[verifier::reject_recursive_types(T)]
pub struct ExBuffer<T: Clone>(Buffer<T>);

/// The bytes that wait in the buffer, oldest first.
pub uninterp spec fn bus_bytes(bus: Buffer<u8>) -> Seq<u8>;

/// The number of bytes that the buffer was made to hold.
pub uninterp spec fn bus_capacity(bus: Buffer<u8>) -> nat;

/// `Buffer::new`: an empty buffer that holds up to `capacity` bytes.
#[verifier::external_body]
pub(crate) fn bus_new(capacity: usize) -> (bus: Buffer<u8>)
    ensures
        bus_bytes(bus) == Seq::<u8>::empty(),
        bus_capacity(bus) == capacity,
{
    Buffer::new(capacity)
}

/// `Buffer::size`: the number of bytes that wait in the buffer.
#[verifier::external_body]
pub(crate) fn bus_size(bus: &Buffer<u8>) -> (size: usize)
    ensures
        size == bus_bytes(*bus).len(),
{
    bus.size()
}

/// `Buffer::add`: appends the byte where fewer bytes wait than the buffer
/// holds, and reports success; a full buffer stays as it is.
#[verifier::external_body]
pub(crate) fn bus_add(bus: &mut Buffer<u8>, val: u8) -> (added: bool)
    ensures
        added == (bus_bytes(*old(bus)).len() < bus_capacity(*old(bus))),
        added ==> bus_bytes(*final(bus)) == bus_bytes(*old(bus)).push(val),
        !added ==> bus_bytes(*final(bus)) == bus_bytes(*old(bus)),
        bus_capacity(*final(bus)) == bus_capacity(*old(bus)),
{
    bus.add(val).is_ok()
}

/// `Buffer::remove`: takes the oldest byte out and returns it; an empty
/// buffer gives nothing and stays as it is.
#[verifier::external_body]
pub(crate) fn bus_remove(bus: &mut Buffer<u8>) -> (byte: Option<u8>)
    ensures
        byte == if bus_bytes(*old(bus)).len() > 0 {
            Some(bus_bytes(*old(bus))[0])
        } else {
            None
        },
        bus_bytes(*final(bus)) == if bus_bytes(*old(bus)).len() > 0 {
            bus_bytes(*old(bus)).skip(1)
        } else {
            bus_bytes(*old(bus))
        },
        bus_capacity(*final(bus)) == bus_capacity(*old(bus)),
{
    bus.remove().ok()
}

/// `Buffer::peek`: the oldest byte, which stays in the buffer; an empty
/// buffer gives nothing.
#[verifier::external_body]
pub(crate) fn bus_peek(bus: &Buffer<u8>) -> (byte: Option<u8>)
    ensures
        byte == if bus_bytes(*bus).len() > 0 {
            Some(bus_bytes(*bus)[0])
        } else {
            None
        },
{
    bus.peek().ok()
}

} // verus!
