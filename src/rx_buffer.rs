//! The receive buffer: a fixed-capacity byte vector of the heapless crate.
use vstd::prelude::*;

verus! {

#[verifier::external_type_specification]
#[verifier::external_body]
#[verifier::reject_recursive_types(T)]
pub struct ExHeaplessVec<T, const N: usize>(heapless::Vec<T, N>);

/// The bytes that a receive buffer holds, in order.
pub uninterp spec fn rx_contents(v: heapless::Vec<u8, 256>) -> Seq<u8>;

/// Relies on heapless::Vec::new: a new vector is empty.
#[verifier::external_body]
pub(crate) fn rx_buffer_new() -> (r: heapless::Vec<u8, 256>)
    ensures
        rx_contents(r) == Seq::<u8>::empty(),
{
    heapless::Vec::new()
}

/// Relies on heapless::Vec::clear: afterwards the vector is empty.
#[verifier::external_body]
pub(crate) fn rx_buffer_clear(v: &mut heapless::Vec<u8, 256>)
    ensures
        rx_contents(*final(v)) == Seq::<u8>::empty(),
{
    v.clear()
}

/// Relies on heapless::Vec::extend_from_slice: when the bytes fit in the
/// capacity they are appended and `Ok` comes back; otherwise the vector is
/// left as it was and `Err` comes back.
#[verifier::external_body]
pub(crate) fn rx_buffer_extend(v: &mut heapless::Vec<u8, 256>, bytes: &[u8]) -> (r: Result<(), ()>)
    ensures
        rx_contents(*old(v)).len() + bytes@.len() <= 256 ==> r is Ok && rx_contents(*final(v))
            == rx_contents(*old(v)) + bytes@,
        rx_contents(*old(v)).len() + bytes@.len() > 256 ==> r is Err && rx_contents(*final(v))
            == rx_contents(*old(v)),
{
    v.extend_from_slice(bytes)
}

/// Relies on heapless::Vec::as_slice: the slice holds the vector's bytes, at
/// most its capacity of them.
#[verifier::external_body]
pub(crate) fn rx_buffer_bytes(v: &heapless::Vec<u8, 256>) -> (r: &[u8])
    ensures
        r@ == rx_contents(*v),
        r@.len() <= 256,
{
    v.as_slice()
}

} // verus!
