use vstd::prelude::*;
use bytes::Bytes;

verus! {

/// `bytes::Bytes`, the shared byte buffer in which packets travel between
/// actors.
#[verifier::external_type_specification]
#[verifier::external_body]
pub struct ExBytes(Bytes);

/// The bytes that a `Bytes` buffer holds, in order.
pub uninterp spec fn bytes_view(b: Bytes) -> Seq<u8>;

/// `<Bytes as Deref>::deref`: borrows the held bytes as a slice. The slice
/// holds exactly the bytes of the buffer.
#[verifier::external_body]
pub(crate) fn bytes_as_slice(b: &Bytes) -> (s: &[u8])
    ensures
        s@ == bytes_view(*b),
{
    b
}

/// `Bytes::slice(from..)`: a buffer that holds the bytes of `b` from position
/// `from` on. The crate panics where `from` exceeds the length, which the
/// `requires` rules out.
#[verifier::external_body]
pub(crate) fn bytes_slice_from(b: &Bytes, from: usize) -> (r: Bytes)
    requires
        from <= bytes_view(*b).len(),
    ensures
        bytes_view(r) == bytes_view(*b).subrange(from as int, bytes_view(*b).len() as int),
{
    b.slice(from..)
}

/// The first byte that `data` holds, if it holds any.
pub fn first_byte(data: &Bytes) -> (r: Option<u8>)
    ensures
        match r {
            Some(b) => bytes_view(*data).len() > 0 && b == bytes_view(*data)[0],
            None => bytes_view(*data).len() == 0,
        },
{
    let bytes = bytes_as_slice(data);
    if bytes.len() == 0 {
        None
    } else {
        Some(bytes[0])
    }
}

} // verus!
