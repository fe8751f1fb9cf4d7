//! Trusted view of `bytes::BytesMut`, the caller-owned receive buffer the
//! decoder reads from and advances. Only the two operations the decoder
//! needs are exposed; everything else the decoder does with the buffer's
//! contents is verified against `bytes_view`.

use vstd::prelude::*;

verus! {

#[verifier::external_type_specification]
#[verifier::external_body]
pub struct ExBytesMut(bytes::BytesMut);

/// The readable bytes the buffer currently holds, front to back.
pub uninterp spec fn bytes_view(b: bytes::BytesMut) -> Seq<u8>;

/// Relies on `BytesMut`'s `Deref` to `[u8]`: the readable bytes as a slice.
#[verifier::external_body]
pub(crate) fn bytes_slice(b: &bytes::BytesMut) -> (r: &[u8])
    ensures
        r@ == bytes_view(*b),
{
    &b[..]
}

/// Relies on `bytes::Buf::advance` for `BytesMut`: discards `cnt` bytes from
/// the front of the buffer. It panics when `cnt` exceeds the readable
/// length, so that is required away.
#[verifier::external_body]
pub(crate) fn bytes_advance(b: &mut bytes::BytesMut, cnt: usize)
    requires
        cnt <= bytes_view(*old(b)).len(),
    ensures
        bytes_view(*final(b)) == bytes_view(*old(b)).skip(cnt as int),
{
    bytes::Buf::advance(b, cnt);
}

} // verus!
