//! The fixed-size receive buffer that messages are read into, its decoding
//! into text and its wiping.
use vstd::prelude::*;
use zeroize::Zeroize;

verus! {

/// The text that `String::from_utf8_lossy` decodes from `bytes`: valid UTF-8
/// sequences become their characters, invalid ones U+FFFD.
pub uninterp spec fn utf8_lossy(bytes: Seq<u8>) -> Seq<char>;

/// A buffer of zero bytes.
pub open spec fn zeroed(n: nat) -> Seq<u8> {
    Seq::new(n, |i: int| 0u8)
}

/// Calls `String::from_utf8_lossy` on the buffer and takes the text as an
/// owned `String`.  The contract claims only that the text is the value that
/// `utf8_lossy` names for the buffer's bytes.
#[verifier::external_body]
pub(crate) fn buffer_text(data: &[u8; 1024]) -> (r: String)
    ensures
        r@ == utf8_lossy(data@),
{
    String::from(String::from_utf8_lossy(data))
}

/// Calls `zeroize::Zeroize::zeroize` on the buffer.  The `zeroize` crate
/// implements it for arrays of `u8` by setting every element to its default,
/// `0`; the contract claims exactly that.
#[verifier::external_body]
pub(crate) fn zeroize_buffer(data: &mut [u8; 1024])
    ensures
        final(data)@ == zeroed(1024),
{
    data.zeroize();
}

} // verus!
