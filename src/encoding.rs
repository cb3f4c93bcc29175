use vstd::prelude::*;

verus! {

/// The unsigned LEB128 bytes of a `u8`: seven bits per byte, low bits first,
/// the high bit of a byte set when another byte follows.
pub open spec fn varint_u8(n: u8) -> Seq<u8> {
    if n < 128 {
        seq![n]
    } else {
        seq![n, 1u8]
    }
}

/// What reading one `u8` varint from the front of `b` gives: the value and
/// the number of bytes it took. A second byte with its high bit set is an
/// overflow, a second byte of zero is not minimal, and a missing byte is too
/// little input; bits beyond the eighth are dropped.
pub open spec fn varint_u8_read(b: Seq<u8>) -> Option<(u8, int)> {
    if b.len() == 0 {
        None
    } else if b[0] < 128 {
        Some((b[0], 1))
    } else if b.len() < 2 || b[1] >= 128 || b[1] == 0 {
        None
    } else {
        Some(((b[0] - 128 + 128 * (b[1] % 2)) as u8, 2))
    }
}

/// Relies on unsigned_varint::encode::u8 for the varint bytes of a `u8`.
#[verifier::external_body]
pub(crate) fn varint_u8_encode(n: u8) -> (r: Vec<u8>)
    ensures
        r@ == varint_u8(n),
{
    let mut buf = unsigned_varint::encode::u8_buffer();
    unsigned_varint::encode::u8(n, &mut buf).to_vec()
}

/// Relies on unsigned_varint::decode::u8 to read one `u8` varint from the
/// front of `b`, handing back the bytes after it; an error comes as its message.
#[verifier::external_body]
pub(crate) fn varint_u8_decode<'a>(b: &'a [u8]) -> (r: Result<(u8, &'a [u8]), String>)
    ensures
        match r {
            Ok((n, rest)) => {
                &&& varint_u8_read(b@) == Some((n, b@.len() - rest@.len()))
                &&& rest@ == b@.subrange(b@.len() - rest@.len(), b@.len() as int)
            },
            Err(_) => varint_u8_read(b@) is None,
        },
{
    unsigned_varint::decode::u8(b).map_err(|e| e.to_string())
}

/// The lowercase base36 digits.
pub open spec fn is_base36_digit(c: char) -> bool {
    ('0' <= c && c <= '9') || ('a' <= c && c <= 'z')
}

/// The multibase text of `b` in lowercase base36: the base code `k`, then the digits.
pub uninterp spec fn base36_text(b: Seq<u8>) -> Seq<char>;

/// The bytes that a multibase string stands for, in whatever base its first
/// character names; `None` where the string is not valid multibase.
pub uninterp spec fn multibase_bytes(s: Seq<char>) -> Option<Seq<u8>>;

/// `text` is what the base36 encoder hands back for `bytes`: the code `k`,
/// base36 digits, and multibase text that decodes to `bytes`.
pub open spec fn is_base36_encoding(text: Seq<char>, bytes: Seq<u8>) -> bool {
    &&& text == base36_text(bytes)
    &&& text.len() >= 1
    &&& text[0] == 'k'
    &&& forall|i: int| 1 <= i < text.len() ==> is_base36_digit(#[trigger] text[i])
    &&& multibase_bytes(text) == Some(bytes)
}

/// Relies on multibase::encode with Base::Base36Lower: the code `k` followed by
/// base36 digits, which multibase::decode turns back into the same bytes.
#[verifier::external_body]
pub(crate) fn base36_encode(b: &[u8]) -> (r: String)
    ensures
        r@ == base36_text(b@),
        r@.len() >= 1,
        r@[0] == 'k',
        forall|i: int| 1 <= i < r@.len() ==> is_base36_digit(#[trigger] r@[i]),
        multibase_bytes(r@) == Some(b@),
{
    cid::multibase::encode(cid::multibase::Base::Base36Lower, b)
}

/// Relies on multibase::decode to turn a multibase string into its bytes.
#[verifier::external_body]
pub(crate) fn multibase_decode(s: &str) -> (r: Option<Vec<u8>>)
    ensures
        match r {
            Some(v) => multibase_bytes(s@) == Some(v@),
            None => multibase_bytes(s@) is None,
        },
{
    cid::multibase::decode(s).ok().map(|(_, bytes)| bytes)
}

} // verus!
