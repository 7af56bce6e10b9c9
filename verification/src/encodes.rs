//! Bridge between the host's GBK byte strings and Rust text.

use crate::text::{trim_trailing_nul, trimmed_len, without_trailing_nul};
use std::borrow::Cow;
use vstd::prelude::*;
use vstd::slice::slice_to_vec;
use vstd::string::StringSliceAdditionalSpecFns;
use vstd::utf8::is_ascii_chars;

verus! {

/// Longest text, in bytes, that the bridge takes in either direction: a
/// thirty-second of what the platform can address.
///
/// The codec sizes its buffers as a small multiple of the input length,
/// rounded up to a power of two, and gives up where that overflows. Within
/// this bound no buffer is asked for that exceeds a third of the address
/// space, so the arithmetic cannot overflow.
pub const MAX_TEXT_BYTES: usize = usize::MAX / 32;

/// The GBK bytes that `encoding_rs` produces for a text.
pub uninterp spec fn gbk_encoded(text: Seq<char>) -> Seq<u8>;

/// The text that `encoding_rs` reads from GBK bytes, without looking for a
/// byte-order mark.
pub uninterp spec fn gbk_decoded(bytes: Seq<u8>) -> Seq<char>;

/// Whether every byte is an ASCII byte.
pub open spec fn is_ascii_bytes(bytes: Seq<u8>) -> bool {
    forall|i: int| 0 <= i < bytes.len() ==> bytes[i] < 0x80
}

/// The ASCII characters of `text`, one byte each.
pub open spec fn ascii_bytes_of(text: Seq<char>) -> Seq<u8> {
    Seq::new(text.len(), |i: int| text[i] as u8)
}

/// The ASCII bytes of `bytes`, one character each.
pub open spec fn ascii_chars_of(bytes: Seq<u8>) -> Seq<char> {
    Seq::new(bytes.len(), |i: int| bytes[i] as char)
}

/// Calls `encoding_rs::GBK.encode` and keeps the bytes.
///
/// Believed of the outside call: the bytes depend on the text alone; a text of
/// ASCII characters only comes back unchanged, byte for character; and the
/// call returns for every text within `MAX_TEXT_BYTES`. Characters outside
/// the code page are written as numeric character references by the codec.
#[verifier::external_body]
pub fn encode_to_gbk(text: &str) -> (encoded: Cow<'_, [u8]>)
    requires
        text.spec_bytes().len() <= MAX_TEXT_BYTES,
    ensures
        encoded@ == gbk_encoded(text@),
        is_ascii_chars(text@) ==> encoded@ == ascii_bytes_of(text@),
{
    let (encoded, _, _) = encoding_rs::GBK.encode(text);
    encoded
}

/// Calls `encoding_rs::GBK.decode_without_bom_handling` and keeps the text.
///
/// Every input is read as GBK: bytes that look like a byte-order mark are
/// bytes of the text like any others.
///
/// Believed of the outside call: the text depends on the bytes alone; bytes
/// that are all ASCII come back unchanged, character for byte; and the call
/// returns for every input within `MAX_TEXT_BYTES`. Malformed sequences are
/// replaced by U+FFFD by the codec.
#[verifier::external_body]
pub fn decode_gbk(data: &[u8]) -> (text: String)
    requires
        data@.len() <= MAX_TEXT_BYTES,
    ensures
        text@ == gbk_decoded(data@),
        is_ascii_bytes(data@) ==> text@ == ascii_chars_of(data@),
{
    let (text, _) = encoding_rs::GBK.decode_without_bom_handling(data);
    text.to_string()
}

/// Whether `text` is short enough to encode.
pub fn text_fits(text: &str) -> (fits: bool)
    ensures
        fits == (text.spec_bytes().len() <= MAX_TEXT_BYTES),
{
    text.as_bytes().len() <= MAX_TEXT_BYTES
}

/// The bytes handed to the host for a text argument: its GBK bytes and the
/// terminator.
pub open spec fn c_string_of(text: Seq<char>) -> Seq<u8> {
    gbk_encoded(text).push(0u8)
}

/// Encodes `text` for the host and appends the terminator.
pub fn encode_c_string(text: &str) -> (bytes: Vec<u8>)
    requires
        text.spec_bytes().len() <= MAX_TEXT_BYTES,
    ensures
        bytes@ == c_string_of(text@),
        is_ascii_chars(text@) ==> bytes@ == ascii_bytes_of(text@).push(0u8),
{
    let mut bytes = match encode_to_gbk(text) {
        Cow::Borrowed(borrowed) => slice_to_vec(borrowed),
        Cow::Owned(owned) => owned,
    };
    bytes.push(0);
    bytes
}

/// The text of a byte string that the host handed over: its GBK reading,
/// without the terminators at its end.
pub open spec fn host_text(bytes: Seq<u8>) -> Seq<char> {
    without_trailing_nul(gbk_decoded(bytes))
}

/// Whether a text argument of the host is short enough to decode: an absent
/// one always is.
pub open spec fn optional_text_fits(bytes: Option<&[u8]>) -> bool {
    match bytes {
        Some(present) => present@.len() <= MAX_TEXT_BYTES,
        None => true,
    }
}

/// The characters of a text that may be absent.
pub open spec fn optional_view(text: Option<String>) -> Option<Seq<char>> {
    match text {
        Some(present) => Some(present@),
        None => None,
    }
}

/// The text of ASCII bytes, read without the codec: their characters, without
/// the terminators at the end.
pub open spec fn ascii_text(bytes: Seq<u8>) -> Seq<char> {
    without_trailing_nul(ascii_chars_of(bytes))
}

/// Whether `text` is the text of `bytes`: their GBK reading without the
/// terminators at its end, which for ASCII bytes is those bytes, character
/// for byte, without the terminators.
pub open spec fn reads_as(bytes: Seq<u8>, text: Seq<char>) -> bool {
    &&& text == host_text(bytes)
    &&& is_ascii_bytes(bytes) ==> text == ascii_text(bytes)
}

/// Whether every byte is a terminator; true of no bytes at all.
pub open spec fn is_all_nul(bytes: Seq<u8>) -> bool {
    forall|i: int| 0 <= i < bytes.len() ==> bytes[i] == 0
}

/// Whether `text` is the text of an argument that the host may leave out:
/// absent for an absent one, else present and the text of its bytes.
pub open spec fn optional_reads_as(bytes: Option<&[u8]>, text: Option<Seq<char>>) -> bool {
    match bytes {
        Some(present) => text matches Some(read) && reads_as(present@, read),
        None => text is None,
    }
}

/// Whether an argument that the host may leave out is there and holds
/// nothing but terminators, or no bytes at all.
pub open spec fn is_terminators_only(bytes: Option<&[u8]>) -> bool {
    bytes matches Some(present) && is_all_nul(present@)
}

/// Whether a text that may be absent is there and empty.
pub open spec fn is_present_and_empty(text: Option<Seq<char>>) -> bool {
    text matches Some(read) && read.len() == 0
}

/// Bytes that are all terminators read as the empty text.
pub proof fn lemma_terminators_read_empty(bytes: Seq<u8>)
    requires
        is_all_nul(bytes),
    ensures
        is_ascii_bytes(bytes),
        trimmed_len(ascii_chars_of(bytes)) == 0,
        ascii_text(bytes) == Seq::<char>::empty(),
    decreases bytes.len(),
{
    let chars = ascii_chars_of(bytes);
    if bytes.len() > 0 {
        let front = bytes.drop_last();
        lemma_terminators_read_empty(front);
        assert(chars.last() == '\0');
        assert(chars.drop_last() =~= ascii_chars_of(front));
    }
    assert(ascii_text(bytes) =~= Seq::<char>::empty());
}

/// Decodes a byte string of the host and drops the terminators at its end.
pub fn read_text(bytes: &[u8]) -> (text: String)
    requires
        bytes@.len() <= MAX_TEXT_BYTES,
    ensures
        reads_as(bytes@, text@),
{
    let decoded = decode_gbk(bytes);
    trim_trailing_nul(decoded.as_str())
}

/// Decodes a text argument that the host may leave out. An absent one stays
/// absent; an empty one, or one of terminators only, is a present, empty
/// text.
pub fn read_optional_text(bytes: Option<&[u8]>) -> (text: Option<String>)
    requires
        optional_text_fits(bytes),
    ensures
        optional_reads_as(bytes, optional_view(text)),
        bytes is None ==> text is None,
        is_terminators_only(bytes) ==> is_present_and_empty(optional_view(text)),
{
    match bytes {
        Some(present) => {
            proof {
                if is_all_nul(present@) {
                    lemma_terminators_read_empty(present@);
                }
            }
            Some(read_text(present))
        },
        None => None,
    }
}

/// Writing an ASCII text byte for character and reading it back character
/// for byte gives the text again. With what the codec does to ASCII, an ASCII
/// text that is encoded and then decoded comes back unchanged.
pub proof fn lemma_ascii_round_trip(text: Seq<char>)
    requires
        is_ascii_chars(text),
    ensures
        is_ascii_bytes(ascii_bytes_of(text)),
        ascii_chars_of(ascii_bytes_of(text)) == text,
{
    vstd::utf8::is_ascii_chars_nat_bound(text);
    assert forall|i: int| 0 <= i < text.len() implies (text[i] as u8) < 0x80 && (text[i] as u8)
        as char == text[i] by {
        assert(0 <= text[i] as u32 <= 0x7f);
    }
    assert(ascii_chars_of(ascii_bytes_of(text)) =~= text);
}

} // verus!
