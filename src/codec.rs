//! The character-encoding primitives that the session is built on, taken from
//! `encoding_rs`.
//!
//! A decoder is described by two names: the canonical name of its encoding and
//! the sequence of calls made on it since it was created. Each call is recorded
//! as the bytes handed over, whether they ended the stream, and whether
//! malformed input was replaced. What a call returns is named over those values.
use vstd::prelude::*;
use encoding_rs::{Decoder, DecoderResult, Encoding};

verus! {

#[verifier::external_type_specification]
#[verifier::external_body]
pub struct ExEncoding(Encoding);

#[verifier::external_type_specification]
#[verifier::external_body]
pub struct ExDecoder(Decoder);

/// Canonical name of an encoding, as `Encoding::name` gives it.
pub uninterp spec fn charset_name(e: Encoding) -> Seq<char>;

/// Canonical name of the encoding that a label denotes, if any (labels that
/// denote the replacement encoding denote none here).
pub uninterp spec fn label_charset(label: Seq<char>) -> Option<Seq<char>>;

/// Canonical name of the encoding a decoder decodes.
pub uninterp spec fn decoder_charset(d: Decoder) -> Seq<char>;

/// The calls made on a decoder since it was created, in order:
/// (bytes, end of stream, replacing).
pub uninterp spec fn decoder_calls(d: Decoder) -> Seq<(Seq<u8>, bool, bool)>;

/// Output capacity (in UTF-8 bytes) that suffices for a replacing call with
/// `n` more input bytes, or `None` where it would not fit in `usize`.
pub uninterp spec fn replacing_bound(charset: Seq<char>, prior: Seq<(Seq<u8>, bool, bool)>, n: nat) -> Option<nat>;

/// Output capacity (in UTF-8 bytes) that suffices for a non-replacing call with
/// `n` more input bytes, or `None` where it would not fit in `usize`.
pub uninterp spec fn strict_bound(charset: Seq<char>, prior: Seq<(Seq<u8>, bool, bool)>, n: nat) -> Option<nat>;

/// Text produced by a replacing call with `src` on a decoder for `charset`
/// after the calls `prior`.
pub uninterp spec fn replacing_output(charset: Seq<char>, prior: Seq<(Seq<u8>, bool, bool)>, src: Seq<u8>, last: bool) -> Seq<char>;

/// Text produced by a non-replacing call with `src` on a decoder for
/// `charset` after the calls `prior`; `None` where it meets a malformed
/// sequence.
pub uninterp spec fn strict_output(charset: Seq<char>, prior: Seq<(Seq<u8>, bool, bool)>, src: Seq<u8>, last: bool) -> Option<Seq<char>>;

/// No call made on the decoder so far ended its stream.
pub open spec fn stream_open(calls: Seq<(Seq<u8>, bool, bool)>) -> bool {
    forall|i: int| 0 <= i < calls.len() ==> !(#[trigger] calls[i]).1
}

/// Relies on `Encoding::for_label_no_replacement`: the encoding a label
/// denotes, found by the label alone.
#[verifier::external_body]
pub(crate) fn lookup_label(label: &str) -> (r: Option<&'static Encoding>)
    ensures
        r.is_some() == label_charset(label@).is_some(),
        r.is_some() ==> charset_name(*r.unwrap()) == label_charset(label@).unwrap(),
{
    Encoding::for_label_no_replacement(label.as_bytes())
}

/// Relies on `Encoding::name`: the canonical name of an encoding.
#[verifier::external_body]
pub(crate) fn name_of(e: &'static Encoding) -> (r: &'static str)
    ensures
        r@ == charset_name(*e),
{
    e.name()
}

/// Relies on `Encoding::new_decoder_without_bom_handling`: a decoder for `e`
/// on which no call has been made yet, and which does not look for a
/// byte-order mark.
#[verifier::external_body]
pub(crate) fn fresh_decoder(e: &'static Encoding) -> (r: Decoder)
    ensures
        decoder_charset(r) == charset_name(*e),
        decoder_calls(r) == Seq::<(Seq<u8>, bool, bool)>::empty(),
{
    e.new_decoder_without_bom_handling()
}

/// Relies on `Decoder::max_utf8_buffer_length`: an output size that no
/// replacing call with `n` more bytes exceeds, from the decoder's state. Each
/// encoding's bound is at most three bytes per input byte plus a few for the
/// decoder's state, so it exists for `n` up to a quarter of `usize::MAX`. It
/// panics on a decoder whose stream has ended.
#[verifier::external_body]
pub(crate) fn replacing_capacity(d: &Decoder, n: usize) -> (r: Option<usize>)
    requires
        stream_open(decoder_calls(*d)),
    ensures
        n <= usize::MAX / 4 ==> r.is_some(),
        r.is_some() == replacing_bound(decoder_charset(*d), decoder_calls(*d), n as nat).is_some(),
        r.is_some() ==> r.unwrap() as nat == replacing_bound(decoder_charset(*d), decoder_calls(*d), n as nat).unwrap(),
{
    d.max_utf8_buffer_length(n)
}

/// Relies on `Decoder::max_utf8_buffer_length_without_replacement`: an output
/// size that no non-replacing call with `n` more bytes exceeds; as above, it
/// exists for `n` up to a quarter of `usize::MAX`, and it panics on a decoder
/// whose stream has ended.
#[verifier::external_body]
pub(crate) fn strict_capacity(d: &Decoder, n: usize) -> (r: Option<usize>)
    requires
        stream_open(decoder_calls(*d)),
    ensures
        n <= usize::MAX / 4 ==> r.is_some(),
        r.is_some() == strict_bound(decoder_charset(*d), decoder_calls(*d), n as nat).is_some(),
        r.is_some() ==> r.unwrap() as nat == strict_bound(decoder_charset(*d), decoder_calls(*d), n as nat).unwrap(),
{
    d.max_utf8_buffer_length_without_replacement(n)
}

/// Relies on `Decoder::decode_to_string`: given an output capacity of at least
/// `max_utf8_buffer_length`, it never reports a full output, so it reads all
/// of `src` (`CoderResult::InputEmpty`); it returns the text and the count read.
/// A fresh decoder holds no partial sequence, so no bytes give no text. It
/// panics on a decoder whose stream has ended.
#[verifier::external_body]
pub(crate) fn decode_replacing(d: &mut Decoder, src: &[u8], last: bool, capacity: usize) -> (r: (String, usize))
    requires
        stream_open(decoder_calls(*old(d))),
        replacing_bound(decoder_charset(*old(d)), decoder_calls(*old(d)), src@.len()) == Some(capacity as nat),
    ensures
        decoder_charset(*final(d)) == decoder_charset(*old(d)),
        decoder_calls(*final(d)) == decoder_calls(*old(d)).push((src@, last, true)),
        r.0@ == replacing_output(decoder_charset(*old(d)), decoder_calls(*old(d)), src@, last),
        r.1 == src@.len(),
        decoder_calls(*old(d)).len() == 0 && src@.len() == 0 ==> r.0@.len() == 0,
{
    let mut out = String::with_capacity(capacity);
    let (_, read, _) = d.decode_to_string(src, &mut out, last);
    (out, read)
}

/// Relies on `Decoder::decode_to_string_without_replacement`: given an output
/// capacity of at least `max_utf8_buffer_length_without_replacement`, it never
/// reports a full output; on `DecoderResult::InputEmpty` it has read all of
/// `src` and returns the text, on `Malformed` no text. A fresh decoder holds
/// no partial sequence, so no bytes give no text and no error. It panics on a
/// decoder whose stream has ended.
#[verifier::external_body]
pub(crate) fn decode_strict(d: &mut Decoder, src: &[u8], last: bool, capacity: usize) -> (r: (Option<String>, usize))
    requires
        stream_open(decoder_calls(*old(d))),
        strict_bound(decoder_charset(*old(d)), decoder_calls(*old(d)), src@.len()) == Some(capacity as nat),
    ensures
        decoder_charset(*final(d)) == decoder_charset(*old(d)),
        decoder_calls(*final(d)) == decoder_calls(*old(d)).push((src@, last, false)),
        r.0.is_some() == strict_output(decoder_charset(*old(d)), decoder_calls(*old(d)), src@, last).is_some(),
        r.0.is_some() ==> r.0.unwrap()@ == strict_output(decoder_charset(*old(d)), decoder_calls(*old(d)), src@, last).unwrap(),
        r.0.is_some() ==> r.1 == src@.len(),
        r.1 <= src@.len(),
        decoder_calls(*old(d)).len() == 0 && src@.len() == 0 ==> r.0.is_some() && r.0.unwrap()@.len() == 0,
{
    let mut out = String::with_capacity(capacity);
    match d.decode_to_string_without_replacement(src, &mut out, last) {
        (DecoderResult::InputEmpty, read) => (Some(out), read),
        (_, read) => (None, read),
    }
}

/// ASCII lower case of each character.
pub open spec fn ascii_lower(s: Seq<char>) -> Seq<char> {
    s.map_values(|c: char| if 'A' <= c && c <= 'Z' { ((c as u8) + 32u8) as char } else { c })
}

/// Relies on `str::to_ascii_lowercase`: ASCII capitals lowered, all else kept.
#[verifier::external_body]
pub(crate) fn to_ascii_lowercase(s: &str) -> (r: String)
    ensures
        r@ == ascii_lower(s@),
{
    s.to_ascii_lowercase()
}

} // verus!
