//! The streaming decode session: when decoding state is kept or thrown away,
//! which bytes are carried from one call to the next, and how the fatal and
//! the replacing policy decide what a call returns.
use vstd::prelude::*;
use encoding_rs::{Decoder, Encoding};
use crate::codec::{
    ascii_lower, charset_name, decode_replacing, decode_strict, decoder_calls, decoder_charset,
    fresh_decoder, label_charset, lookup_label, name_of, replacing_capacity, replacing_output,
    stream_open, strict_capacity, strict_output, to_ascii_lowercase,
};

verus! {

/// Why a session could not be created or a call could not return text.
#[derive(PartialEq, Eq, Structural, Clone, Copy, Debug)]
pub enum DecodeError {
    /// The label names no supported encoding.
    UnsupportedEncoding,
    /// Fatal policy only: the input holds a malformed sequence, or an earlier
    /// call of the same stream did.
    EncodingError,
}

/// The bytes an optional input holds.
pub open spec fn input_bytes(input: Option<&[u8]>) -> Seq<u8> {
    match input {
        Some(b) => b@,
        None => Seq::empty(),
    }
}

/// What a decode call leaves behind and returns: the result, the pending
/// bytes, the calls made on the decoder since it was created, whether the
/// next call continues the stream, and whether the stream has failed.
pub type Step = (Result<Seq<char>, DecodeError>, Seq<u8>, Seq<(Seq<u8>, bool, bool)>, bool, bool);

/// One decode call under the fatal policy, on the calls `calls` made so far
/// and the buffered bytes `buf`.
pub open spec fn fatal_step(charset: Seq<char>, calls: Seq<(Seq<u8>, bool, bool)>, buf: Seq<u8>, stream: bool) -> Step {
    let after = calls.push((buf, !stream, false));
    match strict_output(charset, calls, buf, !stream) {
        Some(t) => (Ok(t), Seq::empty(), after, stream, false),
        None => (Err(DecodeError::EncodingError), buf, after, stream, true),
    }
}

/// One decode call under the replacing policy: the whole buffer is decoded,
/// each malformed sequence giving U+FFFD.
pub open spec fn replacing_step(charset: Seq<char>, calls: Seq<(Seq<u8>, bool, bool)>, buf: Seq<u8>, stream: bool) -> Step {
    (Ok(replacing_output(charset, calls, buf, !stream)), Seq::empty(), calls.push((buf, !stream, true)), stream, false)
}

/// A decoding session over one encoding, with a fixed policy for malformed
/// input.
pub struct TextDecoder {
    encoding: &'static Encoding,
    fatal: bool,
    decoder: Decoder,
    pending: Vec<u8>,
    continuing: bool,
    failed: bool,
}

impl TextDecoder {
    /// Canonical name of the session's encoding.
    pub closed spec fn charset(&self) -> Seq<char> {
        charset_name(*self.encoding)
    }

    /// Whether malformed input fails a call rather than being replaced.
    pub closed spec fn fatal_policy(&self) -> bool {
        self.fatal
    }

    /// Bytes carried over from earlier calls and not yet decoded.
    pub closed spec fn pending_bytes(&self) -> Seq<u8> {
        self.pending@
    }

    /// Whether the previous call declared that more input follows.
    pub closed spec fn continuing(&self) -> bool {
        self.continuing
    }

    /// Whether a call of the current stream failed; the stream's remaining
    /// calls are refused.
    pub closed spec fn failed(&self) -> bool {
        self.failed
    }

    /// Calls made on the current decoder since it was created.
    pub closed spec fn calls(&self) -> Seq<(Seq<u8>, bool, bool)> {
        decoder_calls(self.decoder)
    }

    /// The decoder decodes the session's encoding, a stream that goes on has
    /// not been ended on it, and only the fatal policy fails a stream.
    pub closed spec fn wf(&self) -> bool {
        &&& decoder_charset(self.decoder) == self.charset()
        &&& self.continuing && !self.failed ==> stream_open(self.calls())
        &&& self.failed ==> self.fatal
    }

    /// No call has been made since the session was created.
    pub open spec fn is_fresh(&self) -> bool {
        &&& self.pending_bytes() == Seq::<u8>::empty()
        &&& self.calls() == Seq::<(Seq<u8>, bool, bool)>::empty()
        &&& !self.continuing()
        &&& !self.failed()
    }

    /// Calls that a decode call starts from: none after a reset.
    pub open spec fn start_calls(&self) -> Seq<(Seq<u8>, bool, bool)> {
        if self.continuing() { self.calls() } else { Seq::empty() }
    }

    /// Bytes that a decode call starts from: none after a reset.
    pub open spec fn start_pending(&self) -> Seq<u8> {
        if self.continuing() { self.pending_bytes() } else { Seq::empty() }
    }

    /// Whether a decode call starts on a failed stream.
    pub open spec fn start_failed(&self) -> bool {
        self.continuing() && self.failed()
    }

    /// What a decode call with `input` and `stream` does.
    pub open spec fn step(&self, input: Seq<u8>, stream: bool) -> Step {
        let buf = self.start_pending() + input;
        if self.start_failed() {
            (Err(DecodeError::EncodingError), self.start_pending(), self.start_calls(), stream, true)
        } else if self.fatal_policy() {
            fatal_step(self.charset(), self.start_calls(), buf, stream)
        } else {
            replacing_step(self.charset(), self.start_calls(), buf, stream)
        }
    }

    /// A session for `encoding`, fatal or replacing as `fatal` says.
    pub fn new(encoding: &'static Encoding, fatal: bool) -> (r: TextDecoder)
        ensures
            r.wf(),
            r.is_fresh(),
            r.charset() == charset_name(*encoding),
            r.fatal_policy() == fatal,
    {
        TextDecoder {
            encoding,
            fatal,
            decoder: fresh_decoder(encoding),
            pending: Vec::new(),
            continuing: false,
            failed: false,
        }
    }

    /// A session for the encoding that `label` names; fails with
    /// `UnsupportedEncoding` where it names none.
    #[allow(non_snake_case)]
    pub fn Constructor(label: &str, fatal: bool) -> (r: Result<TextDecoder, DecodeError>)
        ensures
            r.is_err() == label_charset(label@).is_none(),
            r.is_err() ==> r == Err::<TextDecoder, DecodeError>(DecodeError::UnsupportedEncoding),
            r.is_ok() ==> r.unwrap().wf() && r.unwrap().is_fresh()
                && r.unwrap().charset() == label_charset(label@).unwrap()
                && r.unwrap().fatal_policy() == fatal,
    {
        match lookup_label(label) {
            None => Err(DecodeError::UnsupportedEncoding),
            Some(encoding) => Ok(TextDecoder::new(encoding, fatal)),
        }
    }

    /// The lower-cased canonical name of the session's encoding.
    #[allow(non_snake_case)]
    pub fn Encoding(&self) -> (r: String)
        ensures
            r@ == ascii_lower(self.charset()),
    {
        to_ascii_lowercase(name_of(self.encoding))
    }

    /// Whether the session is fatal.
    #[allow(non_snake_case)]
    pub fn Fatal(&self) -> (r: bool)
        ensures
            r == self.fatal_policy(),
    {
        self.fatal
    }

    /// Decodes `input` after the bytes still pending. Where the previous call
    /// did not declare that more input follows, the decoder and the pending
    /// bytes are first replaced by fresh ones. `stream` declares that more
    /// input follows this call. Once a call of a stream fails, the stream's
    /// later calls fail too without decoding, until a call that ends the
    /// stream; the call after that starts afresh.
    #[allow(non_snake_case)]
    pub fn Decode(&mut self, input: Option<&[u8]>, stream: bool) -> (r: Result<String, DecodeError>)
        requires
            old(self).wf(),
            old(self).start_pending().len() + input_bytes(input).len() <= usize::MAX / 4,
        ensures
            final(self).wf(),
            final(self).charset() == old(self).charset(),
            final(self).fatal_policy() == old(self).fatal_policy(),
            final(self).continuing() == stream,
            final(self).pending_bytes().len() <= old(self).start_pending().len() + input_bytes(input).len(),
            !old(self).continuing() && input_bytes(input).len() == 0
                ==> r.is_ok() && r.unwrap()@ == Seq::<char>::empty(),
            ({
                let st = old(self).step(input_bytes(input), stream);
                &&& r.is_ok() == st.0.is_ok()
                &&& r.is_ok() ==> st.0 == Ok::<Seq<char>, DecodeError>(r.unwrap()@)
                &&& r.is_err() ==> st.0 == Err::<Seq<char>, DecodeError>(r.unwrap_err())
                &&& final(self).pending_bytes() == st.1
                &&& final(self).calls() == st.2
                &&& final(self).continuing() == st.3
                &&& final(self).failed() == st.4
            }),
    {
        if !self.continuing {
            self.decoder = fresh_decoder(self.encoding);
            self.pending = Vec::new();
            self.failed = false;
        }
        self.continuing = stream;
        if self.failed {
            return Err(DecodeError::EncodingError);
        }
        match input {
            Some(bytes) => self.pending.extend_from_slice(bytes),
            None => {},
        }
        assert(self.pending@ == old(self).start_pending() + input_bytes(input));
        let last = !stream;
        if self.fatal {
            let capacity = match strict_capacity(&self.decoder, self.pending.len()) {
                Some(c) => c,
                // Not reached: the bound exists for a buffer of this length.
                None => { return Err(DecodeError::EncodingError); },
            };
            let (out, read) = decode_strict(&mut self.decoder, self.pending.as_slice(), last, capacity);
            match out {
                Some(text) => {
                    let rest = self.pending.split_off(read);
                    self.pending = rest;
                    Ok(text)
                },
                None => {
                    self.failed = true;
                    Err(DecodeError::EncodingError)
                },
            }
        } else {
            let capacity = match replacing_capacity(&self.decoder, self.pending.len()) {
                Some(c) => c,
                // Not reached: the bound exists for a buffer of this length.
                None => { return Err(DecodeError::EncodingError); },
            };
            let (text, read) = decode_replacing(&mut self.decoder, self.pending.as_slice(), last, capacity);
            let rest = self.pending.split_off(read);
            self.pending = rest;
            Ok(text)
        }
    }
}

/// A call that declares the end of the stream leaves the session so that the
/// next call starts afresh, whatever it returned.
pub proof fn lemma_final_call_ends_stream(s: TextDecoder, input: Seq<u8>)
    requires
        s.wf(),
    ensures
        !s.step(input, false).3,
{
}

/// A call on a session whose previous call ended the stream does what the same
/// call does on a freshly created session of the same encoding and policy.
pub proof fn lemma_reset_matches_fresh(s: TextDecoder, f: TextDecoder, input: Seq<u8>, stream: bool)
    requires
        s.wf(),
        f.wf(),
        f.is_fresh(),
        !s.continuing(),
        s.charset() == f.charset(),
        s.fatal_policy() == f.fatal_policy(),
    ensures
        s.step(input, stream) == f.step(input, stream),
{
}

/// Decoding no bytes as the end of the stream, again and again from a fresh
/// session, does the same every time: each such call starts afresh, and on a
/// fresh session it returns empty text (by `Decode`'s contract).
pub proof fn lemma_empty_final_calls_repeat(f: TextDecoder, s: TextDecoder)
    requires
        f.wf(),
        f.is_fresh(),
        s.wf(),
        s.charset() == f.charset(),
        s.fatal_policy() == f.fatal_policy(),
        s.continuing() == f.step(Seq::empty(), false).3,
    ensures
        s.step(Seq::empty(), false) == f.step(Seq::empty(), false),
        !f.step(Seq::empty(), false).3,
{
}

/// Under the fatal policy a call on a stream that has not failed fails with
/// `EncodingError` exactly when its buffered bytes hold a malformed sequence,
/// and returns their text otherwise; under the replacing policy a call never
/// fails.
pub proof fn lemma_policy_on_malformed(s: TextDecoder, input: Seq<u8>, stream: bool)
    requires
        s.wf(),
    ensures
        ({
            let buf = s.start_pending() + input;
            let out = strict_output(s.charset(), s.start_calls(), buf, !stream);
            s.fatal_policy() && !s.start_failed() ==> (
                (out.is_none() ==> s.step(input, stream).0 == Err::<Seq<char>, DecodeError>(DecodeError::EncodingError))
                && (out.is_some() ==> s.step(input, stream).0 == Ok::<Seq<char>, DecodeError>(out.unwrap())))
        }),
        !s.fatal_policy() ==> s.step(input, stream).0.is_ok(),
{
}

} // verus!
