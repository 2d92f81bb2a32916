//! Strings as they cross the module boundary: zero-terminated byte
//! buffers, one per string.

use vstd::prelude::*;
use vstd::slice::*;
use vstd::string::*;
use vstd::utf8::*;

verus! {

/// A text can cross the boundary when its UTF-8 encoding holds no zero
/// byte: a zero would end the string early on the other side.
pub open spec fn crosses_boundary(s: Seq<char>) -> bool {
    !encode_utf8(s).contains(0u8)
}

/// The buffer that carries a text across: its UTF-8 bytes and the
/// terminating zero.
pub open spec fn c_string(s: Seq<char>) -> Seq<u8> {
    encode_utf8(s).push(0u8)
}

/// What a reader of a buffer sees: the bytes before the first zero, or all
/// of them where there is none.
pub open spec fn c_content(buf: Seq<u8>) -> Seq<u8>
    decreases buf.len(),
{
    if buf.len() == 0 || buf[0] == 0u8 {
        Seq::empty()
    } else {
        seq![buf[0]] + c_content(buf.skip(1))
    }
}

/// What `String::from_utf8_lossy` makes of bytes that are not valid
/// UTF-8.
pub uninterp spec fn lossy_text(bytes: Seq<u8>) -> Seq<char>;

/// The text read from bytes that may be malformed: valid UTF-8 decodes to
/// itself, anything else to its lossy reading.
pub open spec fn tolerant_text(bytes: Seq<u8>) -> Seq<char> {
    if valid_utf8(bytes) {
        decode_utf8(bytes)
    } else {
        lossy_text(bytes)
    }
}

/// The text that a reader takes from a buffer.
pub open spec fn buffer_text(buf: Seq<u8>) -> Seq<char> {
    tolerant_text(c_content(buf))
}

/// A prefix without a zero, ended by a zero or by the end of the buffer,
/// is the buffer's content.
pub proof fn lemma_c_content_prefix(buf: Seq<u8>, n: int)
    requires
        0 <= n <= buf.len(),
        forall|i: int| 0 <= i < n ==> buf[i] != 0u8,
        n == buf.len() || buf[n] == 0u8,
    ensures
        c_content(buf) == buf.take(n),
    decreases n,
{
    if n > 0 {
        lemma_c_content_prefix(buf.skip(1), n - 1);
    }
}

/// Reading back the buffer made for a text gives the text.
pub proof fn lemma_buffer_round_trip(s: Seq<char>)
    requires
        crosses_boundary(s),
    ensures
        c_content(c_string(s)) == encode_utf8(s),
        buffer_text(c_string(s)) == s,
{
    lemma_c_content_prefix(c_string(s), encode_utf8(s).len() as int);
    encode_utf8_valid_utf8(s);
    encode_utf8_decode_utf8(s);
}

/// Whether a text can cross the boundary.
pub fn can_cross_boundary(s: &str) -> (ok: bool)
    ensures
        ok == crosses_boundary(s@),
{
    let bytes = s.as_bytes();
    let mut i: usize = 0;
    while i < bytes.len()
        invariant
            bytes@ == encode_utf8(s@),
            i <= bytes@.len(),
            forall|k: int| 0 <= k < i ==> bytes@[k] != 0u8,
        decreases bytes@.len() - i,
    {
        if bytes[i] == 0 {
            return false;
        }
        i += 1;
    }
    true
}

/// The buffer that carries `s` across the boundary.
pub fn to_c_buffer(s: &str) -> (buf: Vec<u8>)
    requires
        crosses_boundary(s@),
    ensures
        buf@ == c_string(s@),
{
    let mut buf = s.as_bytes_vec();
    buf.push(0);
    buf
}

/// `String::from_utf8_lossy` and `Cow::into_owned` on its result.
/// Trusted: valid UTF-8 comes back as the text it encodes, as the
/// documentation of `from_utf8_lossy` says; for other bytes the text is a
/// function of the bytes alone.
#[verifier::external_body]
fn decode_lossy(bytes: &[u8]) -> (text: String)
    ensures
        text@ == (if valid_utf8(bytes@) {
            decode_utf8(bytes@)
        } else {
            lossy_text(bytes@)
        }),
{
    String::from_utf8_lossy(bytes).into_owned()
}

/// `core::str::from_utf8`, its result copied into a `String`. Trusted: it
/// succeeds exactly on valid UTF-8, with the text that the bytes encode.
#[verifier::external_body]
fn decode_strict(bytes: &[u8]) -> (text: Option<String>)
    ensures
        text is Some <==> valid_utf8(bytes@),
        text matches Some(t) ==> t@ == decode_utf8(bytes@),
{
    match std::str::from_utf8(bytes) {
        Ok(s) => Some(s.to_owned()),
        Err(_) => None,
    }
}

/// The length of a buffer's content.
pub fn content_len(buf: &[u8]) -> (n: usize)
    ensures
        n <= buf@.len(),
        c_content(buf@) == buf@.take(n as int),
{
    let mut i: usize = 0;
    while i < buf.len()
        invariant
            i <= buf@.len(),
            forall|k: int| 0 <= k < i ==> buf@[k] != 0u8,
        decreases buf@.len() - i,
    {
        if buf[i] == 0 {
            proof {
                lemma_c_content_prefix(buf@, i as int);
            }
            return i;
        }
        i += 1;
    }
    proof {
        lemma_c_content_prefix(buf@, i as int);
    }
    i
}

/// Reads the text out of a buffer, tolerating malformed UTF-8.
pub fn read_c_buffer(buf: &[u8]) -> (text: String)
    ensures
        text@ == buffer_text(buf@),
{
    let n = content_len(buf);
    let content = slice_subrange(buf, 0, n);
    decode_lossy(content)
}

/// Reads the text out of a buffer, refusing malformed UTF-8.
pub fn read_c_buffer_strict(buf: &[u8]) -> (text: Option<String>)
    ensures
        text is Some <==> valid_utf8(c_content(buf@)),
        text matches Some(t) ==> t@ == decode_utf8(c_content(buf@)),
{
    let n = content_len(buf);
    let content = slice_subrange(buf, 0, n);
    decode_strict(content)
}

/// What the library makes of an answer of the host: no answer stays no
/// answer, and an answer that is not valid UTF-8 counts as none.
pub open spec fn reply_text(reply: Option<Seq<u8>>) -> Option<Seq<char>> {
    match reply {
        Some(buf) => if valid_utf8(c_content(buf)) {
            Some(decode_utf8(c_content(buf)))
        } else {
            None
        },
        None => None,
    }
}

/// Reads the text of an answer of the host.
pub fn decode_reply(reply: Option<Vec<u8>>) -> (text: Option<String>)
    ensures
        (match text {
            Some(t) => Some(t@),
            None => None,
        }) == reply_text(
            match reply {
                Some(buf) => Some(buf@),
                None => None,
            },
        ),
{
    match reply {
        Some(buf) => read_c_buffer_strict(buf.as_slice()),
        None => None,
    }
}

} // verus!
