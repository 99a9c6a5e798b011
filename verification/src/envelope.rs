//! The envelope codec: plaintext in, wire text out, and back.
//!
//! With encryption on, a message travels as Base64 of a 12-byte nonce followed
//! by the AES-256-GCM sealing of a JSON envelope `{type, data, ts}`. The
//! receiver accepts it when it opens under its key, parses as an envelope and
//! carries a timestamp within the freshness window around its own clock.

use crate::foreign::{
    aes_gcm_open,
    aes_gcm_opened,
    aes_gcm_seal,
    aes_gcm_sealed,
    base64_bytes,
    base64_decode,
    base64_encode,
    base64_text,
    fresh_nonce,
    json_insert_integer,
    json_insert_text,
    json_integer_at,
    json_new,
    json_object_of,
    json_parse_object,
    json_text_at,
    json_to_text,
    unix_millis,
    utf8_text,
    AES_GCM_MAX_PLAINTEXT,
};
use crate::replay::ReplayState;
use vstd::prelude::*;
use vstd::slice::slice_subrange;
use vstd::utf8::*;

verus! {

/// Bytes of nonce in front of every sealed message.
pub const NONCE_LEN: usize = 12;

/// Bytes of authentication tag behind every ciphertext.
pub const TAG_LEN: usize = 16;

/// The shortest byte string that can hold a nonce and a tag.
pub const MIN_SEALED_LEN: usize = NONCE_LEN + TAG_LEN;

/// A view of an optional text.
pub open spec fn text_of(text: Option<String>) -> Option<Seq<char>> {
    match text {
        Some(s) => Some(s@),
        None => None,
    }
}

/// A view of an optional borrowed text.
pub open spec fn borrowed_text(text: Option<&str>) -> Option<Seq<char>> {
    match text {
        Some(s) => Some(s@),
        None => None,
    }
}

/// A view of an optional key.
pub open spec fn key_of(key: Option<[u8; 32]>) -> Option<Seq<u8>> {
    match key {
        Some(k) => Some(k@),
        None => None,
    }
}

// ---------------------------------------------------------------------------
// Sealing and opening
// ---------------------------------------------------------------------------
/// Whether a plaintext of `len` bytes can be sealed and framed: the cipher
/// takes it, and nonce, ciphertext and tag together stay encodable.
pub open spec fn sealable(len: int) -> bool {
    len <= AES_GCM_MAX_PLAINTEXT && len + MIN_SEALED_LEN <= isize::MAX / 2
}

/// The wire text of `plaintext` sealed under `key` with `nonce`.
pub open spec fn sealed_wire(key: Seq<u8>, nonce: Seq<u8>, plaintext: Seq<char>) -> Option<
    Seq<char>,
> {
    let bytes = encode_utf8(plaintext);
    if sealable(bytes.len() as int) {
        match aes_gcm_sealed(key, nonce, bytes) {
            Some(sealed) => Some(base64_text(nonce + sealed)),
            None => None,
        }
    } else {
        None
    }
}

/// The plaintext that a wire text opens to under `key`: the text must be
/// Base64 of at least a nonce and a tag, authenticate, and hold UTF-8.
pub open spec fn opened_wire(key: Seq<u8>, wire: Seq<char>) -> Option<Seq<char>> {
    match base64_bytes(wire) {
        None => None,
        Some(raw) => if raw.len() < MIN_SEALED_LEN {
            None
        } else {
            match aes_gcm_opened(
                key,
                raw.subrange(0, NONCE_LEN as int),
                raw.subrange(NONCE_LEN as int, raw.len() as int),
            ) {
                None => None,
                Some(bytes) => if valid_utf8(bytes) {
                    Some(decode_utf8(bytes))
                } else {
                    None
                },
            }
        },
    }
}

/// Seals `plaintext` under `key` with the given nonce and frames it as
/// Base64 of nonce followed by ciphertext and tag.
pub fn encrypt_with_nonce(plaintext: &str, key: &[u8; 32], nonce: &[u8; 12]) -> (wire: Option<
    String,
>)
    ensures
        text_of(wire) == sealed_wire(key@, nonce@, plaintext@),
        wire is Some <==> sealable(encode_utf8(plaintext@).len() as int),
        wire matches Some(w) ==> opened_wire(key@, w@) == Some(plaintext@),
{
    let bytes = plaintext.as_bytes();
    if bytes.len() > usize::MAX / 4 - MIN_SEALED_LEN {
        return None;
    }
    match aes_gcm_seal(key, nonce.as_slice(), bytes) {
        None => None,
        Some(sealed) => {
            let mut framed: Vec<u8> = Vec::new();
            framed.extend_from_slice(nonce.as_slice());
            framed.extend_from_slice(sealed.as_slice());
            let wire = base64_encode(framed.as_slice());
            proof {
                let raw = framed@;
                assert(raw =~= nonce@ + sealed@);
                assert(raw.subrange(0, NONCE_LEN as int) =~= nonce@);
                assert(raw.subrange(NONCE_LEN as int, raw.len() as int) =~= sealed@);
                encode_utf8_valid_utf8(plaintext@);
                encode_utf8_decode_utf8(plaintext@);
            }
            Some(wire)
        },
    }
}

/// Seals `plaintext` under `key` with a nonce drawn afresh from the
/// operating system.
pub fn encrypt_with_key(plaintext: &str, key: &[u8; 32]) -> (wire: Option<String>)
    ensures
        wire is Some <==> sealable(encode_utf8(plaintext@).len() as int),
        wire matches Some(w) ==> exists|nonce: Seq<u8>|
            nonce.len() == NONCE_LEN && #[trigger] sealed_wire(key@, nonce, plaintext@) == Some(
                w@,
            ),
        wire matches Some(w) ==> opened_wire(key@, w@) == Some(plaintext@),
{
    let nonce = fresh_nonce();
    encrypt_with_nonce(plaintext, key, &nonce)
}

/// Opens a wire text under `key`.
pub fn decrypt_with_key(b64_ciphertext: &str, key: &[u8; 32]) -> (plaintext: Option<String>)
    ensures
        text_of(plaintext) == opened_wire(key@, b64_ciphertext@),
{
    match base64_decode(b64_ciphertext) {
        None => None,
        Some(decoded) => {
            if decoded.len() < MIN_SEALED_LEN {
                return None;
            }
            let nonce = slice_subrange(decoded.as_slice(), 0, NONCE_LEN);
            let sealed = slice_subrange(decoded.as_slice(), NONCE_LEN, decoded.len());
            match aes_gcm_open(key, nonce, sealed) {
                None => None,
                Some(bytes) => utf8_text(bytes),
            }
        },
    }
}

// ---------------------------------------------------------------------------
// The envelope
// ---------------------------------------------------------------------------
/// What an envelope holds: its discriminator, the sender's text and the
/// sender's clock in milliseconds.
pub ghost struct EnvelopeView {
    pub kind: Seq<char>,
    pub data: Seq<char>,
    pub ts: i64,
}

/// An envelope read off the wire.
pub struct Envelope {
    pub msg_type: String,
    pub data: String,
    pub ts: i64,
}

impl View for Envelope {
    type V = EnvelopeView;

    open spec fn view(&self) -> EnvelopeView {
        EnvelopeView { kind: self.msg_type@, data: self.data@, ts: self.ts }
    }
}

/// The envelope that this crate writes around `text` at time `ts`.
pub open spec fn text_envelope(text: Seq<char>, ts: i64) -> EnvelopeView {
    EnvelopeView { kind: "text"@, data: text, ts }
}

/// The envelope that a JSON text denotes: an object with a string under
/// `type`, a string under `data` and an integer under `ts`. Other members
/// are ignored.
pub open spec fn envelope_of(json: Seq<char>) -> Option<EnvelopeView> {
    match json_object_of(json) {
        None => None,
        Some((texts, integers)) => if texts.contains_key("type"@) && texts.contains_key("data"@)
            && integers.contains_key("ts"@) {
            Some(EnvelopeView { kind: texts["type"@], data: texts["data"@], ts: integers["ts"@] })
        } else {
            None
        },
    }
}

/// Whether a timestamp lies within `window_seconds` of the receiver's clock,
/// both in milliseconds, on either side.
pub open spec fn is_fresh(now_ms: i64, ts: i64, window_seconds: i64) -> bool {
    let diff = now_ms as int - ts as int;
    (if diff < 0 {
        -diff
    } else {
        diff
    }) <= window_seconds as int * 1000
}

/// The envelope that the receiver accepts from a JSON text at `now_ms`.
pub open spec fn accepted(json: Seq<char>, now_ms: i64, window_seconds: i64) -> Option<
    EnvelopeView,
> {
    match envelope_of(json) {
        Some(envelope) => if is_fresh(now_ms, envelope.ts, window_seconds) {
            Some(envelope)
        } else {
            None
        },
        None => None,
    }
}

/// The most bytes that an envelope takes beyond six for each character of
/// its text: braces, commas, colons and quotes, the three keys, the
/// discriminator and the longest timestamp.
pub const ENVELOPE_OVERHEAD: usize = 122;

/// An upper bound on the bytes of the envelope of `text`.
pub open spec fn envelope_bound(text: Seq<char>) -> int {
    6 * text.len() + ENVELOPE_OVERHEAD
}

proof fn keys_differ()
    ensures
        "type"@ != "data"@,
        "type"@ != "ts"@,
        "data"@ != "ts"@,
        "type"@.len() == 4,
        "text"@.len() == 4,
        "data"@.len() == 4,
        "ts"@.len() == 2,
{
    reveal_strlit("text");
    reveal_strlit("type");
    reveal_strlit("data");
    reveal_strlit("ts");
    assert("type"@[0] == 't');
    assert("data"@[0] == 'd');
    assert("type"@.len() == 4);
    assert("data"@.len() == 4);
    assert("ts"@.len() == 2);
}

/// Serialises the envelope of `text` stamped `ts`: a JSON text comes out
/// for every text and every timestamp, it denotes that envelope, and it is
/// no longer than `envelope_bound` says.
pub fn envelope_json(text: &str, ts: i64) -> (json: Option<String>)
    ensures
        json is Some,
        json matches Some(j) ==> envelope_of(j@) == Some(text_envelope(text@, ts)),
        json matches Some(j) ==> encode_utf8(j@).len() <= envelope_bound(text@),
{
    let mut object = json_new();
    json_insert_text(&mut object, "type", "text");
    json_insert_text(&mut object, "data", text);
    json_insert_integer(&mut object, "ts", ts);
    proof {
        keys_differ();
    }
    json_to_text(&object)
}

/// The plaintext that goes under the cipher for `text` at `ts`: the JSON
/// text of its envelope.
pub fn build_plaintext_message_at(text: &str, ts: i64) -> (payload: String)
    ensures
        envelope_of(payload@) == Some(text_envelope(text@, ts)),
        encode_utf8(payload@).len() <= envelope_bound(text@),
{
    match envelope_json(text, ts) {
        Some(json) => json,
        None => text.to_owned(),
    }
}

/// The plaintext that goes under the cipher for `text`: the JSON text of
/// its envelope, stamped with the system clock.
pub fn build_plaintext_message(original_text: &str) -> (payload: String)
    ensures
        exists|ts: i64| #[trigger]
            envelope_of(payload@) == Some(text_envelope(original_text@, ts)),
        encode_utf8(payload@).len() <= envelope_bound(original_text@),
{
    let ts = unix_millis();
    build_plaintext_message_at(original_text, ts)
}

/// Reads the envelope out of a JSON text.
pub fn parse_envelope(json: &str) -> (envelope: Option<Envelope>)
    ensures
        match envelope {
            Some(e) => envelope_of(json@) == Some(e@),
            None => envelope_of(json@) is None,
        },
{
    match json_parse_object(json) {
        None => None,
        Some(object) => {
            let msg_type = json_text_at(&object, "type");
            let data = json_text_at(&object, "data");
            let ts = json_integer_at(&object, "ts");
            match (msg_type, data, ts) {
                (Some(msg_type), Some(data), Some(ts)) => Some(Envelope { msg_type, data, ts }),
                _ => None,
            }
        },
    }
}

/// Decides whether `ts` is fresh at `now_ms` for a window of `window_seconds`.
pub fn check_fresh(now_ms: i64, ts: i64, window_seconds: i64) -> (fresh: bool)
    ensures
        fresh == is_fresh(now_ms, ts, window_seconds),
{
    let diff: i128 = now_ms as i128 - ts as i128;
    let magnitude: i128 = if diff < 0 {
        -diff
    } else {
        diff
    };
    let window: i128 = window_seconds as i128 * 1000;
    magnitude <= window
}

/// Extracts the sender's text from a JSON envelope at time `now_ms`: the
/// envelope must parse and be fresh. On acceptance the envelope's timestamp
/// is recorded for `source_id`; otherwise the record stays as it was.
pub fn extract_original_message_at(
    json_str: &str,
    source_id: &str,
    now_ms: i64,
    window_seconds: i64,
    replay: &mut ReplayState,
) -> (original: Option<String>)
    ensures
        match accepted(json_str@, now_ms, window_seconds) {
            Some(envelope) => text_of(original) == Some(envelope.data) && final(replay)@ == old(
                replay,
            )@.insert(source_id@, envelope.ts),
            None => original is None && final(replay)@ == old(replay)@,
        },
{
    match parse_envelope(json_str) {
        None => None,
        Some(envelope) => {
            if !check_fresh(now_ms, envelope.ts, window_seconds) {
                return None;
            }
            replay.record(source_id, envelope.ts);
            Some(envelope.data)
        },
    }
}

/// Extracts the sender's text from a JSON envelope, judged by the system
/// clock.
pub fn extract_original_message(
    json_str: &str,
    source_id: &str,
    window_seconds: i64,
    replay: &mut ReplayState,
) -> (original: Option<String>)
    ensures
        exists|now_ms: i64|
            match #[trigger] accepted(json_str@, now_ms, window_seconds) {
                Some(envelope) => text_of(original) == Some(envelope.data) && final(replay)@
                    == old(replay)@.insert(source_id@, envelope.ts),
                None => original is None && final(replay)@ == old(replay)@,
            },
{
    let now_ms = unix_millis();
    extract_original_message_at(json_str, source_id, now_ms, window_seconds, replay)
}

} // verus!
