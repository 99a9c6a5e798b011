//! The two directions of the codec as the connections use them: what goes
//! out is wrapped, what comes in is unwrapped, and each role has its key.

use crate::config::WsConfig;
use crate::envelope::{
    accepted,
    decrypt_with_key,
    build_plaintext_message_at,
    encrypt_with_nonce,
    envelope_bound,
    envelope_of,
    extract_original_message_at,
    is_fresh,
    key_of,
    opened_wire,
    sealable,
    sealed_wire,
    text_envelope,
    text_of,
    MIN_SEALED_LEN,
    NONCE_LEN,
};
use crate::foreign::{aes_gcm_opened, base64_bytes, fresh_nonce, unix_millis};
use crate::replay::ReplayState;
use crate::state::WsState;
use vstd::prelude::*;
use vstd::utf8::*;

verus! {

/// The source under which a client records what it accepts from its server.
pub open spec fn server_source() -> Seq<char> {
    "server"@
}

/// The source under which ad-hoc decryption records what it accepts.
pub open spec fn manual_source() -> Seq<char> {
    "manual_decrypt"@
}

// ---------------------------------------------------------------------------
// Outgoing
// ---------------------------------------------------------------------------
/// How a text left the codec.
#[derive(Clone, Copy, Debug, PartialEq, Eq, Structural)]
pub enum WireForm {
    /// As it came in: encryption is off, no key is set, or the cipher cannot
    /// take the envelope.
    Plain,
    /// Sealed around its envelope.
    SealedEnvelope,
}

/// A text on its way out, and the form it took.
pub struct Outgoing {
    pub wire: String,
    pub form: WireForm,
}

/// Whether `json` is a JSON text of the envelope of `text` stamped `ts`, no
/// longer than such a text gets.
pub open spec fn is_envelope_text(json: Seq<char>, text: Seq<char>, ts: i64) -> bool {
    envelope_of(json) == Some(text_envelope(text, ts)) && encode_utf8(json).len()
        <= envelope_bound(text)
}

/// What goes out for `text` whose envelope reads `json`: the envelope
/// sealed, or `text` unchanged where it cannot be sealed.
pub open spec fn outgoing_for(
    json: Seq<char>,
    key: Seq<u8>,
    nonce: Seq<u8>,
    text: Seq<char>,
) -> (Seq<char>, WireForm) {
    match sealed_wire(key, nonce, json) {
        Some(wire) => (wire, WireForm::SealedEnvelope),
        None => (text, WireForm::Plain),
    }
}

/// Whether `wire`, in form `form`, is the wrapping of `text` at time
/// `now_ms` with nonce `nonce`, for the given switch and key. While
/// encryption is off or no key is set it is the text itself. Else the
/// envelope of the text, stamped `now_ms`, is sealed under the key with the
/// nonce, and the wire opens under the key to that envelope; only an
/// envelope that the cipher cannot take leaves the text as it is.
pub open spec fn is_wrapping(
    enabled: bool,
    key: Option<Seq<u8>>,
    text: Seq<char>,
    now_ms: i64,
    nonce: Seq<u8>,
    wire: Seq<char>,
    form: WireForm,
) -> bool {
    if !enabled || key is None {
        wire == text && form == WireForm::Plain
    } else {
        exists|json: Seq<char>|
            {
                &&& is_envelope_text(json, text, now_ms)
                &&& #[trigger] outgoing_for(json, key.unwrap(), nonce, text) == (wire, form)
                &&& form == WireForm::SealedEnvelope <==> sealable(encode_utf8(json).len() as int)
                &&& form == WireForm::SealedEnvelope ==> opened_wire(key.unwrap(), wire) == Some(
                    json,
                )
            }
    }
}

/// Whether `wire` opens under `key` to the envelope of `text` stamped `ts`.
pub open spec fn carries(wire: Seq<char>, key: Seq<u8>, text: Seq<char>, ts: i64) -> bool {
    match opened_wire(key, wire) {
        Some(json) => envelope_of(json) == Some(text_envelope(text, ts)),
        None => false,
    }
}

/// Seals the envelope text `json` of `text` under `key` with `nonce`. Where
/// the cipher cannot take it, `text` goes out unchanged.
pub fn seal_payload(json: &str, text: &str, key: &[u8; 32], nonce: &[u8; 12]) -> (out: Outgoing)
    ensures
        (out.wire@, out.form) == outgoing_for(json@, key@, nonce@, text@),
        out.form == WireForm::SealedEnvelope <==> sealable(encode_utf8(json@).len() as int),
        out.form == WireForm::SealedEnvelope ==> opened_wire(key@, out.wire@) == Some(json@),
{
    match encrypt_with_nonce(json, key, nonce) {
        Some(wire) => Outgoing { wire, form: WireForm::SealedEnvelope },
        None => Outgoing { wire: text.to_owned(), form: WireForm::Plain },
    }
}

/// Wraps `text` for the wire at time `now_ms` with the given nonce. With
/// encryption off or no key the text goes out unchanged. Otherwise its
/// envelope, stamped `now_ms`, is sealed: the wire then carries the text
/// under the key. That is so for every text whose envelope the cipher can
/// take; only a longer one goes out unchanged.
pub fn wrap_at(
    config: &WsConfig,
    key: &Option<[u8; 32]>,
    text: &str,
    now_ms: i64,
    nonce: &[u8; 12],
) -> (out: Outgoing)
    ensures
        is_wrapping(
            config.encryption_enabled,
            key_of(*key),
            text@,
            now_ms,
            nonce@,
            out.wire@,
            out.form,
        ),
        config.encryption_enabled && key is Some && sealable(envelope_bound(text@))
            ==> out.form == WireForm::SealedEnvelope,
        out.form == WireForm::SealedEnvelope ==> carries(
            out.wire@,
            key_of(*key).unwrap(),
            text@,
            now_ms,
        ),
{
    if !config.encryption_enabled {
        return Outgoing { wire: text.to_owned(), form: WireForm::Plain };
    }
    match key {
        None => Outgoing { wire: text.to_owned(), form: WireForm::Plain },
        Some(bytes) => {
            let json = build_plaintext_message_at(text, now_ms);
            let out = seal_payload(json.as_str(), text, bytes, nonce);
            assert(is_envelope_text(json@, text@, now_ms) && outgoing_for(
                json@,
                key_of(*key).unwrap(),
                nonce@,
                text@,
            ) == (out.wire@, out.form));
            out
        },
    }
}

/// Whether `wire` is the wrapping of `text` at some reading of the clock
/// with some nonce of the right length.
pub open spec fn is_wire_for(
    enabled: bool,
    key: Option<Seq<u8>>,
    text: Seq<char>,
    wire: Seq<char>,
) -> bool {
    exists|now_ms: i64, nonce: Seq<u8>, form: WireForm|
        nonce.len() == NONCE_LEN && #[trigger] is_wrapping(
            enabled,
            key,
            text,
            now_ms,
            nonce,
            wire,
            form,
        )
}

/// Wraps `text` with the system clock and a fresh nonce. With encryption
/// on and a key set, the wire carries every text whose envelope the cipher
/// can take, stamped with the clock's reading.
pub fn wrap(config: &WsConfig, key: &Option<[u8; 32]>, text: &str) -> (wire: String)
    ensures
        !config.encryption_enabled || key is None ==> wire@ == text@,
        is_wire_for(config.encryption_enabled, key_of(*key), text@, wire@),
        config.encryption_enabled && key is Some && sealable(envelope_bound(text@))
            ==> exists|ts: i64| #[trigger] carries(wire@, key_of(*key).unwrap(), text@, ts),
{
    let now_ms = unix_millis();
    let nonce = fresh_nonce();
    let out = wrap_at(config, key, text, now_ms, &nonce);
    assert(is_wrapping(
        config.encryption_enabled,
        key_of(*key),
        text@,
        now_ms,
        nonce@,
        out.wire@,
        out.form,
    ));
    assert(out.form == WireForm::SealedEnvelope ==> carries(
        out.wire@,
        key_of(*key).unwrap(),
        text@,
        now_ms,
    ));
    out.wire
}

/// Wraps a text that the server sends, under the server key.
pub fn process_outgoing_for_server(state: &WsState, text: &str) -> (wire: String)
    ensures
        !state.config.encryption_enabled || state.server_key is None ==> wire@ == text@,
        is_wire_for(state.config.encryption_enabled, key_of(state.server_key), text@, wire@),
        state.config.encryption_enabled && state.server_key is Some && sealable(
            envelope_bound(text@),
        ) ==> exists|ts: i64| #[trigger]
            carries(wire@, key_of(state.server_key).unwrap(), text@, ts),
{
    wrap(&state.config, &state.server_key, text)
}

/// Wraps a text that the client sends, under the client key.
pub fn process_outgoing_for_client(state: &WsState, text: &str) -> (wire: String)
    ensures
        !state.config.encryption_enabled || state.client_key is None ==> wire@ == text@,
        is_wire_for(state.config.encryption_enabled, key_of(state.client_key), text@, wire@),
        state.config.encryption_enabled && state.client_key is Some && sealable(
            envelope_bound(text@),
        ) ==> exists|ts: i64| #[trigger]
            carries(wire@, key_of(state.client_key).unwrap(), text@, ts),
{
    wrap(&state.config, &state.client_key, text)
}

// ---------------------------------------------------------------------------
// Incoming
// ---------------------------------------------------------------------------
/// What the receiver makes of a wire text: the text it hands on and, where
/// an envelope was accepted, the timestamp it records.
pub ghost struct Inbound {
    pub text: Seq<char>,
    pub recorded: Option<i64>,
}

/// What unwrapping yields at `now_ms`. With encryption off the wire text is
/// handed on as it is. With it on, the text must open under the key, parse
/// as an envelope and be fresh; anything else yields nothing.
pub open spec fn incoming(
    enabled: bool,
    key: Option<Seq<u8>>,
    window_seconds: i64,
    wire: Seq<char>,
    now_ms: i64,
) -> Option<Inbound> {
    if !enabled {
        Some(Inbound { text: wire, recorded: None })
    } else {
        match key {
            None => None,
            Some(k) => match opened_wire(k, wire) {
                None => None,
                Some(json) => match accepted(json, now_ms, window_seconds) {
                    Some(envelope) => Some(
                        Inbound { text: envelope.data, recorded: Some(envelope.ts) },
                    ),
                    None => None,
                },
            },
        }
    }
}

/// The freshness record after a wire text from `source` was unwrapped.
pub open spec fn recorded_after(
    before: Map<Seq<char>, i64>,
    source: Seq<char>,
    inbound: Option<Inbound>,
) -> Map<Seq<char>, i64> {
    match inbound {
        Some(Inbound { recorded: Some(ts), .. }) => before.insert(source, ts),
        _ => before,
    }
}

/// The text that unwrapping hands on, if any.
pub open spec fn handed_on(inbound: Option<Inbound>) -> Option<Seq<char>> {
    match inbound {
        Some(i) => Some(i.text),
        None => None,
    }
}

/// Unwraps a wire text from `source_id` at time `now_ms`.
pub fn unwrap_at(
    config: &WsConfig,
    key: &Option<[u8; 32]>,
    replay: &mut ReplayState,
    wire: &str,
    source_id: &str,
    now_ms: i64,
) -> (text: Option<String>)
    ensures
        text_of(text) == handed_on(
            incoming(config.encryption_enabled, key_of(*key), config.replay_window, wire@, now_ms),
        ),
        final(replay)@ == recorded_after(
            old(replay)@,
            source_id@,
            incoming(config.encryption_enabled, key_of(*key), config.replay_window, wire@, now_ms),
        ),
{
    if !config.encryption_enabled {
        return Some(wire.to_owned());
    }
    match key {
        None => None,
        Some(key) => match decrypt_with_key(wire, key) {
            None => None,
            Some(json) => extract_original_message_at(
                json.as_str(),
                source_id,
                now_ms,
                config.replay_window,
                replay,
            ),
        },
    }
}

/// Whether `text` and `after` are what unwrapping `wire` from `source`
/// leaves at some reading of the clock.
pub open spec fn is_unwrapping(
    enabled: bool,
    key: Option<Seq<u8>>,
    window_seconds: i64,
    wire: Seq<char>,
    source: Seq<char>,
    before: Map<Seq<char>, i64>,
    text: Option<Seq<char>>,
    after: Map<Seq<char>, i64>,
) -> bool {
    exists|now_ms: i64|
        {
            let inbound = #[trigger] incoming(enabled, key, window_seconds, wire, now_ms);
            text == handed_on(inbound) && after == recorded_after(before, source, inbound)
        }
}

/// Unwraps a wire text from `source_id`, judged by the system clock.
pub fn unwrap(
    config: &WsConfig,
    key: &Option<[u8; 32]>,
    replay: &mut ReplayState,
    wire: &str,
    source_id: &str,
) -> (text: Option<String>)
    ensures
        is_unwrapping(
            config.encryption_enabled,
            key_of(*key),
            config.replay_window,
            wire@,
            source_id@,
            old(replay)@,
            text_of(text),
            final(replay)@,
        ),
        !config.encryption_enabled ==> text_of(text) == Some(wire@) && final(replay)@ == old(
            replay,
        )@,
{
    let now_ms = unix_millis();
    let text = unwrap_at(config, key, replay, wire, source_id, now_ms);
    assert(text_of(text) == handed_on(
        incoming(config.encryption_enabled, key_of(*key), config.replay_window, wire@, now_ms),
    ));
    text
}

/// Unwraps a wire text that the server received from the client known as
/// `client_id`, under the server key.
pub fn process_incoming_for_server(
    state: &mut WsState,
    encrypted_or_plain: &str,
    client_id: &str,
) -> (text: Option<String>)
    ensures
        is_unwrapping(
            old(state).config.encryption_enabled,
            key_of(old(state).server_key),
            old(state).config.replay_window,
            encrypted_or_plain@,
            client_id@,
            old(state).replay@,
            text_of(text),
            final(state).replay@,
        ),
        !old(state).config.encryption_enabled ==> text_of(text) == Some(encrypted_or_plain@),
        *final(state) == (WsState { replay: final(state).replay, ..*old(state) }),
{
    unwrap(&state.config, &state.server_key, &mut state.replay, encrypted_or_plain, client_id)
}

/// Unwraps a wire text that the client received from its server, under the
/// client key.
pub fn process_incoming_for_client(state: &mut WsState, encrypted_or_plain: &str) -> (text: Option<
    String,
>)
    ensures
        is_unwrapping(
            old(state).config.encryption_enabled,
            key_of(old(state).client_key),
            old(state).config.replay_window,
            encrypted_or_plain@,
            server_source(),
            old(state).replay@,
            text_of(text),
            final(state).replay@,
        ),
        !old(state).config.encryption_enabled ==> text_of(text) == Some(encrypted_or_plain@),
        *final(state) == (WsState { replay: final(state).replay, ..*old(state) }),
{
    unwrap(&state.config, &state.client_key, &mut state.replay, encrypted_or_plain, "server")
}

// ---------------------------------------------------------------------------
// What holds of wrapping and unwrapping together
// ---------------------------------------------------------------------------
/// Round trip: a wire text that carries the envelope of `text` stamped `ts`
/// under `key` unwraps to `text` under the same key, at every reading of the
/// clock within the window around `ts`, and `ts` is what gets recorded.
pub proof fn sealed_text_unwraps(
    wire: Seq<char>,
    key: Seq<u8>,
    text: Seq<char>,
    ts: i64,
    now_ms: i64,
    window_seconds: i64,
)
    requires
        carries(wire, key, text, ts),
        is_fresh(now_ms, ts, window_seconds),
    ensures
        incoming(true, Some(key), window_seconds, wire, now_ms) == Some(
            Inbound { text, recorded: Some(ts) },
        ),
{
}

/// A wrapping that is sealed carries its text, stamped with the time of
/// wrapping, under the key.
pub proof fn sealed_wrapping_carries(
    key: Seq<u8>,
    text: Seq<char>,
    ts: i64,
    nonce: Seq<u8>,
    wire: Seq<char>,
)
    requires
        is_wrapping(true, Some(key), text, ts, nonce, wire, WireForm::SealedEnvelope),
    ensures
        carries(wire, key, text, ts),
{
}

/// With encryption on and a key set, every text whose envelope the cipher
/// can take is sealed.
pub proof fn sealable_text_is_sealed(
    key: Seq<u8>,
    text: Seq<char>,
    ts: i64,
    nonce: Seq<u8>,
    wire: Seq<char>,
    form: WireForm,
)
    requires
        is_wrapping(true, Some(key), text, ts, nonce, wire, form),
        sealable(envelope_bound(text)),
    ensures
        form == WireForm::SealedEnvelope,
{
}

/// Round trip: with encryption on and a key set, what wrapping makes of a
/// text whose envelope the cipher can take unwraps under the same key to
/// that text at every reading of the clock within the window around the
/// time of wrapping, and to nothing at every reading outside it.
pub proof fn wrapped_text_unwraps(
    key: Seq<u8>,
    text: Seq<char>,
    ts: i64,
    nonce: Seq<u8>,
    wire: Seq<char>,
    form: WireForm,
    now_ms: i64,
    window_seconds: i64,
)
    requires
        is_wrapping(true, Some(key), text, ts, nonce, wire, form),
        sealable(envelope_bound(text)),
    ensures
        incoming(true, Some(key), window_seconds, wire, now_ms) == (if is_fresh(
            now_ms,
            ts,
            window_seconds,
        ) {
            Some(Inbound { text, recorded: Some(ts) })
        } else {
            None
        }),
{
}

/// With encryption off, every text wraps to itself and unwraps to itself,
/// whatever keys, clock and nonce.
pub proof fn plain_both_ways(
    key: Option<Seq<u8>>,
    text: Seq<char>,
    now_ms: i64,
    nonce: Seq<u8>,
    wire: Seq<char>,
    form: WireForm,
    window_seconds: i64,
)
    requires
        is_wrapping(false, key, text, now_ms, nonce, wire, form),
    ensures
        wire == text,
        form == WireForm::Plain,
        incoming(false, key, window_seconds, text, now_ms) == Some(
            Inbound { text, recorded: None },
        ),
{
}

/// With encryption on, unwrapping yields nothing for a text that is not
/// Base64, that decodes to fewer bytes than nonce and tag take, whose tag
/// does not authenticate it, or whose envelope is stamped outside the
/// window around the receiver's clock.
pub proof fn unwrap_rejects(
    key: Option<Seq<u8>>,
    window_seconds: i64,
    wire: Seq<char>,
    now_ms: i64,
)
    ensures
        base64_bytes(wire) is None ==> incoming(true, key, window_seconds, wire, now_ms) is None,
        base64_bytes(wire) matches Some(raw) && raw.len() < MIN_SEALED_LEN ==> incoming(
            true,
            key,
            window_seconds,
            wire,
            now_ms,
        ) is None,
        key matches Some(k) && base64_bytes(wire) matches Some(raw) && raw.len() >= MIN_SEALED_LEN
            && aes_gcm_opened(
            k,
            raw.subrange(0, NONCE_LEN as int),
            raw.subrange(NONCE_LEN as int, raw.len() as int),
        ) is None ==> incoming(true, key, window_seconds, wire, now_ms) is None,
        key matches Some(k) && opened_wire(k, wire) matches Some(json) && envelope_of(
            json,
        ) matches Some(envelope) && !is_fresh(now_ms, envelope.ts, window_seconds) ==> incoming(
            true,
            key,
            window_seconds,
            wire,
            now_ms,
        ) is None,
        key is None ==> incoming(true, key, window_seconds, wire, now_ms) is None,
{
}

} // verus!
