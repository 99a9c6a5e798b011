//! The calls that leave this crate. Every contract in this file is believed,
//! not proved: each states what the called function's source or documentation
//! shows, and the doc comment above it says what is taken on trust.

use aes_gcm::aead::{Aead, AeadCore, KeyInit};
use base64::Engine;
use vstd::prelude::*;
use vstd::utf8::*;

verus! {

// ---------------------------------------------------------------------------
// Clock and randomness
// ---------------------------------------------------------------------------
/// `std::time::SystemTime::now`, as milliseconds since the Unix epoch (zero
/// for a clock set before it). Nothing is claimed of the value.
#[verifier::external_body]
pub(crate) fn unix_millis() -> i64 {
    let since_epoch = std::time::SystemTime::now().duration_since(std::time::UNIX_EPOCH);
    since_epoch.unwrap_or_default().as_millis() as i64
}

/// `AeadCore::generate_nonce` of `aes_gcm::Aes256Gcm` on the operating
/// system's generator: twelve bytes, of which nothing more is claimed.
#[verifier::external_body]
pub(crate) fn fresh_nonce() -> [u8; 12] {
    let nonce = aes_gcm::Aes256Gcm::generate_nonce(&mut aes_gcm::aead::OsRng);
    let mut bytes = [0u8; 12];
    bytes.copy_from_slice(nonce.as_slice());
    bytes
}

// ---------------------------------------------------------------------------
// AES-256-GCM
// ---------------------------------------------------------------------------
/// What AES-256-GCM sealing without associated data yields for a 32-byte key,
/// a 12-byte nonce and a plaintext: ciphertext followed by the 16-byte tag,
/// or nothing where the cipher refuses the plaintext.
pub uninterp spec fn aes_gcm_sealed(key: Seq<u8>, nonce: Seq<u8>, plaintext: Seq<u8>) -> Option<
    Seq<u8>,
>;

/// What AES-256-GCM opening without associated data yields for a 32-byte key,
/// a 12-byte nonce and a sealed text: the plaintext, or nothing where the tag
/// does not authenticate it.
pub uninterp spec fn aes_gcm_opened(key: Seq<u8>, nonce: Seq<u8>, sealed: Seq<u8>) -> Option<
    Seq<u8>,
>;

/// The longest plaintext, in bytes, that AES-GCM seals (`aes_gcm::P_MAX`).
pub const AES_GCM_MAX_PLAINTEXT: u64 = 0x10_0000_0000;

/// `Aead::encrypt` of `aes_gcm::Aes256Gcm`. Taken on trust: the call fails
/// exactly on a plaintext longer than `P_MAX`; what it returns is the
/// plaintext's length plus a 16-byte tag long, depends on key, nonce and
/// plaintext alone, and opens under the same key and nonce to the plaintext.
/// The preconditions keep the nonce at the length the cipher takes and the
/// buffer for ciphertext and tag within what a vector can hold.
#[verifier::external_body]
pub(crate) fn aes_gcm_seal(key: &[u8; 32], nonce: &[u8], plaintext: &[u8]) -> (sealed: Option<
    Vec<u8>,
>)
    requires
        nonce@.len() == 12,
        plaintext@.len() + 16 <= isize::MAX,
    ensures
        sealed is Some <==> plaintext@.len() <= AES_GCM_MAX_PLAINTEXT,
        match sealed {
            Some(bytes) => aes_gcm_sealed(key@, nonce@, plaintext@) == Some(bytes@),
            None => aes_gcm_sealed(key@, nonce@, plaintext@) is None,
        },
        sealed matches Some(bytes) ==> bytes@.len() == plaintext@.len() + 16 && aes_gcm_opened(
            key@,
            nonce@,
            bytes@,
        ) == Some(plaintext@),
{
    let cipher = aes_gcm::Aes256Gcm::new(aes_gcm::Key::<aes_gcm::Aes256Gcm>::from_slice(key));
    cipher.encrypt(aes_gcm::Nonce::from_slice(nonce), plaintext).ok()
}

/// `Aead::decrypt` of `aes_gcm::Aes256Gcm`. Taken on trust: the result depends
/// on key, nonce and sealed text alone; a sealed text shorter than the tag is
/// refused; a plaintext that comes out is 16 bytes shorter than what went in.
/// The precondition keeps the nonce at the length the cipher takes.
#[verifier::external_body]
pub(crate) fn aes_gcm_open(key: &[u8; 32], nonce: &[u8], sealed: &[u8]) -> (opened: Option<
    Vec<u8>,
>)
    requires
        nonce@.len() == 12,
    ensures
        match opened {
            Some(bytes) => aes_gcm_opened(key@, nonce@, sealed@) == Some(bytes@),
            None => aes_gcm_opened(key@, nonce@, sealed@) is None,
        },
        sealed@.len() < 16 ==> opened is None,
        opened matches Some(bytes) ==> bytes@.len() + 16 == sealed@.len(),
{
    let cipher = aes_gcm::Aes256Gcm::new(aes_gcm::Key::<aes_gcm::Aes256Gcm>::from_slice(key));
    cipher.decrypt(aes_gcm::Nonce::from_slice(nonce), sealed).ok()
}

// ---------------------------------------------------------------------------
// Base64
// ---------------------------------------------------------------------------
/// The standard-alphabet, padded Base64 text of a byte string.
pub uninterp spec fn base64_text(data: Seq<u8>) -> Seq<char>;

/// The bytes that a text stands for in padded standard-alphabet Base64, or
/// nothing where the text is not valid Base64.
pub uninterp spec fn base64_bytes(text: Seq<char>) -> Option<Seq<u8>>;

/// `Engine::encode` of `base64::engine::general_purpose::STANDARD`. Taken on
/// trust: the text depends on the bytes alone and decodes back to them. The
/// precondition keeps the encoded text, a third longer than the bytes and
/// padded, within what a vector can hold; beyond that the call panics.
#[verifier::external_body]
pub(crate) fn base64_encode(data: &[u8]) -> (text: String)
    requires
        data@.len() <= isize::MAX / 2,
    ensures
        text@ == base64_text(data@),
        base64_bytes(text@) == Some(data@),
{
    base64::engine::general_purpose::STANDARD.encode(data)
}

/// `Engine::decode` of `base64::engine::general_purpose::STANDARD`. Taken on
/// trust: whether the text decodes, and to what, depends on the text alone.
#[verifier::external_body]
pub(crate) fn base64_decode(text: &str) -> (data: Option<Vec<u8>>)
    ensures
        match data {
            Some(bytes) => base64_bytes(text@) == Some(bytes@),
            None => base64_bytes(text@) is None,
        },
{
    base64::engine::general_purpose::STANDARD.decode(text).ok()
}

// ---------------------------------------------------------------------------
// Text
// ---------------------------------------------------------------------------
/// `String::from_utf8`: succeeds exactly on well-formed UTF-8 and then holds
/// the characters that the bytes encode.
#[verifier::external_body]
pub(crate) fn utf8_text(bytes: Vec<u8>) -> (text: Option<String>)
    ensures
        text is Some <==> valid_utf8(bytes@),
        text matches Some(s) ==> s@ == decode_utf8(bytes@),
{
    String::from_utf8(bytes).ok()
}

/// The character of a decimal digit.
pub open spec fn digit_char(digit: int) -> char {
    if digit == 0 {
        '0'
    } else if digit == 1 {
        '1'
    } else if digit == 2 {
        '2'
    } else if digit == 3 {
        '3'
    } else if digit == 4 {
        '4'
    } else if digit == 5 {
        '5'
    } else if digit == 6 {
        '6'
    } else if digit == 7 {
        '7'
    } else if digit == 8 {
        '8'
    } else {
        '9'
    }
}

/// A number in decimal: its digits, most significant first, without sign
/// and without leading zeros.
pub open spec fn decimal_of(number: u64) -> Seq<char>
    decreases number,
{
    if number < 10 {
        seq![digit_char(number as int)]
    } else {
        decimal_of(number / 10).push(digit_char((number % 10) as int))
    }
}

/// `ToString::to_string` on a `u64`. Taken on trust: the text is the number
/// in decimal and parses back to it.
#[verifier::external_body]
pub(crate) fn decimal_string(number: u64) -> (text: String)
    ensures
        text@ == decimal_of(number),
        decimal_u64(text@) == Some(number),
{
    number.to_string()
}

/// The number that a text denotes for `u64`'s `FromStr`, or nothing where the
/// text is no such number.
pub uninterp spec fn decimal_u64(text: Seq<char>) -> Option<u64>;

/// `str::parse::<u64>`. Taken on trust: the outcome depends on the text alone.
#[verifier::external_body]
pub(crate) fn parse_u64(text: &str) -> (number: Option<u64>)
    ensures
        number == decimal_u64(text@),
{
    text.parse::<u64>().ok()
}

// ---------------------------------------------------------------------------
// URLs
// ---------------------------------------------------------------------------
/// The scheme of a text that parses as an absolute URL, or nothing where it
/// does not parse.
pub uninterp spec fn url_scheme_of(text: Seq<char>) -> Option<Seq<char>>;

/// `url::Url::parse` followed by `Url::scheme`. Taken on trust: whether the
/// text parses, and its scheme, depend on the text alone.
#[verifier::external_body]
pub(crate) fn url_scheme(text: &str) -> (scheme: Option<String>)
    ensures
        match scheme {
            Some(s) => url_scheme_of(text@) == Some(s@),
            None => url_scheme_of(text@) is None,
        },
{
    url::Url::parse(text).ok().map(|parsed| parsed.scheme().to_string())
}

// ---------------------------------------------------------------------------
// JSON objects
// ---------------------------------------------------------------------------
#[verifier::external_type_specification]
#[verifier::external_body]
pub struct ExJsonValue(serde_json::Value);

#[verifier::external_type_specification]
#[verifier::external_body]
#[verifier::reject_recursive_types(K)]
#[verifier::reject_recursive_types(V)]
pub struct ExJsonObject<K, V>(serde_json::Map<K, V>);

/// A JSON object as `serde_json` holds it.
pub type JsonObject = serde_json::Map<String, serde_json::Value>;

/// The members of a JSON object whose value is a string, by key.
pub uninterp spec fn json_texts(object: JsonObject) -> Map<
    Seq<char>,
    Seq<char>,
>;

/// The members of a JSON object whose value is an integer within `i64`, by key.
pub uninterp spec fn json_integers(object: JsonObject) -> Map<
    Seq<char>,
    i64,
>;

/// The keys of a JSON object whose value is neither a string nor an integer
/// within `i64`.
pub uninterp spec fn json_others(object: JsonObject) -> Set<Seq<char>>;

/// The number of bytes of the compact JSON text of an object: braces, one
/// comma between members, and for each member its key in quotes, a colon and
/// its value.
pub uninterp spec fn json_length(object: JsonObject) -> nat;

/// The string members and the integer members of the JSON object that a text
/// denotes, or nothing where the text does not parse as an object.
pub uninterp spec fn json_object_of(text: Seq<char>) -> Option<
    (Map<Seq<char>, Seq<char>>, Map<Seq<char>, i64>),
>;

/// `serde_json::Map::new`: an object without members, whose text is `{}`.
#[verifier::external_body]
pub(crate) fn json_new() -> (object: JsonObject)
    ensures
        forall|key: Seq<char>| !(#[trigger] json_texts(object).contains_key(key)),
        forall|key: Seq<char>| !(#[trigger] json_integers(object).contains_key(key)),
        forall|key: Seq<char>| !(#[trigger] json_others(object).contains(key)),
        json_length(object) == 2,
{
    serde_json::Map::new()
}

/// `serde_json::Map::insert` with a string value: the key then holds that
/// string and nothing else; the other members stay. The object's text grows
/// by no more than a comma, a colon and the two strings in quotes, and the
/// serialiser writes no character of a string in more than six bytes (a
/// control character as `\u00XX`).
#[verifier::external_body]
pub(crate) fn json_insert_text(
    object: &mut JsonObject,
    key: &str,
    value: &str,
)
    ensures
        json_texts(*final(object)) == json_texts(*old(object)).insert(key@, value@),
        json_integers(*final(object)) == json_integers(*old(object)).remove(key@),
        json_others(*final(object)) == json_others(*old(object)).remove(key@),
        json_length(*final(object)) <= json_length(*old(object)) + 6 * key@.len() + 6
            * value@.len() + 6,
{
    object.insert(key.to_string(), serde_json::Value::from(value));
}

/// `serde_json::Map::insert` with an integer value: the key then holds that
/// integer and nothing else; the other members stay. The object's text grows
/// by no more than a comma, a colon, the key in quotes and the twenty
/// characters of the longest `i64`.
#[verifier::external_body]
pub(crate) fn json_insert_integer(
    object: &mut JsonObject,
    key: &str,
    value: i64,
)
    ensures
        json_texts(*final(object)) == json_texts(*old(object)).remove(key@),
        json_integers(*final(object)) == json_integers(*old(object)).insert(key@, value),
        json_others(*final(object)) == json_others(*old(object)).remove(key@),
        json_length(*final(object)) <= json_length(*old(object)) + 6 * key@.len() + 24,
{
    object.insert(key.to_string(), serde_json::Value::from(value));
}

/// `serde_json::Map::get` followed by `Value::as_str`: the string under the
/// key, where the key is present and holds a string.
#[verifier::external_body]
pub(crate) fn json_text_at(object: &JsonObject, key: &str) -> (value:
    Option<String>)
    ensures
        match value {
            Some(s) => json_texts(*object).contains_key(key@) && json_texts(*object)[key@] == s@,
            None => !json_texts(*object).contains_key(key@),
        },
{
    object.get(key).and_then(|member| member.as_str()).map(|s| s.to_string())
}

/// `serde_json::Map::get` followed by `Value::as_i64`: the integer under the
/// key, where the key is present and holds an integer within `i64`.
#[verifier::external_body]
pub(crate) fn json_integer_at(
    object: &JsonObject,
    key: &str,
) -> (value: Option<i64>)
    ensures
        match value {
            Some(n) => json_integers(*object).contains_key(key@) && json_integers(*object)[key@]
                == n,
            None => !json_integers(*object).contains_key(key@),
        },
{
    object.get(key).and_then(|member| member.as_i64())
}

/// `serde_json::to_string` on an object. Taken on trust, for an object whose
/// every member is a string or an integer within `i64`: the call succeeds,
/// since it writes into a vector, the only errors on that path are the
/// writer's, and the documented causes of failure (a `Serialize` impl that
/// fails, a key that is no string) do not arise for this type; and the text
/// that comes out parses back to an object with the same members. Of every
/// object: the text is the compact one, as many bytes long as `json_length`
/// says.
#[verifier::external_body]
pub(crate) fn json_to_text(object: &JsonObject) -> (text: Option<
    String,
>)
    ensures
        json_others(*object) =~= Set::<Seq<char>>::empty() ==> text is Some,
        text matches Some(s) ==> encode_utf8(s@).len() == json_length(*object),
        text matches Some(s) ==> (json_others(*object) =~= Set::<Seq<char>>::empty()
            ==> json_object_of(s@) == Some((json_texts(*object), json_integers(*object)))),
{
    serde_json::to_string(object).ok()
}

/// `serde_json::from_str` into an object. Taken on trust: whether the text
/// parses as an object, and its members, depend on the text alone.
#[verifier::external_body]
pub(crate) fn json_parse_object(text: &str) -> (object: Option<
    JsonObject,
>)
    ensures
        match object {
            Some(o) => json_object_of(text@) == Some((json_texts(o), json_integers(o))),
            None => json_object_of(text@) is None,
        },
{
    serde_json::from_str::<JsonObject>(text).ok()
}

} // verus!
