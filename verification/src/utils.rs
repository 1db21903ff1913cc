//! Small helpers: flag rendering, prefix tests on text, and the at-rest
//! encoding of secrets.

use vstd::prelude::*;
use vstd::string::*;
use magic_crypt::MagicCryptTrait;

verus! {

/// Marks a stored value as encoded.
pub const ENCODED_PREFIX: &'static str = "en//";

/// The text a sink sends for a flag value.
pub open spec fn on_off(value: bool) -> Seq<char> {
    if value {
        "on"@
    } else {
        "off"@
    }
}

/// Renders a flag value as `"on"` or `"off"`.
pub fn bool_to_str(value: bool) -> (text: String)
    ensures
        text@ == on_off(value),
{
    if value {
        String::from_str("on")
    } else {
        String::from_str("off")
    }
}

/// An optional text as a sequence of characters.
pub open spec fn option_text(value: Option<String>) -> Option<Seq<char>> {
    match value {
        Some(text) => Some(text@),
        None => None,
    }
}

/// An optional string slice as a sequence of characters.
pub open spec fn option_str(value: Option<&str>) -> Option<Seq<char>> {
    match value {
        Some(text) => Some(text@),
        None => None,
    }
}

/// Whether a text begins with a prefix.
pub fn starts_with(text: &str, prefix: &str) -> (found: bool)
    ensures
        found == prefix@.is_prefix_of(text@),
{
    let length = prefix.unicode_len();
    if text.unicode_len() < length {
        return false;
    }
    let mut index: usize = 0;
    while index < length
        invariant
            index <= length,
            length == prefix@.len(),
            length <= text@.len(),
            forall|position: int| 0 <= position < index ==> text@[position] == prefix@[position],
        decreases length - index,
    {
        if text.get_char(index) != prefix.get_char(index) {
            proof {
                if prefix@.is_prefix_of(text@) {
                    assert(text@.subrange(0, prefix@.len() as int)[index as int] == prefix@[index as int]);
                }
            }
            return false;
        }
        index = index + 1;
    }
    proof {
        assert(text@.subrange(0, prefix@.len() as int) =~= prefix@);
    }
    true
}

/// Whether two texts are the same.
pub fn same_text(text: &str, other: &str) -> (same: bool)
    ensures
        same == (text@ == other@),
{
    let same = starts_with(text, other) && starts_with(other, text);
    proof {
        if same {
            assert(text@ =~= text@.subrange(0, other@.len() as int));
        }
    }
    same
}

/// A text without its first `count` characters; nothing where the text
/// has no more than those.
pub open spec fn rest_after(text: Seq<char>, count: int) -> Seq<char> {
    if count <= text.len() {
        text.skip(count)
    } else {
        Seq::empty()
    }
}

/// A text without its first `count` characters.
pub fn skip_chars(text: &str, count: usize) -> (rest: String)
    ensures
        rest@ == rest_after(text@, count as int),
{
    let length = text.unicode_len();
    if count > length {
        return String::new();
    }
    let rest = text.substring_char(count, length);
    proof {
        assert(text@.subrange(count as int, length as int) =~= text@.skip(count as int));
    }
    String::from_str(rest)
}

/// The base64 text that `MagicCrypt256`, made of `key` alone, encrypts
/// `text` to.
pub uninterp spec fn encrypted(key: Seq<char>, text: Seq<char>) -> Seq<char>;

/// What `MagicCrypt256`, made of `key` alone, decrypts the base64 text
/// `cipher` to; `None` where it is no base64, no cipher text of that key, or
/// no UTF-8 inside.
pub uninterp spec fn decrypted(key: Seq<char>, cipher: Seq<char>) -> Option<Seq<char>>;

/// Calls `MagicCryptTrait::encrypt_str_to_base64` on the 256-bit cipher of
/// the key, made without an initialisation vector.
#[verifier::external_body]
fn encrypt_base64(key: &str, text: &str) -> (cipher: String)
    ensures
        cipher@ == encrypted(key@, text@),
{
    magic_crypt::MagicCrypt256::new(key, None::<String>).encrypt_str_to_base64(text)
}

/// Calls `MagicCryptTrait::decrypt_base64_to_string` on the 256-bit cipher
/// of the key, made without an initialisation vector. An error is `None`.
#[verifier::external_body]
fn decrypt_base64(key: &str, cipher: &str) -> (plain: Option<String>)
    ensures
        option_text(plain) == decrypted(key@, cipher@),
{
    magic_crypt::MagicCrypt256::new(key, None::<String>).decrypt_base64_to_string(cipher).ok()
}

/// The stored form of a secret: the prefix, then the cipher text.
pub open spec fn encoded(key: Seq<char>, value: Seq<char>) -> Seq<char> {
    ENCODED_PREFIX@ + encrypted(key, value)
}

/// Encodes a secret for storage.
pub fn encrypt(key: &str, value: &str) -> (stored: String)
    ensures
        stored@ == encoded(key@, value@),
{
    let mut stored = String::from_str(ENCODED_PREFIX);
    let cipher = encrypt_base64(key, value);
    stored.append(cipher.as_str());
    stored
}

/// What a stored value stands for: the decrypted rest where it carries the
/// prefix, else itself. `None` where the rest cannot be decrypted.
pub open spec fn decoded(key: Seq<char>, value: Seq<char>) -> Option<Seq<char>> {
    if ENCODED_PREFIX@.is_prefix_of(value) {
        decrypted(key, value.skip(ENCODED_PREFIX@.len() as int))
    } else {
        Some(value)
    }
}

/// Reads a stored value: one with the prefix is decrypted, any other is
/// taken as it is.
pub fn decrypt_if_needed(key: &str, value: &str) -> (plain: Option<String>)
    ensures
        option_text(plain) == decoded(key@, value@),
{
    if starts_with(value, ENCODED_PREFIX) {
        let length = ENCODED_PREFIX.unicode_len();
        let rest = skip_chars(value, length);
        decrypt_base64(key, rest.as_str())
    } else {
        Some(String::from_str(value))
    }
}

} // verus!
