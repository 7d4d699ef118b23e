use vstd::prelude::*;

use zellij_tile::prelude::{BareKey, KeyWithModifier};

verus! {

/// The host's key type: a bare key and a set of modifiers. The overlay only
/// carries such values, compares them and shows them.
#[verifier::external_type_specification]
#[verifier::external_body]
pub struct ExKeyWithModifier(KeyWithModifier);

/// The host's bare key names; the overlay only builds its two defaults from
/// them. Declared without `external_body` so that its variants (all unit, `char`
/// or `u8`) can be constructed.
#[verifier::external_type_specification]
pub struct ExBareKey(BareKey);

/// The key that `KeyWithModifier::new` builds from a bare key.
pub uninterp spec fn key_of(bare_key: BareKey) -> KeyWithModifier;

/// Relies on `KeyWithModifier::new`: a bare key with no modifier, depending
/// on the bare key alone.
pub assume_specification[ KeyWithModifier::new ](bare_key: BareKey) -> (r: KeyWithModifier)
    ensures
        r == key_of(bare_key),
;

/// Whether the host's key grammar accepts a string.
pub uninterp spec fn key_parses(s: Seq<char>) -> bool;

/// The key that the host's key grammar reads from a string it accepts.
pub uninterp spec fn parsed_key(s: Seq<char>) -> KeyWithModifier;

/// Relies on `KeyWithModifier::from_str`: whether it succeeds, and the key it
/// returns, depend on the string alone, and an empty string has no key to take.
#[verifier::external_body]
pub(crate) fn parse_key(s: &str) -> (r: Option<KeyWithModifier>)
    ensures
        r.is_some() == key_parses(s@),
        r matches Some(k) ==> k == parsed_key(s@),
        s@.len() == 0 ==> r.is_none(),
{
    s.parse::<KeyWithModifier>().ok()
}

/// Whether the host counts two keys as the same key press.
pub uninterp spec fn keys_equal(a: KeyWithModifier, b: KeyWithModifier) -> bool;

/// Relies on `KeyWithModifier`'s `PartialEq`, which matches the bare key and
/// the full modifier set (an upper-case letter counting as Shift and the
/// letter): the answer depends on the two keys alone, and a key matches itself.
#[verifier::external_body]
pub(crate) fn keys_match(a: &KeyWithModifier, b: &KeyWithModifier) -> (r: bool)
    ensures
        r == keys_equal(*a, *b),
        *a == *b ==> r,
{
    a == b
}

/// The text the host shows for a key.
pub uninterp spec fn label_of(k: KeyWithModifier) -> Seq<char>;

/// Relies on `KeyWithModifier`'s `Display`: the text depends on the key alone.
#[verifier::external_body]
pub(crate) fn key_label(k: &KeyWithModifier) -> (r: String)
    ensures
        r@ == label_of(*k),
{
    k.to_string()
}

/// The default key that confirms: Enter.
pub fn default_confirm_key() -> (r: KeyWithModifier)
    ensures
        r == key_of(BareKey::Enter),
{
    KeyWithModifier::new(BareKey::Enter)
}

/// The default key that cancels: Escape.
pub fn default_cancel_key() -> (r: KeyWithModifier)
    ensures
        r == key_of(BareKey::Esc),
{
    KeyWithModifier::new(BareKey::Esc)
}

} // verus!
