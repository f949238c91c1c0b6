//! The fixed keycode remap tables, one per direction.
//!
//! Each table is a partial function on keycodes: a key that is absent
//! passes through untouched.  The two directions are inverses of each
//! other, the digit keys are identity-mapped in both, and the backslash
//! key is a documented fixed point.  Whether the hyphen, equals and
//! bracket keys take part in the remap differed between the observed
//! table versions, so that choice is kept as a named policy rather than
//! decided silently.

use vstd::prelude::*;

use crate::keycodes::{
    KEYCODE_LIMIT, VK_A, VK_ANSI_0, VK_ANSI_1, VK_ANSI_2, VK_ANSI_3, VK_ANSI_4, VK_ANSI_5,
    VK_ANSI_6, VK_ANSI_7, VK_ANSI_8, VK_ANSI_9, VK_ANSI_EQUALS, VK_B, VK_BACKSLASH, VK_C,
    VK_COMMA, VK_D, VK_E, VK_F, VK_G, VK_H, VK_I, VK_J, VK_K, VK_L, VK_LEFTBRACKET, VK_M,
    VK_MINUS, VK_N, VK_O, VK_P, VK_PERIOD, VK_Q, VK_QUOTE, VK_R, VK_RIGHTBRACKET, VK_S,
    VK_SEMICOLON, VK_SLASH, VK_T, VK_U, VK_V, VK_W, VK_X, VK_Y, VK_Z, is_digit_key,
};

verus! {

/// Which way the keycodes are rewritten.  The direction is fixed for the
/// lifetime of the process and selects one of the two tables together
/// with the modifier-gate policy that belongs to it.
#[derive(Clone, Copy, Debug, PartialEq, Eq, Structural)]
pub enum RemapDirection {
    DvorakToQwerty,
    QwertyToDvorak,
}

/// The observed table versions disagree on the hyphen and equals keys:
/// one redirects them (and the bracket keys they trade places with)
/// along with the rest of the punctuation, the other leaves them alone.
/// Both versions are kept under a name instead of picking one silently.
#[derive(Clone, Copy, Debug, PartialEq, Eq, Structural)]
pub enum PunctuationPolicy {
    /// Hyphen, equals and the two bracket keys are remapped too.
    RedirectHyphenEquals,
    /// Hyphen, equals and the two bracket keys are absent from the table
    /// and pass through untouched.
    KeepHyphenEquals,
}

impl RemapDirection {
    /// The opposite direction.
    pub open spec fn spec_inverse(self) -> RemapDirection {
        match self {
            RemapDirection::DvorakToQwerty => RemapDirection::QwertyToDvorak,
            RemapDirection::QwertyToDvorak => RemapDirection::DvorakToQwerty,
        }
    }

    /// Returns the opposite direction.
    pub fn inverse(self) -> (r: RemapDirection)
        ensures
            r == self.spec_inverse(),
    {
        match self {
            RemapDirection::DvorakToQwerty => RemapDirection::QwertyToDvorak,
            RemapDirection::QwertyToDvorak => RemapDirection::DvorakToQwerty,
        }
    }
}

/// The Dvorak position of each character, sent to the position that
/// carries the same character under QWERTY.
pub open spec fn spec_dvorak_to_qwerty(policy: PunctuationPolicy, k: u64) -> Option<u64> {
    if k == VK_QUOTE { Some(VK_Q) }
    else if k == VK_COMMA { Some(VK_W) }
    else if k == VK_PERIOD { Some(VK_E) }
    else if k == VK_P { Some(VK_R) }
    else if k == VK_Y { Some(VK_T) }
    else if k == VK_F { Some(VK_Y) }
    else if k == VK_G { Some(VK_U) }
    else if k == VK_C { Some(VK_I) }
    else if k == VK_R { Some(VK_O) }
    else if k == VK_L { Some(VK_P) }
    else if k == VK_SLASH { Some(VK_LEFTBRACKET) }
    else if k == VK_A { Some(VK_A) }
    else if k == VK_O { Some(VK_S) }
    else if k == VK_E { Some(VK_D) }
    else if k == VK_U { Some(VK_F) }
    else if k == VK_I { Some(VK_G) }
    else if k == VK_D { Some(VK_H) }
    else if k == VK_H { Some(VK_J) }
    else if k == VK_T { Some(VK_K) }
    else if k == VK_N { Some(VK_L) }
    else if k == VK_S { Some(VK_SEMICOLON) }
    else if k == VK_SEMICOLON { Some(VK_Z) }
    else if k == VK_Q { Some(VK_X) }
    else if k == VK_J { Some(VK_C) }
    else if k == VK_K { Some(VK_V) }
    else if k == VK_X { Some(VK_B) }
    else if k == VK_B { Some(VK_N) }
    else if k == VK_M { Some(VK_M) }
    else if k == VK_W { Some(VK_COMMA) }
    else if k == VK_V { Some(VK_PERIOD) }
    else if k == VK_Z { Some(VK_SLASH) }
    else if k == VK_BACKSLASH { Some(VK_BACKSLASH) }
    else if is_digit_key(k) { Some(k) }
    else if policy is RedirectHyphenEquals {
        if k == VK_ANSI_EQUALS { Some(VK_RIGHTBRACKET) }
        else if k == VK_MINUS { Some(VK_QUOTE) }
        else if k == VK_LEFTBRACKET { Some(VK_MINUS) }
        else if k == VK_RIGHTBRACKET { Some(VK_ANSI_EQUALS) }
        else { None }
    }
    else { None }
}

/// The inverse table: the QWERTY position of each character, sent to the
/// position that carries the same character under Dvorak.
pub open spec fn spec_qwerty_to_dvorak(policy: PunctuationPolicy, k: u64) -> Option<u64> {
    if k == VK_Q { Some(VK_QUOTE) }
    else if k == VK_W { Some(VK_COMMA) }
    else if k == VK_E { Some(VK_PERIOD) }
    else if k == VK_R { Some(VK_P) }
    else if k == VK_T { Some(VK_Y) }
    else if k == VK_Y { Some(VK_F) }
    else if k == VK_U { Some(VK_G) }
    else if k == VK_I { Some(VK_C) }
    else if k == VK_O { Some(VK_R) }
    else if k == VK_P { Some(VK_L) }
    else if k == VK_LEFTBRACKET { Some(VK_SLASH) }
    else if k == VK_A { Some(VK_A) }
    else if k == VK_S { Some(VK_O) }
    else if k == VK_D { Some(VK_E) }
    else if k == VK_F { Some(VK_U) }
    else if k == VK_G { Some(VK_I) }
    else if k == VK_H { Some(VK_D) }
    else if k == VK_J { Some(VK_H) }
    else if k == VK_K { Some(VK_T) }
    else if k == VK_L { Some(VK_N) }
    else if k == VK_SEMICOLON { Some(VK_S) }
    else if k == VK_Z { Some(VK_SEMICOLON) }
    else if k == VK_X { Some(VK_Q) }
    else if k == VK_C { Some(VK_J) }
    else if k == VK_V { Some(VK_K) }
    else if k == VK_B { Some(VK_X) }
    else if k == VK_N { Some(VK_B) }
    else if k == VK_M { Some(VK_M) }
    else if k == VK_COMMA { Some(VK_W) }
    else if k == VK_PERIOD { Some(VK_V) }
    else if k == VK_SLASH { Some(VK_Z) }
    else if k == VK_BACKSLASH { Some(VK_BACKSLASH) }
    else if is_digit_key(k) { Some(k) }
    else if policy is RedirectHyphenEquals {
        if k == VK_RIGHTBRACKET { Some(VK_ANSI_EQUALS) }
        else if k == VK_QUOTE { Some(VK_MINUS) }
        else if k == VK_MINUS { Some(VK_LEFTBRACKET) }
        else if k == VK_ANSI_EQUALS { Some(VK_RIGHTBRACKET) }
        else { None }
    }
    else { None }
}

/// The remap table of the given direction as a partial function: `None`
/// means the key is absent and must pass through untouched.
pub open spec fn spec_lookup(
    direction: RemapDirection,
    policy: PunctuationPolicy,
    k: u64,
) -> Option<u64> {
    match direction {
        RemapDirection::DvorakToQwerty => spec_dvorak_to_qwerty(policy, k),
        RemapDirection::QwertyToDvorak => spec_qwerty_to_dvorak(policy, k),
    }
}

/// Consults the remap table of the given direction.  Pure and
/// deterministic; keys absent from the table yield `None`.
pub fn lookup(direction: RemapDirection, policy: PunctuationPolicy, key: u64) -> (r: Option<u64>)
    ensures
        r == spec_lookup(direction, policy, key),
{
    match direction {
        RemapDirection::DvorakToQwerty => lookup_dvorak_to_qwerty(policy, key),
        RemapDirection::QwertyToDvorak => lookup_qwerty_to_dvorak(policy, key),
    }
}

fn lookup_dvorak_to_qwerty(policy: PunctuationPolicy, k: u64) -> (r: Option<u64>)
    ensures
        r == spec_dvorak_to_qwerty(policy, k),
{
    if k == VK_QUOTE { Some(VK_Q) }
    else if k == VK_COMMA { Some(VK_W) }
    else if k == VK_PERIOD { Some(VK_E) }
    else if k == VK_P { Some(VK_R) }
    else if k == VK_Y { Some(VK_T) }
    else if k == VK_F { Some(VK_Y) }
    else if k == VK_G { Some(VK_U) }
    else if k == VK_C { Some(VK_I) }
    else if k == VK_R { Some(VK_O) }
    else if k == VK_L { Some(VK_P) }
    else if k == VK_SLASH { Some(VK_LEFTBRACKET) }
    else if k == VK_A { Some(VK_A) }
    else if k == VK_O { Some(VK_S) }
    else if k == VK_E { Some(VK_D) }
    else if k == VK_U { Some(VK_F) }
    else if k == VK_I { Some(VK_G) }
    else if k == VK_D { Some(VK_H) }
    else if k == VK_H { Some(VK_J) }
    else if k == VK_T { Some(VK_K) }
    else if k == VK_N { Some(VK_L) }
    else if k == VK_S { Some(VK_SEMICOLON) }
    else if k == VK_SEMICOLON { Some(VK_Z) }
    else if k == VK_Q { Some(VK_X) }
    else if k == VK_J { Some(VK_C) }
    else if k == VK_K { Some(VK_V) }
    else if k == VK_X { Some(VK_B) }
    else if k == VK_B { Some(VK_N) }
    else if k == VK_M { Some(VK_M) }
    else if k == VK_W { Some(VK_COMMA) }
    else if k == VK_V { Some(VK_PERIOD) }
    else if k == VK_Z { Some(VK_SLASH) }
    else if k == VK_BACKSLASH { Some(VK_BACKSLASH) }
    else if k == VK_ANSI_1 || k == VK_ANSI_2 || k == VK_ANSI_3 || k == VK_ANSI_4
        || k == VK_ANSI_5 || k == VK_ANSI_6 || k == VK_ANSI_7 || k == VK_ANSI_8
        || k == VK_ANSI_9 || k == VK_ANSI_0 { Some(k) }
    else if matches!(policy, PunctuationPolicy::RedirectHyphenEquals) {
        if k == VK_ANSI_EQUALS { Some(VK_RIGHTBRACKET) }
        else if k == VK_MINUS { Some(VK_QUOTE) }
        else if k == VK_LEFTBRACKET { Some(VK_MINUS) }
        else if k == VK_RIGHTBRACKET { Some(VK_ANSI_EQUALS) }
        else { None }
    }
    else { None }
}

fn lookup_qwerty_to_dvorak(policy: PunctuationPolicy, k: u64) -> (r: Option<u64>)
    ensures
        r == spec_qwerty_to_dvorak(policy, k),
{
    if k == VK_Q { Some(VK_QUOTE) }
    else if k == VK_W { Some(VK_COMMA) }
    else if k == VK_E { Some(VK_PERIOD) }
    else if k == VK_R { Some(VK_P) }
    else if k == VK_T { Some(VK_Y) }
    else if k == VK_Y { Some(VK_F) }
    else if k == VK_U { Some(VK_G) }
    else if k == VK_I { Some(VK_C) }
    else if k == VK_O { Some(VK_R) }
    else if k == VK_P { Some(VK_L) }
    else if k == VK_LEFTBRACKET { Some(VK_SLASH) }
    else if k == VK_A { Some(VK_A) }
    else if k == VK_S { Some(VK_O) }
    else if k == VK_D { Some(VK_E) }
    else if k == VK_F { Some(VK_U) }
    else if k == VK_G { Some(VK_I) }
    else if k == VK_H { Some(VK_D) }
    else if k == VK_J { Some(VK_H) }
    else if k == VK_K { Some(VK_T) }
    else if k == VK_L { Some(VK_N) }
    else if k == VK_SEMICOLON { Some(VK_S) }
    else if k == VK_Z { Some(VK_SEMICOLON) }
    else if k == VK_X { Some(VK_Q) }
    else if k == VK_C { Some(VK_J) }
    else if k == VK_V { Some(VK_K) }
    else if k == VK_B { Some(VK_X) }
    else if k == VK_N { Some(VK_B) }
    else if k == VK_M { Some(VK_M) }
    else if k == VK_COMMA { Some(VK_W) }
    else if k == VK_PERIOD { Some(VK_V) }
    else if k == VK_SLASH { Some(VK_Z) }
    else if k == VK_BACKSLASH { Some(VK_BACKSLASH) }
    else if k == VK_ANSI_1 || k == VK_ANSI_2 || k == VK_ANSI_3 || k == VK_ANSI_4
        || k == VK_ANSI_5 || k == VK_ANSI_6 || k == VK_ANSI_7 || k == VK_ANSI_8
        || k == VK_ANSI_9 || k == VK_ANSI_0 { Some(k) }
    else if matches!(policy, PunctuationPolicy::RedirectHyphenEquals) {
        if k == VK_RIGHTBRACKET { Some(VK_ANSI_EQUALS) }
        else if k == VK_QUOTE { Some(VK_MINUS) }
        else if k == VK_MINUS { Some(VK_LEFTBRACKET) }
        else if k == VK_ANSI_EQUALS { Some(VK_RIGHTBRACKET) }
        else { None }
    }
    else { None }
}

/// The remap pipeline's last stage: consult the table only when the
/// layout detector found the direction's source layout active; on a
/// mismatch or a detection failure nothing is remapped.
pub open spec fn spec_remap_key(
    key: u64,
    direction: RemapDirection,
    policy: PunctuationPolicy,
    layout_active: bool,
) -> Option<u64> {
    if layout_active {
        spec_lookup(direction, policy, key)
    } else {
        None
    }
}

/// Remaps a keycode, given the layout detector's verdict for this event.
/// Returns `None` whenever the key must pass through untouched: the
/// active layout is not the direction's source layout, or the key is
/// absent from the table.
pub fn remap_key(
    key: u64,
    direction: RemapDirection,
    policy: PunctuationPolicy,
    layout_active: bool,
) -> (r: Option<u64>)
    ensures
        r == spec_remap_key(key, direction, policy, layout_active),
        !layout_active ==> r is None,
        layout_active ==> r == spec_lookup(direction, policy, key),
{
    if layout_active {
        lookup(direction, policy, key)
    } else {
        None
    }
}

/// Mapping a key with one direction's table and then with the inverse
/// direction's table returns the original keycode.  The tables are
/// bijections between their domains, so this holds of every mapped key,
/// the documented fixed points included.
pub proof fn lemma_round_trip(
    direction: RemapDirection,
    policy: PunctuationPolicy,
    k: u64,
    m: u64,
)
    requires
        spec_lookup(direction, policy, k) == Some(m),
    ensures
        spec_lookup(direction.spec_inverse(), policy, m) == Some(k),
{
}

/// A mapped key and its image both lie inside the valid keycode range:
/// the tables never yield a keycode outside it.
pub proof fn lemma_lookup_within_range(
    direction: RemapDirection,
    policy: PunctuationPolicy,
    k: u64,
    m: u64,
)
    requires
        spec_lookup(direction, policy, k) == Some(m),
    ensures
        k < KEYCODE_LIMIT,
        m < KEYCODE_LIMIT,
{
}

/// The ten digit keys map to themselves under every direction and every
/// punctuation policy, so numeric entry under modifier chords is never
/// disturbed.
pub proof fn lemma_digit_keys_fixed(
    direction: RemapDirection,
    policy: PunctuationPolicy,
    k: u64,
)
    requires
        is_digit_key(k),
    ensures
        spec_lookup(direction, policy, k) == Some(k),
{
}

/// The backslash key is a documented fixed point: a punctuation key that
/// maps to itself in both directions.
pub proof fn lemma_backslash_fixed_point(direction: RemapDirection, policy: PunctuationPolicy)
    ensures
        spec_lookup(direction, policy, VK_BACKSLASH) == Some(VK_BACKSLASH),
{
}

} // verus!
