use macos_keyboard_remapper::keycodes::{
    VK_A, VK_ANSI_EQUALS, VK_BACKSLASH, VK_LEFTBRACKET, VK_M, VK_MINUS, VK_Q, VK_QUOTE,
    VK_RIGHTBRACKET,
};
use macos_keyboard_remapper::remap::{PunctuationPolicy, RemapDirection, lookup, remap_key};

const DIRECTIONS: [RemapDirection; 2] =
    [RemapDirection::DvorakToQwerty, RemapDirection::QwertyToDvorak];
const POLICIES: [PunctuationPolicy; 2] =
    [PunctuationPolicy::RedirectHyphenEquals, PunctuationPolicy::KeepHyphenEquals];

#[test]
fn round_trip_returns_the_original_keycode() {
    for direction in DIRECTIONS {
        for policy in POLICIES {
            for key in 0u64..128 {
                if let Some(mapped) = lookup(direction, policy, key) {
                    assert_eq!(
                        lookup(direction.inverse(), policy, mapped),
                        Some(key),
                        "round trip failed for key {key}"
                    );
                }
            }
        }
    }
}

#[test]
fn absent_keys_yield_none() {
    // Return (36), Tab (48), Space (49), Escape (53) and every keycode past
    // the printable block are absent from both tables.
    for key in [10u64, 36, 48, 49, 53, 96, 127, 500] {
        for direction in DIRECTIONS {
            for policy in POLICIES {
                assert_eq!(lookup(direction, policy, key), None);
            }
        }
    }
}

#[test]
fn digit_keys_map_to_themselves() {
    for key in [18u64, 19, 20, 21, 22, 23, 25, 26, 28, 29] {
        for direction in DIRECTIONS {
            for policy in POLICIES {
                assert_eq!(lookup(direction, policy, key), Some(key));
            }
        }
    }
}

#[test]
fn mapped_keycodes_stay_in_range() {
    for direction in DIRECTIONS {
        for policy in POLICIES {
            for key in 0u64..128 {
                if let Some(mapped) = lookup(direction, policy, key) {
                    assert!(mapped < 128);
                }
            }
        }
    }
}

#[test]
fn quote_position_maps_to_q_position() {
    for policy in POLICIES {
        assert_eq!(lookup(RemapDirection::DvorakToQwerty, policy, VK_QUOTE), Some(VK_Q));
        assert_eq!(lookup(RemapDirection::QwertyToDvorak, policy, VK_Q), Some(VK_QUOTE));
    }
}

#[test]
fn backslash_is_a_fixed_point_in_both_directions() {
    for direction in DIRECTIONS {
        for policy in POLICIES {
            assert_eq!(lookup(direction, policy, VK_BACKSLASH), Some(VK_BACKSLASH));
        }
    }
}

#[test]
fn letter_fixed_points_map_to_themselves() {
    for direction in DIRECTIONS {
        for policy in POLICIES {
            assert_eq!(lookup(direction, policy, VK_A), Some(VK_A));
            assert_eq!(lookup(direction, policy, VK_M), Some(VK_M));
        }
    }
}

#[test]
fn hyphen_equals_keys_follow_the_policy() {
    let redirect = PunctuationPolicy::RedirectHyphenEquals;
    let keep = PunctuationPolicy::KeepHyphenEquals;
    let dv = RemapDirection::DvorakToQwerty;
    let qw = RemapDirection::QwertyToDvorak;

    assert_eq!(lookup(dv, redirect, VK_ANSI_EQUALS), Some(VK_RIGHTBRACKET));
    assert_eq!(lookup(dv, redirect, VK_MINUS), Some(VK_QUOTE));
    assert_eq!(lookup(dv, redirect, VK_LEFTBRACKET), Some(VK_MINUS));
    assert_eq!(lookup(dv, redirect, VK_RIGHTBRACKET), Some(VK_ANSI_EQUALS));
    assert_eq!(lookup(qw, redirect, VK_RIGHTBRACKET), Some(VK_ANSI_EQUALS));
    assert_eq!(lookup(qw, redirect, VK_QUOTE), Some(VK_MINUS));
    assert_eq!(lookup(qw, redirect, VK_MINUS), Some(VK_LEFTBRACKET));
    assert_eq!(lookup(qw, redirect, VK_ANSI_EQUALS), Some(VK_RIGHTBRACKET));

    // Under the keep policy those entries are gone, and only they are:
    // the slash mapping still sends the left bracket's position through.
    for key in [VK_ANSI_EQUALS, VK_MINUS, VK_LEFTBRACKET, VK_RIGHTBRACKET] {
        assert_eq!(lookup(dv, keep, key), None);
    }
    for key in [VK_ANSI_EQUALS, VK_MINUS, VK_QUOTE, VK_RIGHTBRACKET] {
        assert_eq!(lookup(qw, keep, key), None);
    }
    assert_eq!(lookup(qw, keep, VK_LEFTBRACKET), lookup(qw, redirect, VK_LEFTBRACKET));
}

#[test]
fn remap_key_consults_the_table_only_on_an_active_layout() {
    let dv = RemapDirection::DvorakToQwerty;
    let redirect = PunctuationPolicy::RedirectHyphenEquals;
    assert_eq!(remap_key(VK_QUOTE, dv, redirect, true), Some(VK_Q));
    assert_eq!(remap_key(VK_QUOTE, dv, redirect, false), None);
    assert_eq!(remap_key(36, dv, redirect, true), None);
}
