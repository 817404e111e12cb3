//! Static identity tables, fixed at build time and immutable thereafter:
//! the bijection between physical key names and key-array indices, and the
//! partial function from (key name, layer) to a keyboard usage code.
//!
//! A key name encodes its wiring: `analog channel * 10 + mux phase`.  The
//! names are not contiguous, hence the explicit index bijection.

use crate::keys::Layer;
use vstd::prelude::*;

verus! {

/// Number of physical keys on the board.
pub const N_KEYS: usize = 23;

/// Keyboard usage codes this board emits (HID usage table, keyboard page).
pub const USAGE_ERROR_ROLLOVER: u8 = 0x01;

/// Usage code of the A key.
pub const USAGE_A: u8 = 0x04;

/// Usage code of the B key.
pub const USAGE_B: u8 = 0x05;

/// Usage code of the C key.
pub const USAGE_C: u8 = 0x06;

/// Usage code of the D key.
pub const USAGE_D: u8 = 0x07;

/// Usage code of the E key.
pub const USAGE_E: u8 = 0x08;

/// Usage code of the F key.
pub const USAGE_F: u8 = 0x09;

/// Usage code of the G key.
pub const USAGE_G: u8 = 0x0A;

/// Usage code of the Q key.
pub const USAGE_Q: u8 = 0x14;

/// Usage code of the R key.
pub const USAGE_R: u8 = 0x15;

/// Usage code of the S key.
pub const USAGE_S: u8 = 0x16;

/// Usage code of the T key.
pub const USAGE_T: u8 = 0x17;

/// Usage code of the V key.
pub const USAGE_V: u8 = 0x19;

/// Usage code of the W key.
pub const USAGE_W: u8 = 0x1A;

/// Usage code of the X key.
pub const USAGE_X: u8 = 0x1B;

/// Usage code of the Z key.
pub const USAGE_Z: u8 = 0x1D;

/// Usage code of the spacebar.
pub const USAGE_SPACEBAR: u8 = 0x2C;

/// Usage code of the keypad tab key.
pub const USAGE_KEYPAD_TAB: u8 = 0xBA;

/// Usage code of the keypad left-shift key.
pub const USAGE_KEYPAD_LEFT_SHIFT: u8 = 0xC5;

/// Usage code of the left-control modifier.
pub const USAGE_LEFT_CONTROL: u8 = 0xE0;

/// Usage code of the left-alt modifier.
pub const USAGE_LEFT_ALT: u8 = 0xE2;

/// The physical key names, in key-array order.
pub open spec fn spec_key_names() -> Seq<u8> {
    seq![
        0u8, 1, 2, 3,
        10, 11, 12, 13,
        20, 21, 22, 23,
        30, 31, 32, 33,
        40, 41, 42, 43,
        50, 51, 52,
    ]
}

/// The key-array index of a physical key name, `None` for unknown names.
pub open spec fn spec_key_index(keyname: u8) -> Option<usize> {
    match keyname {
        0 => Some(0usize),
        1 => Some(1usize),
        2 => Some(2usize),
        3 => Some(3usize),
        10 => Some(4usize),
        11 => Some(5usize),
        12 => Some(6usize),
        13 => Some(7usize),
        20 => Some(8usize),
        21 => Some(9usize),
        22 => Some(10usize),
        23 => Some(11usize),
        30 => Some(12usize),
        31 => Some(13usize),
        32 => Some(14usize),
        33 => Some(15usize),
        40 => Some(16usize),
        41 => Some(17usize),
        42 => Some(18usize),
        43 => Some(19usize),
        50 => Some(20usize),
        51 => Some(21usize),
        52 => Some(22usize),
        _ => None,
    }
}

/// The keyboard usage code bound to a physical key name on a layer;
/// `None` for key names with no binding (diagnostic-only keys).
pub open spec fn spec_keycode(keyname: u8, layer: Layer) -> Option<u8> {
    match layer {
        Layer::Default => match keyname {
            0 => Some(USAGE_Q),
            1 => Some(USAGE_W),
            2 => Some(USAGE_E),
            3 => Some(USAGE_R),
            10 => Some(USAGE_T),
            11 => Some(USAGE_KEYPAD_TAB),
            12 => Some(USAGE_A),
            13 => Some(USAGE_S),
            20 => Some(USAGE_D),
            21 => Some(USAGE_F),
            22 => Some(USAGE_G),
            23 => Some(USAGE_KEYPAD_LEFT_SHIFT),
            30 => Some(USAGE_Z),
            31 => Some(USAGE_X),
            32 => Some(USAGE_C),
            33 => Some(USAGE_V),
            40 => Some(USAGE_B),
            41 => Some(USAGE_LEFT_CONTROL),
            42 => Some(USAGE_LEFT_ALT),
            51 => Some(USAGE_SPACEBAR),
            _ => None,
        },
    }
}

/// The physical key names, in key-array order.
pub fn key_names() -> (r: [u8; 23])
    ensures
        r@ == spec_key_names(),
{
    let names: [u8; 23] = [
        0u8, 1, 2, 3,
        10, 11, 12, 13,
        20, 21, 22, 23,
        30, 31, 32, 33,
        40, 41, 42, 43,
        50, 51, 52,
    ];
    proof {
        assert(names@ =~= spec_key_names());
    }
    names
}

/// The key-array index of a physical key name.
pub fn key_index(keyname: u8) -> (r: Option<usize>)
    ensures
        r == spec_key_index(keyname),
{
    match keyname {
        0 => Some(0),
        1 => Some(1),
        2 => Some(2),
        3 => Some(3),
        10 => Some(4),
        11 => Some(5),
        12 => Some(6),
        13 => Some(7),
        20 => Some(8),
        21 => Some(9),
        22 => Some(10),
        23 => Some(11),
        30 => Some(12),
        31 => Some(13),
        32 => Some(14),
        33 => Some(15),
        40 => Some(16),
        41 => Some(17),
        42 => Some(18),
        43 => Some(19),
        50 => Some(20),
        51 => Some(21),
        52 => Some(22),
        _ => None,
    }
}

/// The keyboard usage code bound to a physical key name on a layer.
pub fn keycode_for(keyname: u8, layer: Layer) -> (r: Option<u8>)
    ensures
        r == spec_keycode(keyname, layer),
{
    match layer {
        Layer::Default => match keyname {
            0 => Some(USAGE_Q),
            1 => Some(USAGE_W),
            2 => Some(USAGE_E),
            3 => Some(USAGE_R),
            10 => Some(USAGE_T),
            11 => Some(USAGE_KEYPAD_TAB),
            12 => Some(USAGE_A),
            13 => Some(USAGE_S),
            20 => Some(USAGE_D),
            21 => Some(USAGE_F),
            22 => Some(USAGE_G),
            23 => Some(USAGE_KEYPAD_LEFT_SHIFT),
            30 => Some(USAGE_Z),
            31 => Some(USAGE_X),
            32 => Some(USAGE_C),
            33 => Some(USAGE_V),
            40 => Some(USAGE_B),
            41 => Some(USAGE_LEFT_CONTROL),
            42 => Some(USAGE_LEFT_ALT),
            51 => Some(USAGE_SPACEBAR),
            _ => None,
        },
    }
}

/// Every usage code that some (key name, layer) pair is bound to.
pub open spec fn spec_bound_codes() -> Seq<u8> {
    seq![
        USAGE_Q, USAGE_W, USAGE_E, USAGE_R,
        USAGE_T, USAGE_KEYPAD_TAB, USAGE_A, USAGE_S,
        USAGE_D, USAGE_F, USAGE_G, USAGE_KEYPAD_LEFT_SHIFT,
        USAGE_Z, USAGE_X, USAGE_C, USAGE_V,
        USAGE_B, USAGE_LEFT_CONTROL, USAGE_LEFT_ALT, USAGE_SPACEBAR,
    ]
}

/// Law: every code the keymap hands out is one of the listed bound codes.
pub proof fn lemma_bound_codes_cover(keyname: u8, layer: Layer)
    ensures
        spec_keycode(keyname, layer) matches Some(c) ==> spec_bound_codes().to_set().contains(c),
{
    if spec_keycode(keyname, layer) is Some {
        let c = spec_keycode(keyname, layer)->0;
        let codes = spec_bound_codes();
        assert(codes.contains(c)) by {
            if c == USAGE_Q { assert(codes[0] == c); }
            else if c == USAGE_W { assert(codes[1] == c); }
            else if c == USAGE_E { assert(codes[2] == c); }
            else if c == USAGE_R { assert(codes[3] == c); }
            else if c == USAGE_T { assert(codes[4] == c); }
            else if c == USAGE_KEYPAD_TAB { assert(codes[5] == c); }
            else if c == USAGE_A { assert(codes[6] == c); }
            else if c == USAGE_S { assert(codes[7] == c); }
            else if c == USAGE_D { assert(codes[8] == c); }
            else if c == USAGE_F { assert(codes[9] == c); }
            else if c == USAGE_G { assert(codes[10] == c); }
            else if c == USAGE_KEYPAD_LEFT_SHIFT { assert(codes[11] == c); }
            else if c == USAGE_Z { assert(codes[12] == c); }
            else if c == USAGE_X { assert(codes[13] == c); }
            else if c == USAGE_C { assert(codes[14] == c); }
            else if c == USAGE_V { assert(codes[15] == c); }
            else if c == USAGE_B { assert(codes[16] == c); }
            else if c == USAGE_LEFT_CONTROL { assert(codes[17] == c); }
            else if c == USAGE_LEFT_ALT { assert(codes[18] == c); }
            else { assert(c == USAGE_SPACEBAR); assert(codes[19] == c); }
        }
    }
}

/// Law: the bound codes are pairwise distinct, so at most 20 usage codes can
/// ever be down at once.
pub proof fn lemma_bound_codes_count()
    ensures
        spec_bound_codes().to_set().finite(),
        spec_bound_codes().to_set().len() == 20,
{
    vstd::seq_lib::seq_to_set_is_finite(spec_bound_codes());
    assert(spec_bound_codes().no_duplicates());
    spec_bound_codes().unique_seq_to_set();
}

/// Law: key names and key-array indices are in bijection: every listed name
/// resolves to its own position, and every resolved index points back at the
/// name that produced it.
pub proof fn lemma_key_name_index_bijection()
    ensures
        forall|i: int|
            0 <= i < N_KEYS ==> #[trigger] spec_key_index(spec_key_names()[i]) == Some(i as usize),
        forall|keyname: u8|
            #[trigger] spec_key_index(keyname) matches Some(i) ==> 0 <= i < N_KEYS
                && spec_key_names()[i as int] == keyname,
{
}

/// Law: every key name with a usage-code binding is a listed physical key.
pub proof fn lemma_keycode_only_for_keys(keyname: u8, layer: Layer)
    ensures
        spec_keycode(keyname, layer) is Some ==> spec_key_index(keyname) is Some,
{
}

/// Law: no bound usage code is zero (the empty report slot) or the rollover
/// error code, and distinct key names are bound to distinct usage codes.
pub proof fn lemma_keycodes_distinct(n1: u8, n2: u8, layer: Layer)
    ensures
        spec_keycode(n1, layer) matches Some(c) ==> c != 0 && c != USAGE_ERROR_ROLLOVER,
        n1 != n2 && spec_keycode(n1, layer) is Some ==> spec_keycode(n1, layer) != spec_keycode(
            n2,
            layer,
        ),
{
}

} // verus!
