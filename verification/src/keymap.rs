//! The fixed bijection between the 16 logical CHIP-8 keys (0x0..=0xF)
//! and host key identifiers.
//!
//! The hex pad is laid over the `1234` / `QWER` / `ASDF` / `ZXCV` block of
//! a QWERTY keyboard. A host key identifier is the ASCII code of the key's
//! uppercase character, the convention of the common windowing libraries'
//! key enumerations (the `1` key is 49, `Q` is 81, and so on). A host
//! identifier outside the 16-entry image has no mapping, and the reverse
//! lookup reports that instead of failing.

use vstd::prelude::*;

verus! {

/// The host key identifier bound to the logical key `k`, if `k` is one of
/// the 16 logical keys.
pub open spec fn spec_code_for_key(k: u8) -> Option<i32> {
    match k {
        0x1 => Some(49),  // 1
        0x2 => Some(50),  // 2
        0x3 => Some(51),  // 3
        0xC => Some(52),  // 4
        0x4 => Some(81),  // Q
        0x5 => Some(87),  // W
        0x6 => Some(69),  // E
        0xD => Some(82),  // R
        0x7 => Some(65),  // A
        0x8 => Some(83),  // S
        0x9 => Some(68),  // D
        0xE => Some(70),  // F
        0xA => Some(90),  // Z
        0x0 => Some(88),  // X
        0xB => Some(67),  // C
        0xF => Some(86),  // V
        _ => None,
    }
}

/// The logical key bound to the host key identifier `code`, if any.
pub open spec fn spec_key_for_code(code: i32) -> Option<u8> {
    match code {
        49 => Some(0x1),
        50 => Some(0x2),
        51 => Some(0x3),
        52 => Some(0xC),
        81 => Some(0x4),
        87 => Some(0x5),
        69 => Some(0x6),
        82 => Some(0xD),
        65 => Some(0x7),
        83 => Some(0x8),
        68 => Some(0x9),
        70 => Some(0xE),
        90 => Some(0xA),
        88 => Some(0x0),
        67 => Some(0xB),
        86 => Some(0xF),
        _ => None,
    }
}

/// Translate a logical key to its host key identifier; `None` exactly for
/// values outside the 16 logical keys.
pub fn translate_key(k: u8) -> (code: Option<i32>)
    ensures
        code == spec_code_for_key(k),
        code is Some <==> k < 16,
{
    match k {
        0x1 => Some(49),
        0x2 => Some(50),
        0x3 => Some(51),
        0xC => Some(52),
        0x4 => Some(81),
        0x5 => Some(87),
        0x6 => Some(69),
        0xD => Some(82),
        0x7 => Some(65),
        0x8 => Some(83),
        0x9 => Some(68),
        0xE => Some(70),
        0xA => Some(90),
        0x0 => Some(88),
        0xB => Some(67),
        0xF => Some(86),
        _ => None,
    }
}

/// Translate a host key identifier back to its logical key; `None` exactly
/// for identifiers outside the 16-entry image of the mapping.
pub fn translate_key_rev(code: i32) -> (k: Option<u8>)
    ensures
        k == spec_key_for_code(code),
{
    match code {
        49 => Some(0x1),
        50 => Some(0x2),
        51 => Some(0x3),
        52 => Some(0xC),
        81 => Some(0x4),
        87 => Some(0x5),
        69 => Some(0x6),
        82 => Some(0xD),
        65 => Some(0x7),
        83 => Some(0x8),
        68 => Some(0x9),
        70 => Some(0xE),
        90 => Some(0xA),
        88 => Some(0x0),
        67 => Some(0xB),
        86 => Some(0xF),
        _ => None,
    }
}

/// The mapping is a bijection between the 16 logical keys and their host
/// identifiers: each direction inverts the other.
pub proof fn lemma_key_mapping_bijective()
    ensures
        forall|k: u8|
            (#[trigger] spec_code_for_key(k)) matches Some(code) ==> spec_key_for_code(code)
                == Some(k),
        forall|code: i32|
            (#[trigger] spec_key_for_code(code)) matches Some(k) ==> spec_code_for_key(k)
                == Some(code),
{
}

} // verus!
