//! Four-character codes used by the Apple Event manager.
use vstd::prelude::*;

verus! {

/// The value of four ASCII bytes packed big-endian into 32 bits, first byte highest.
pub open spec fn four_char_code(c: Seq<u8>) -> int
    recommends
        c.len() == 4,
{
    c[0] * 0x1000000 + c[1] * 0x10000 + c[2] * 0x100 + c[3]
}

/// Event class and event id of the URL-open Apple Event: the text `GURL`.
pub const URL_EVENT_CODE: u32 = 0x4755524c;

/// Keyword that addresses an Apple Event's direct parameter: the text `----`.
pub const DIRECT_OBJECT_KEYWORD: u32 = 0x2d2d2d2d;

/// The URL event code is the text `GURL` and the direct-object keyword the text `----`.
pub proof fn lemma_reserved_codes()
    ensures
        URL_EVENT_CODE == four_char_code(seq![0x47u8, 0x55u8, 0x52u8, 0x4cu8]),
        DIRECT_OBJECT_KEYWORD == four_char_code(seq![0x2du8, 0x2du8, 0x2du8, 0x2du8]),
{
}

} // verus!
