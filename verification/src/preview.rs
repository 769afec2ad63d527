//! Text previews of files in conflict.

use vstd::prelude::*;
use vstd::utf8::*;

use crate::path::{copy_bytes, from_utf8};

verus! {

/// The largest file of which a text preview is made, in bytes.
pub const CONFLICT_TEXT_PREVIEW_MAX_BYTES: usize = 1024 * 1024;

/// The text that 16-bit units encode by UTF-16, or nothing where they are not valid: a unit that is
/// no surrogate is a character, and so is a high surrogate with a low one behind it.
pub open spec fn utf16_text(units: Seq<u16>) -> Option<Seq<char>>
    decreases units.len(),
{
    if units.len() == 0 {
        Some(Seq::empty())
    } else if units[0] < 0xd800 || units[0] > 0xdfff {
        match utf16_text(units.skip(1)) {
            Some(rest) => Some(seq![units[0] as char] + rest),
            None => None,
        }
    } else if units[0] <= 0xdbff && units.len() > 1 && 0xdc00 <= units[1] <= 0xdfff {
        let code = 0x10000 + (units[0] - 0xd800) * 0x400 + (units[1] - 0xdc00);
        match utf16_text(units.skip(2)) {
            Some(rest) => Some(seq![code as char] + rest),
            None => None,
        }
    } else {
        None
    }
}

/// `String::from_utf16`: the text that the units encode, or nothing where they are not valid
/// UTF-16.
#[verifier::external_body]
fn from_utf16(units: &Vec<u16>) -> (res: Option<String>)
    ensures
        match res {
            Some(text) => utf16_text(units@) == Some(text@),
            None => utf16_text(units@) is None,
        },
{
    String::from_utf16(units).ok()
}

/// Two bytes as one unit, the low byte first.
pub open spec fn low_first(a: u8, b: u8) -> u16 {
    (a as int + 256 * b as int) as u16
}

/// The 16-bit units of the bytes from the third on.
pub open spec fn units(bytes: Seq<u8>, little: bool) -> Seq<u16> {
    Seq::new(
        ((bytes.len() - 2) / 2) as nat,
        |i: int|
            if little {
                low_first(bytes[2 + 2 * i], bytes[3 + 2 * i])
            } else {
                low_first(bytes[3 + 2 * i], bytes[2 + 2 * i])
            },
    )
}

/// The text of a file's bytes: UTF-8, or UTF-16 with a mark of its byte order; nothing where a
/// zero byte shows that the file is no text.
pub open spec fn preview_text(bytes: Seq<u8>) -> Option<Seq<char>> {
    if bytes.contains(0u8) {
        None
    } else if valid_utf8(bytes) {
        Some(decode_utf8(bytes))
    } else if bytes.len() < 2 || bytes.len() % 2 != 0 {
        None
    } else if bytes[0] == 0xff && bytes[1] == 0xfe {
        utf16_text(units(bytes, true))
    } else if bytes[0] == 0xfe && bytes[1] == 0xff {
        utf16_text(units(bytes, false))
    } else {
        None
    }
}

fn units_of(bytes: &Vec<u8>, little: bool) -> (res: Vec<u16>)
    requires
        bytes@.len() >= 2,
        bytes@.len() % 2 == 0,
    ensures
        res@ == units(bytes@, little),
{
    let mut res: Vec<u16> = Vec::new();
    let mut i: usize = 2;
    while i < bytes.len()
        invariant
            2 <= i <= bytes.len(),
            bytes.len() % 2 == 0,
            i % 2 == 0,
            res@ == units(bytes@, little).take((i - 2) / 2),
        decreases bytes.len() - i,
    {
        let (low, high): (u8, u8) = if little {
            (bytes[i], bytes[i + 1])
        } else {
            (bytes[i + 1], bytes[i])
        };
        let unit: u16 = low as u16 + 256 * high as u16;
        let ghost k = (i - 2) / 2;
        assert(units(bytes@, little).take(k + 1) =~= units(bytes@, little).take(k).push(unit));
        res.push(unit);
        i += 2;
    }
    assert(res@ =~= units(bytes@, little));
    res
}

/// The text of a file's bytes, where they are text.
pub fn decode_conflict_preview_text(bytes: &Vec<u8>) -> (res: Option<String>)
    ensures
        match res {
            Some(text) => preview_text(bytes@) == Some(text@),
            None => preview_text(bytes@) is None,
        },
{
    let mut i: usize = 0;
    while i < bytes.len()
        invariant
            i <= bytes.len(),
            forall|k: int| 0 <= k < i ==> bytes@[k] != 0,
        decreases bytes.len() - i,
    {
        if bytes[i] == 0 {
            assert(bytes@.contains(bytes@[i as int]));
            return None;
        }
        i += 1;
    }
    if let Some(text) = from_utf8(copy_bytes(bytes)) {
        return Some(text);
    }
    if bytes.len() < 2 || bytes.len() % 2 != 0 {
        return None;
    }
    if bytes[0] == 0xff && bytes[1] == 0xfe {
        let units = units_of(bytes, true);
        return from_utf16(&units);
    }
    if bytes[0] == 0xfe && bytes[1] == 0xff {
        let units = units_of(bytes, false);
        return from_utf16(&units);
    }
    None
}

/// The preview of a file: its text, unless the file is too large.
pub fn read_conflict_preview_text(size: u64, bytes: &Vec<u8>) -> (res: Option<String>)
    ensures
        match res {
            Some(text) => size <= CONFLICT_TEXT_PREVIEW_MAX_BYTES && preview_text(bytes@) == Some(
                text@,
            ),
            None => size > CONFLICT_TEXT_PREVIEW_MAX_BYTES || preview_text(bytes@) is None,
        },
{
    if size > CONFLICT_TEXT_PREVIEW_MAX_BYTES as u64 {
        return None;
    }
    decode_conflict_preview_text(bytes)
}

} // verus!
