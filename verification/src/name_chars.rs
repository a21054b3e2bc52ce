//! Character classes of the XML `Name` grammar.
//!
//! An XML name is a run of name characters whose first character is drawn
//! from the stricter name-start class (which excludes digits, `-`, `.`,
//! the middle dot and the combining ranges).

use vstd::prelude::*;

verus! {

/// A character of the XML `NameStartChar` production.
pub open spec fn spec_is_name_start_char(c: char) -> bool {
    let u = c as u32;
    u == 0x3A  // ':'
    || (0x41 <= u && u <= 0x5A)  // 'A'..='Z'
    || u == 0x5F  // '_'
    || (0x61 <= u && u <= 0x7A)  // 'a'..='z'
    || (0xC0 <= u && u <= 0xD6)
    || (0xD8 <= u && u <= 0xF6)
    || (0xF8 <= u && u <= 0x2FF)
    || (0x370 <= u && u <= 0x37D)
    || (0x37F <= u && u <= 0x1FFF)
    || (0x200C <= u && u <= 0x200D)
    || (0x2070 <= u && u <= 0x218F)
    || (0x2C00 <= u && u <= 0x2FEF)
    || (0x3001 <= u && u <= 0xD7FF)
    || (0xF900 <= u && u <= 0xFDCF)
    || (0xFDF0 <= u && u <= 0xFFFD)
    || (0x10000 <= u && u <= 0xEFFFF)
}

/// A character of the XML `NameChar` production: a name-start character,
/// a digit, `-`, `.`, the middle dot, or a combining/extender character.
pub open spec fn spec_is_name_char(c: char) -> bool {
    spec_is_name_start_char(c) || {
        let u = c as u32;
        u == 0x2D  // '-'
        || u == 0x2E  // '.'
        || (0x30 <= u && u <= 0x39)  // '0'..='9'
        || u == 0xB7
        || (0x300 <= u && u <= 0x36F)
        || (0x203F <= u && u <= 0x2040)
    }
}

/// Whether `c` may start an XML name.
pub fn is_name_start_char(c: char) -> (r: bool)
    ensures
        r == spec_is_name_start_char(c),
{
    let u = c as u32;
    u == 0x3A
    || (0x41 <= u && u <= 0x5A)
    || u == 0x5F
    || (0x61 <= u && u <= 0x7A)
    || (0xC0 <= u && u <= 0xD6)
    || (0xD8 <= u && u <= 0xF6)
    || (0xF8 <= u && u <= 0x2FF)
    || (0x370 <= u && u <= 0x37D)
    || (0x37F <= u && u <= 0x1FFF)
    || (0x200C <= u && u <= 0x200D)
    || (0x2070 <= u && u <= 0x218F)
    || (0x2C00 <= u && u <= 0x2FEF)
    || (0x3001 <= u && u <= 0xD7FF)
    || (0xF900 <= u && u <= 0xFDCF)
    || (0xFDF0 <= u && u <= 0xFFFD)
    || (0x10000 <= u && u <= 0xEFFFF)
}

/// Whether `c` may appear anywhere in an XML name.
pub fn is_name_char(c: char) -> (r: bool)
    ensures
        r == spec_is_name_char(c),
{
    let u = c as u32;
    is_name_start_char(c)
    || u == 0x2D
    || u == 0x2E
    || (0x30 <= u && u <= 0x39)
    || u == 0xB7
    || (0x300 <= u && u <= 0x36F)
    || (0x203F <= u && u <= 0x2040)
}

} // verus!
