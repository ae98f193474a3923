//! Key names on Windows: the system maps a scancode to the character it
//! types, and names the key when that character is not visible.
use vstd::prelude::*;
use crate::text::{blank, is_blank, remove_controls, strip_controls};
use crate::translate::{written_len, written_prefix_len};

verus! {

/// Bit of the key-name parameter that marks an extended key.
pub const EXTENDED_KEY_FLAG: u32 = 0x0100_0000;

/// The scancode carries the `0xE0` escape of an extended key.
pub open spec fn is_extended(scancode: u32) -> bool {
    scancode & 0xFF00 == 0xE000
}

/// The parameter that asks the system for a key's name: the scancode in the
/// upper half, and the extended-key flag where the scancode has the escape.
pub open spec fn key_name_param_of(scancode: u32) -> i32 {
    if is_extended(scancode) {
        ((scancode << 16u32) | EXTENDED_KEY_FLAG) as i32
    } else {
        (scancode << 16u32) as i32
    }
}

/// Builds the key-name parameter for a scancode.
pub fn key_name_param(scancode: u32) -> (r: i32)
    ensures
        r == key_name_param_of(scancode),
{
    let shifted: u32 = scancode << 16u32;
    if scancode & 0xFF00 == 0xE000 {
        (shifted | EXTENDED_KEY_FLAG) as i32
    } else {
        shifted as i32
    }
}

/// What `String::from_utf16_lossy` makes of a sequence of UTF-16 units.
pub uninterp spec fn lossy_utf16(u: Seq<u16>) -> Seq<char>;

/// Relies on `String::from_utf16_lossy`: the result depends on the units
/// alone, and units outside the surrogate range each decode to the
/// character of the same value.
#[verifier::external_body]
pub(crate) fn decode_utf16_lossy(u: &[u16]) -> (r: String)
    ensures
        r@ == lossy_utf16(u@),
        (forall|i: int| 0 <= i < u@.len() ==> !(0xD800 <= #[trigger] u@[i] <= 0xDFFF)) ==> r@.len()
            == u@.len() && forall|i: int| 0 <= i < u@.len() ==> r@[i] as u32 == u@[i] as u32,
{
    String::from_utf16_lossy(u)
}

/// The string shown for a key whose character is `char_key` (zero for none),
/// decoding to `char_text`, and whose system name is `name`: the character
/// with its control characters removed where something visible is left,
/// the name otherwise.
pub open spec fn windows_label_of(char_key: u32, char_text: Seq<char>, name: Seq<char>) -> Seq<
    char,
> {
    if char_key != 0 && !is_blank(strip_controls(char_text)) {
        strip_controls(char_text)
    } else {
        name
    }
}

/// The text of a key's character, as the system gives it: one UTF-16 unit.
pub open spec fn char_key_text(char_key: u32) -> Seq<char> {
    lossy_utf16(seq![char_key as u16])
}

/// The text held by the written part of a UTF-16 name buffer.
pub open spec fn name_buffer_text(units: Seq<u16>, reported: i32) -> Seq<char> {
    lossy_utf16(units.subrange(0, written_len(reported, units.len() as int)))
}

/// The string shown for a key on Windows, from the character that its
/// virtual key types and the name buffer that the system filled.
pub fn windows_key_label(char_key: u32, name_units: &[u16], name_reported: i32) -> (r: String)
    ensures
        r@ == windows_label_of(
            char_key,
            char_key_text(char_key),
            name_buffer_text(name_units@, name_reported),
        ),
{
    if char_key != 0 {
        let unit: Vec<u16> = vec![char_key as u16];
        let text = decode_utf16_lossy(unit.as_slice());
        assert(unit@ =~= seq![char_key as u16]);
        let visible = remove_controls(text.as_str());
        if !blank(visible.as_str()) {
            return visible;
        }
    }
    let n = written_prefix_len(name_reported, name_units.len());
    decode_utf16_lossy(&name_units[0..n])
}

} // verus!
