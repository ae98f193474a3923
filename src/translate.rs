//! Turning a scancode into the string shown for its key.
//!
//! The keymap renders a key twice: as the UTF-8 text it types, and as the
//! long name of its keysym. A usable typed text wins, upper-cased by ASCII
//! rules; otherwise the keysym's name is shown as it is.
use vstd::prelude::*;
use vstd::utf8::{decode_utf8, pop_first_scalar, valid_utf8};
use crate::text::{
    ascii_upper, ascii_upper_char, blank, decode_lossy, decode_text, is_blank, remove_controls,
    strip_controls, uppercase_ascii,
};

verus! {

/// Offset between evdev scancodes and the keymap's code space.
pub const KEYCODE_OFFSET: u32 = 8;

/// Size of the buffers that the keymap writes a rendering into.
pub const RENDER_BUFFER_LEN: usize = 32;

/// The keymap code that an evdev scancode stands for, where it fits in 32 bits.
pub open spec fn keymap_code_of(scancode: u32) -> Option<u32> {
    if scancode + KEYCODE_OFFSET <= u32::MAX {
        Some((scancode + KEYCODE_OFFSET) as u32)
    } else {
        None
    }
}

/// Converts an evdev scancode to the keymap's code: the offset is added once.
pub fn keymap_code(scancode: u32) -> (r: Option<u32>)
    ensures
        r == keymap_code_of(scancode),
        r matches Some(code) ==> code == scancode + 8,
        scancode <= u32::MAX - 8 ==> r is Some,
{
    scancode.checked_add(KEYCODE_OFFSET)
}

/// How many bytes of a NUL-terminated buffer of `capacity` bytes hold text,
/// given the length that the keymap reported: a negative report is a failure
/// and leaves nothing, a report past the buffer was truncated before the NUL.
pub open spec fn written_len(reported: i32, capacity: int) -> int {
    if reported < 0 || capacity == 0 {
        0
    } else if reported >= capacity {
        capacity - 1
    } else {
        reported as int
    }
}

/// Computes `written_len`.
pub fn written_prefix_len(reported: i32, capacity: usize) -> (r: usize)
    ensures
        r == written_len(reported, capacity as int),
        r < capacity || r == 0,
{
    if reported < 0 || capacity == 0 {
        0
    } else if reported as usize >= capacity {
        capacity - 1
    } else {
        reported as usize
    }
}

/// The string shown for a key that renders as `rendered` and whose keysym is
/// named `name`.
pub open spec fn label_of(rendered: Seq<char>, name: Seq<char>) -> Seq<char> {
    let visible = strip_controls(rendered);
    if is_blank(visible) {
        name
    } else {
        ascii_upper(visible)
    }
}

/// Chooses between a key's typed text and its keysym's name.
pub fn key_label(rendered: &str, name: &str) -> (r: String)
    ensures
        r@ == label_of(rendered@, name@),
{
    let visible = remove_controls(rendered);
    if blank(visible.as_str()) {
        name.to_owned()
    } else {
        uppercase_ascii(visible.as_str())
    }
}

/// The text held by the first `written_len(reported, b.len())` bytes of `b`.
pub open spec fn buffer_text(b: Seq<u8>, reported: i32) -> Seq<char> {
    decode_text(b.subrange(0, written_len(reported, b.len() as int)))
}

/// The string shown for a key, from the two buffers that the keymap filled
/// and the lengths it reported for them.
pub open spec fn label_from_buffers(
    utf8: Seq<u8>,
    utf8_reported: i32,
    name: Seq<u8>,
    name_reported: i32,
) -> Seq<char> {
    label_of(buffer_text(utf8, utf8_reported), buffer_text(name, name_reported))
}

/// Decodes the text part of a buffer that the keymap filled.
pub fn text_of_buffer(b: &[u8], reported: i32) -> (r: String)
    ensures
        r@ == buffer_text(b@, reported),
{
    let n = written_prefix_len(reported, b.len());
    decode_lossy(&b[0..n])
}

/// The string shown for a key, from the buffer holding its UTF-8 rendering
/// and the buffer holding its keysym's name, each with the length the keymap
/// reported for it.
pub fn key_label_from_buffers(utf8: &[u8], utf8_reported: i32, name: &[u8], name_reported: i32) -> (r:
    String)
    ensures
        r@ == label_from_buffers(utf8@, utf8_reported, name@, name_reported),
{
    let rendered = text_of_buffer(utf8, utf8_reported);
    let key_name = text_of_buffer(name, name_reported);
    key_label(rendered.as_str(), key_name.as_str())
}

/// A key whose typed text is a single printable ASCII character other than
/// the space is shown as that character, upper-cased by ASCII rules.
pub proof fn lemma_printable_ascii_shown_upper(
    utf8: Seq<u8>,
    utf8_reported: i32,
    name: Seq<u8>,
    name_reported: i32,
)
    requires
        written_len(utf8_reported, utf8.len() as int) == 1,
        0x21 <= utf8[0] <= 0x7E,
    ensures
        label_from_buffers(utf8, utf8_reported, name, name_reported) == seq![
            ascii_upper_char(utf8[0] as char),
        ],
{
    let b = utf8.subrange(0, 1);
    let c = utf8[0] as char;
    assert(b.subrange(1, 1) =~= Seq::<u8>::empty());
    assert(valid_utf8(b.subrange(1, 1)));
    let x = b[0];
    assert(x & 0x7f == x) by (bit_vector)
        requires
            x <= 0x7e,
    ;
    assert(pop_first_scalar(b) =~= Seq::<u8>::empty());
    assert(valid_utf8(b));
    assert(decode_utf8(Seq::<u8>::empty()) =~= Seq::<char>::empty());
    assert(decode_utf8(b) =~= seq![c]);
    assert(seq![c].drop_last() =~= Seq::<char>::empty());
    assert(strip_controls(Seq::<char>::empty()) =~= Seq::<char>::empty());
    assert(strip_controls(seq![c]) =~= seq![c]);
    assert(!is_blank(seq![c])) by {
        assert(!crate::text::is_white_space(seq![c][0]));
    }
    assert(ascii_upper(seq![c]) =~= seq![ascii_upper_char(c)]);
}

/// A key whose typed text is empty or whitespace once its control characters
/// are removed is shown by its keysym's name, unchanged in case.
pub proof fn lemma_blank_text_shows_name(
    utf8: Seq<u8>,
    utf8_reported: i32,
    name: Seq<u8>,
    name_reported: i32,
)
    requires
        is_blank(strip_controls(buffer_text(utf8, utf8_reported))),
    ensures
        label_from_buffers(utf8, utf8_reported, name, name_reported) == buffer_text(
            name,
            name_reported,
        ),
{
}

/// The string shown depends on the text that the keymap wrote and on nothing
/// else: two lookups that receive the same renderings show the same string,
/// whatever lies in the buffers past the written text.
pub proof fn lemma_label_depends_on_written_text(
    utf8_a: Seq<u8>,
    utf8_reported_a: i32,
    name_a: Seq<u8>,
    name_reported_a: i32,
    utf8_b: Seq<u8>,
    utf8_reported_b: i32,
    name_b: Seq<u8>,
    name_reported_b: i32,
)
    requires
        utf8_a.subrange(0, written_len(utf8_reported_a, utf8_a.len() as int)) == utf8_b.subrange(
            0,
            written_len(utf8_reported_b, utf8_b.len() as int),
        ),
        name_a.subrange(0, written_len(name_reported_a, name_a.len() as int)) == name_b.subrange(
            0,
            written_len(name_reported_b, name_b.len() as int),
        ),
    ensures
        label_from_buffers(utf8_a, utf8_reported_a, name_a, name_reported_a) == label_from_buffers(
            utf8_b,
            utf8_reported_b,
            name_b,
            name_reported_b,
        ),
{
}

} // verus!
