//! Simple `0xFF`-framed device actions: reset to default settings, factory
//! reset, and device rename.

pub mod opcode;

use crate::protocol::{Command, MAX_PARAMETERS};
use crate::text::{
    all_blank, chars_of, fit_prefix, fit_prefix_chars, is_blank, is_control, is_whitespace,
    lemma_blank_subrange, lemma_fit_prefix, lemma_remove_controls_keeps,
    lemma_remove_controls_of_blank, lemma_trim, lemma_trim_keeps, lemma_utf8_width,
    remove_control_chars, remove_controls, string_of, trim, trim_chars,
};
use vstd::prelude::*;
use vstd::utf8::encode_utf8;

verus! {

/// Builds the reset-to-default write command.
pub fn reset_default() -> (cmd: Command)
    ensures
        cmd.opcode == opcode::RESET_DEFAULT,
        cmd.parameters@ == Seq::<u8>::empty(),
{
    Command::new(opcode::RESET_DEFAULT, Vec::new())
}

/// Builds the factory-reset write command.
pub fn factory_reset() -> (cmd: Command)
    ensures
        cmd.opcode == opcode::FACTORY_RESET,
        cmd.parameters@ == Seq::<u8>::empty(),
{
    Command::new(opcode::FACTORY_RESET, Vec::new())
}

/// Maximum pairing-name length, in bytes: the device's own read of `0x18`
/// returns a fixed 32-byte, null-padded field.
pub const MAX_NAME_BYTES: usize = 32;

/// The name with its surrounding whitespace trimmed and its control
/// characters removed.
pub open spec fn stripped_name(name: Seq<char>) -> Seq<char> {
    remove_controls(trim(name))
}

/// The name as it will be written to the device: trimmed, stripped of
/// control characters, and cut to the longest prefix whose UTF-8 encoding
/// fits [`MAX_NAME_BYTES`] (so the cut always lands on a char boundary).
/// What is left of a name made only of whitespace and control characters
/// is nothing, so that such a rename is refused rather than written.
pub open spec fn sanitized_name(name: Seq<char>) -> Seq<char> {
    if is_blank(stripped_name(name)) {
        Seq::empty()
    } else {
        fit_prefix(stripped_name(name), MAX_NAME_BYTES as int)
    }
}

/// A name sanitizes to nothing exactly when it is made only of whitespace
/// and control characters.
pub proof fn lemma_sanitized_empty_iff_blank(name: Seq<char>)
    ensures
        (sanitized_name(name).len() == 0) == is_blank(name),
        is_blank(stripped_name(name)) == is_blank(name),
{
    let t = trim(name);
    let r = remove_controls(t);
    lemma_trim(name);
    if is_blank(name) {
        let (a, b) = choose|a: int, b: int| 0 <= a <= b <= name.len() && t == #[trigger] name.subrange(a, b);
        lemma_blank_subrange(name, a, b);
        lemma_remove_controls_of_blank(t);
        assert(is_blank(r));
    } else {
        let i = choose|i: int| 0 <= i < name.len() && !(is_whitespace(#[trigger] name[i]) || is_control(name[i]));
        let c = name[i];
        assert(name.contains(c));
        lemma_trim_keeps(name, c);
        lemma_remove_controls_keeps(t, c);
        let j = choose|j: int| 0 <= j < r.len() && r[j] == c;
        assert(!(is_whitespace(r[j]) || is_control(r[j])));
        assert(!is_blank(r));
        assert(r.len() > 0);
        lemma_utf8_width(r[0]);
    }
}

/// Sanitizes and truncates a name exactly as it will be written to the
/// device: trimmed, stripped of control characters, and cut at a char
/// boundary to [`MAX_NAME_BYTES`]; empty when nothing but whitespace is
/// left.
pub fn sanitize(name: &str) -> (s: String)
    ensures
        s@ == sanitized_name(name@),
{
    let chars = chars_of(name);
    let trimmed = trim_chars(chars.as_slice());
    let kept = remove_control_chars(trimmed.as_slice());
    if all_blank(kept.as_slice()) {
        return String::new();
    }
    let fitted = fit_prefix_chars(kept.as_slice(), MAX_NAME_BYTES);
    string_of(fitted.as_slice())
}

/// Builds the device-rename write command: the sanitized name's UTF-8
/// bytes. Every name, however long, yields a command that fits one frame,
/// and a blank or control-only name yields no parameters at all.
pub fn set_name(name: &str) -> (cmd: Command)
    ensures
        cmd.opcode == opcode::PAIRNAME,
        cmd.parameters@ == encode_utf8(sanitized_name(name@)),
        cmd.parameters@.len() <= MAX_NAME_BYTES,
        cmd.fits_frame(),
        (cmd.parameters@.len() == 0) == is_blank(name@),
{
    let s = sanitize(name);
    let bytes = vstd::slice::slice_to_vec(s.as_str().as_bytes());
    proof {
        lemma_fit_prefix(stripped_name(name@), MAX_NAME_BYTES as int);
        lemma_sanitized_empty_iff_blank(name@);
        crate::client::lemma_encode_utf8_empty(sanitized_name(name@));
    }
    assert(MAX_NAME_BYTES <= MAX_PARAMETERS);
    Command::new(opcode::PAIRNAME, bytes)
}

} // verus!
