//! Firmware version parsing.
//!
//! Bytes 0-2 encode the left earbud's `major.minor.patch`.
//! Bytes 3-5 encode the right earbud's `major.minor.patch`.

use crate::text::{chars_of, decimal, push_char, push_chars, push_decimal};
use vstd::prelude::*;

verus! {

/// Firmware version for each earbud.
#[derive(Debug, Clone, PartialEq, Eq)]
pub struct FirmwareVersion {
    pub left: Option<String>,
    pub right: Option<String>,
}

/// `major.minor.patch` in decimal.
pub open spec fn dotted(major: u8, minor: u8, patch: u8) -> Seq<char> {
    decimal(major as nat) + seq!['.'] + decimal(minor as nat) + seq!['.'] + decimal(patch as nat)
}

pub open spec fn opt_chars(o: Option<String>) -> Option<Seq<char>> {
    match o {
        Some(s) => Some(s@),
        None => None,
    }
}

/// The left earbud's version in a payload: its first three bytes.
pub open spec fn left_version(data: Seq<u8>) -> Option<Seq<char>> {
    if data.len() >= 3 {
        Some(dotted(data[0], data[1], data[2]))
    } else {
        None
    }
}

/// The right earbud's version in a payload: bytes three to five.
pub open spec fn right_version(data: Seq<u8>) -> Option<Seq<char>> {
    if data.len() >= 6 {
        Some(dotted(data[3], data[4], data[5]))
    } else {
        None
    }
}

/// The display text of two versions: one number when both sides report the
/// same firmware, `"left / right"` when they differ, whichever is known when
/// only one is.
pub open spec fn display_of(left: Option<Seq<char>>, right: Option<Seq<char>>) -> Option<Seq<char>> {
    match (left, right) {
        (Some(l), Some(r)) => if l == r {
            Some(l)
        } else {
            Some(l + seq![' ', '/', ' '] + r)
        },
        (Some(l), None) => Some(l),
        (None, Some(r)) => Some(r),
        (None, None) => None,
    }
}

fn dotted_string(major: u8, minor: u8, patch: u8) -> (s: String)
    ensures
        s@ == dotted(major, minor, patch),
{
    let mut s = String::new();
    push_decimal(&mut s, major as u32);
    push_char(&mut s, '.');
    push_decimal(&mut s, minor as u32);
    push_char(&mut s, '.');
    push_decimal(&mut s, patch as u32);
    s
}

impl FirmwareVersion {
    /// Parses the raw payload; `None` for an empty one.
    pub fn parse(data: &[u8]) -> (r: Option<Self>)
        ensures
            match r {
                None => data@.len() == 0,
                Some(v) => data@.len() > 0 && opt_chars(v.left) == left_version(data@) && opt_chars(
                    v.right,
                ) == right_version(data@),
            },
    {
        if data.len() == 0 {
            return None;
        }
        let left = if data.len() >= 3 {
            Some(dotted_string(data[0], data[1], data[2]))
        } else {
            None
        };
        let right = if data.len() >= 6 {
            Some(dotted_string(data[3], data[4], data[5]))
        } else {
            None
        };
        Some(Self { left, right })
    }

    /// Formats both earbuds' versions for display, collapsing them into a
    /// single number when both sides report the same firmware.
    pub fn display(&self) -> (r: Option<String>)
        ensures
            opt_chars(r) == display_of(opt_chars(self.left), opt_chars(self.right)),
    {
        match (&self.left, &self.right) {
            (Some(left), Some(right)) => {
                if left.eq(right) {
                    Some(left.clone())
                } else {
                    let mut s = left.clone();
                    push_char(&mut s, ' ');
                    push_char(&mut s, '/');
                    push_char(&mut s, ' ');
                    let rc = chars_of(right.as_str());
                    push_chars(&mut s, rc.as_slice());
                    assert(s@ == left@ + seq![' ', '/', ' '] + right@);
                    Some(s)
                }
            },
            (Some(left), None) => Some(left.clone()),
            (None, Some(right)) => Some(right.clone()),
            (None, None) => None,
        }
    }
}

/// A version is shown whenever either earbud's is known, and the text shows
/// each known one: the left's at its start, the right's at its end.
pub proof fn lemma_display_shows_every_known_side(left: Option<Seq<char>>, right: Option<Seq<char>>)
    ensures
        display_of(left, right) is Some == (left is Some || right is Some),
        left matches Some(l) ==> display_of(left, right)->0.take(l.len() as int) == l,
        right matches Some(r) ==> display_of(left, right)->0.skip(
            display_of(left, right)->0.len() - r.len(),
        ) == r,
{
    if let (Some(l), Some(r)) = (left, right) {
        if l != r {
            let t = l + seq![' ', '/', ' '] + r;
            assert(t.take(l.len() as int) =~= l);
            assert(t.skip(t.len() - r.len()) =~= r);
        }
    } else if let Some(l) = left {
        assert(l.take(l.len() as int) =~= l);
        assert(l.skip(0) =~= l);
    } else if let Some(r) = right {
        assert(r.skip(0) =~= r);
    }
}

} // verus!
