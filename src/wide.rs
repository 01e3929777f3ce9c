//! Encoding of text as a null-terminated UTF-16 buffer, the form in which
//! window titles and labels are handed to the windowing system.

use vstd::prelude::*;
use crate::rotation::chars_of;

verus! {

/// The UTF-16 code units of one character: one unit below `0x10000`,
/// else a high and a low surrogate.
pub open spec fn utf16_char(c: char) -> Seq<u16> {
    let v = c as int;
    if v < 0x10000 {
        seq![v as u16]
    } else {
        seq![(0xD800 + (v - 0x10000) / 0x400) as u16, (0xDC00 + (v - 0x10000) % 0x400) as u16]
    }
}

/// The UTF-16 code units of a character sequence.
pub open spec fn utf16(s: Seq<char>) -> Seq<u16>
    decreases s.len(),
{
    if s.len() == 0 {
        Seq::empty()
    } else {
        utf16(s.drop_last()) + utf16_char(s.last())
    }
}

/// The UTF-16 code units of `s` followed by a terminating zero.
pub open spec fn wide(s: Seq<char>) -> Seq<u16> {
    utf16(s).push(0)
}

/// Appends the UTF-16 code units of `c` to `out`.
fn push_utf16_char(out: &mut Vec<u16>, c: char)
    ensures
        final(out)@ == old(out)@ + utf16_char(c),
{
    let v = c as u32;
    if v < 0x10000 {
        out.push(v as u16);
    } else {
        let w = v - 0x10000;
        out.push((0xD800 + w / 0x400) as u16);
        out.push((0xDC00 + w % 0x400) as u16);
    }
}

/// Encodes `chars` as UTF-16 followed by a terminating zero.
pub fn encode_wide(chars: &Vec<char>) -> (r: Vec<u16>)
    ensures
        r@ == wide(chars@),
{
    let mut r: Vec<u16> = Vec::new();
    let mut i: usize = 0;
    while i < chars.len()
        invariant
            i <= chars.len(),
            r@ == utf16(chars@.take(i as int)),
        decreases chars.len() - i,
    {
        proof {
            assert(chars@.take(i as int + 1).drop_last() =~= chars@.take(i as int));
        }
        push_utf16_char(&mut r, chars[i]);
        i = i + 1;
    }
    proof {
        assert(chars@.take(i as int) =~= chars@);
    }
    r.push(0);
    r
}

/// Text that can be handed to the windowing system as a null-terminated
/// UTF-16 buffer.
pub trait WideString {
    /// The characters of the text.
    spec fn text_view(&self) -> Seq<char>;

    /// The UTF-16 code units of the text, then a terminating zero.
    fn convert(&self) -> (r: Vec<u16>)
        ensures
            r@ == wide(self.text_view()),
    ;
}

impl WideString for &str {
    open spec fn text_view(&self) -> Seq<char> {
        (*self)@
    }

    fn convert(&self) -> (r: Vec<u16>) {
        encode_wide(&chars_of(*self))
    }
}

impl WideString for String {
    open spec fn text_view(&self) -> Seq<char> {
        self@
    }

    fn convert(&self) -> (r: Vec<u16>) {
        encode_wide(&chars_of(self.as_str()))
    }
}

} // verus!
