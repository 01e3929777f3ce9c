//! The decisions of the window's message handler: what each event does to
//! the rotation state, which title to show and which label text to write.
//! The caller performs the window calls and hands in the input box's text.

use vstd::prelude::*;
use crate::rotation::{
    chars_of, effective_offset, effective_offset_spec, title, title_of, TRUNCATION_MAX,
};
use crate::wide::{encode_wide, wide};

verus! {

/// Milliseconds that accumulate before the title turns by one character.
pub const TIMER_THRESHOLD: u32 = 100;

/// Period of the timer, in milliseconds.
pub const TIMER_PERIOD_MS: u32 = 10;

/// Largest position of the shifting-speed slider.
pub const SHIFT_INTERVAL_MAX: u32 = 50;

/// An event that the message handler reacts to.
pub enum Event {
    /// The rotation timer fired.
    TimerTick,
    /// The text of the input box changed.
    TextChanged,
    /// The shifting-speed slider moved to the given position.
    ShiftSpeedMoved(u32),
    /// The truncation slider moved to the given position.
    TruncationMoved(u32),
}

/// What the handler asks of the window after an event: a new title and a
/// new text for the label of the slider that moved, each as a
/// null-terminated UTF-16 buffer.
pub struct Reply {
    pub title: Option<Vec<u16>>,
    pub label: Option<Vec<u16>>,
}

/// `buf` holds the null-terminated UTF-16 encoding of `s`.
pub open spec fn shows(buf: Option<Vec<u16>>, s: Seq<char>) -> bool {
    buf is Some && buf->0@ == wide(s)
}

/// The rotation state of the window.
pub struct TitleState {
    /// Characters the title is turned by, before reduction modulo the length.
    pub offset: usize,
    /// Milliseconds accumulated towards the next turn.
    pub ticks: u32,
    /// Shifting-speed slider position; zero stops the rotation.
    pub shift_interval: u32,
    /// Truncation slider position; `TRUNCATION_MAX` shows the whole title.
    pub truncation: u32,
}

/// The decimal digit for `d < 10`.
pub open spec fn digit_char(d: nat) -> char {
    (48 + d) as char
}

/// The decimal representation of `n`, without leading zeros.
pub open spec fn decimal(n: nat) -> Seq<char>
    decreases n,
{
    if n < 10 {
        seq![digit_char(n)]
    } else {
        decimal(n / 10).push(digit_char(n % 10))
    }
}

/// `10 * TIMER_THRESHOLD / interval` rounded to the nearest integer, halves
/// away from zero.
pub open spec fn shift_speed(interval: nat) -> nat {
    ((20 * TIMER_THRESHOLD as nat + interval) / (2 * interval)) as nat
}

/// The label of the shifting-speed slider at position `interval`.
pub open spec fn shift_label(interval: nat) -> Seq<char> {
    if interval == 0 {
        "No character shifting."@
    } else {
        "Shifting speed: "@ + decimal(shift_speed(interval)) + "ms/character"@
    }
}

/// The label of the truncation slider at position `truncation`.
pub open spec fn truncation_label(truncation: nat) -> Seq<char> {
    if truncation == TRUNCATION_MAX {
        "The whole title is shown."@
    } else {
        "Maximum title length shown: "@ + decimal(truncation) + " characters"@
    }
}

/// Appends the decimal representation of `n` to `out`.
fn push_decimal(out: &mut Vec<char>, n: u64)
    ensures
        final(out)@ == old(out)@ + decimal(n as nat),
    decreases n,
{
    if n >= 10 {
        push_decimal(out, n / 10);
    }
    let d = (n % 10) as u8;
    out.push((48u8 + d) as char);
    proof {
        assert(final(out)@ =~= old(out)@ + decimal(n as nat));
    }
}

/// The label text for the shifting-speed slider at position `interval`.
pub fn shift_label_text(interval: u32) -> (r: Vec<u16>)
    ensures
        r@ == wide(shift_label(interval as nat)),
{
    if interval == 0 {
        encode_wide(&chars_of("No character shifting."))
    } else {
        let speed = (20 * TIMER_THRESHOLD as u64 + interval as u64) / (2 * interval as u64);
        assert(speed == shift_speed(interval as nat));
        let mut chars = chars_of("Shifting speed: ");
        push_decimal(&mut chars, speed);
        let suffix = chars_of("ms/character");
        chars.extend_from_slice(suffix.as_slice());
        assert(chars@ =~= shift_label(interval as nat));
        encode_wide(&chars)
    }
}

/// The label text for the truncation slider at position `truncation`.
pub fn truncation_label_text(truncation: u32) -> (r: Vec<u16>)
    ensures
        r@ == wide(truncation_label(truncation as nat)),
{
    if truncation == TRUNCATION_MAX {
        encode_wide(&chars_of("The whole title is shown."))
    } else {
        let mut chars = chars_of("Maximum title length shown: ");
        push_decimal(&mut chars, truncation as u64);
        let suffix = chars_of(" characters");
        chars.extend_from_slice(suffix.as_slice());
        assert(chars@ =~= truncation_label(truncation as nat));
        encode_wide(&chars)
    }
}

impl TitleState {
    /// The accumulated time stays at or below the threshold between events.
    pub open spec fn wf(&self) -> bool {
        self.ticks <= TIMER_THRESHOLD
    }

    /// The state before any event: no offset, no time accumulated, rotation
    /// stopped, no truncation count.
    pub fn new() -> (r: TitleState)
        ensures
            r.wf(),
            r.offset == 0,
            r.ticks == 0,
            r.shift_interval == 0,
            r.truncation == 0,
    {
        TitleState { offset: 0, ticks: 0, shift_interval: 0, truncation: 0 }
    }

    /// Computes the title for `text` and reduces the offset modulo the
    /// text's length (at least one).
    pub fn render(&mut self, text: &str) -> (r: Vec<u16>)
        ensures
            r@ == wide(title_of(text@, old(self).offset as nat, old(self).truncation as nat)),
            final(self).offset == effective_offset_spec(old(self).offset as nat, text@.len()),
            final(self).offset < if text@.len() == 0 { 1 } else { text@.len() },
            final(self).offset < usize::MAX,
            final(self).ticks == old(self).ticks,
            final(self).shift_interval == old(self).shift_interval,
            final(self).truncation == old(self).truncation,
    {
        let shown = title(text, self.offset, self.truncation);
        self.offset = effective_offset(self.offset, text.unicode_len());
        encode_wide(&shown)
    }

    /// Applies `event` to the state, with `text` the current text of the
    /// input box, and says what the window has to show.
    pub fn handle(&mut self, event: Event, text: &str) -> (r: Reply)
        requires
            old(self).wf(),
        ensures
            final(self).wf(),
            match event {
                Event::TimerTick => {
                    let acc = old(self).ticks + old(self).shift_interval;
                    &&& final(self).shift_interval == old(self).shift_interval
                    &&& final(self).truncation == old(self).truncation
                    &&& r.label is None
                    &&& if acc > TIMER_THRESHOLD {
                        &&& shows(
                            r.title,
                            title_of(text@, old(self).offset as nat, old(self).truncation as nat),
                        )
                        &&& final(self).offset == effective_offset_spec(
                            old(self).offset as nat,
                            text@.len(),
                        ) + 1
                        &&& final(self).ticks == 0
                    } else {
                        &&& r.title is None
                        &&& final(self).offset == old(self).offset
                        &&& final(self).ticks == acc
                    }
                },
                Event::TextChanged => {
                    &&& shows(r.title, title_of(text@, 0, old(self).truncation as nat))
                    &&& r.label is None
                    &&& final(self).offset == 0
                    &&& final(self).ticks == old(self).ticks
                    &&& final(self).shift_interval == old(self).shift_interval
                    &&& final(self).truncation == old(self).truncation
                },
                Event::ShiftSpeedMoved(pos) => {
                    &&& shows(r.label, shift_label(pos as nat))
                    &&& final(self).shift_interval == pos
                    &&& final(self).ticks == old(self).ticks
                    &&& final(self).truncation == old(self).truncation
                    &&& if pos == 0 {
                        &&& shows(r.title, title_of(text@, 0, old(self).truncation as nat))
                        &&& final(self).offset == 0
                    } else {
                        &&& r.title is None
                        &&& final(self).offset == old(self).offset
                    }
                },
                Event::TruncationMoved(pos) => {
                    &&& shows(r.title, title_of(text@, old(self).offset as nat, pos as nat))
                    &&& shows(r.label, truncation_label(pos as nat))
                    &&& final(self).truncation == pos
                    &&& final(self).offset == effective_offset_spec(
                        old(self).offset as nat,
                        text@.len(),
                    )
                    &&& final(self).ticks == old(self).ticks
                    &&& final(self).shift_interval == old(self).shift_interval
                },
            },
    {
        match event {
            Event::TimerTick => {
                let acc = self.ticks as u64 + self.shift_interval as u64;
                if acc > TIMER_THRESHOLD as u64 {
                    let t = self.render(text);
                    self.offset = self.offset + 1;
                    self.ticks = 0;
                    Reply { title: Some(t), label: None }
                } else {
                    self.ticks = acc as u32;
                    Reply { title: None, label: None }
                }
            },
            Event::TextChanged => {
                self.offset = 0;
                let t = self.render(text);
                Reply { title: Some(t), label: None }
            },
            Event::ShiftSpeedMoved(pos) => {
                self.shift_interval = pos;
                let label = shift_label_text(pos);
                if pos == 0 {
                    self.offset = 0;
                    let t = self.render(text);
                    Reply { title: Some(t), label: Some(label) }
                } else {
                    Reply { title: None, label: Some(label) }
                }
            },
            Event::TruncationMoved(pos) => {
                self.truncation = pos;
                let t = self.render(text);
                Reply { title: Some(t), label: Some(truncation_label_text(pos)) }
            },
        }
    }
}

} // verus!
