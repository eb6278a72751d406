use crate::text::{chars_of, decimal, push_char, push_decimal, push_str, string_from_chars};
use vstd::prelude::*;

verus! {

/// The spinner character shown at a count of tenths of a second.
pub open spec fn spinner_char(tenths: u128) -> char {
    let k = tenths % 4;
    if k == 0 {
        '-'
    } else if k == 1 {
        '\\'
    } else if k == 2 {
        '|'
    } else {
        '/'
    }
}

/// The elapsed time: `<s>.<t>s`, or `<m>m <ss>.<t>s` from a minute on.
pub open spec fn elapsed_text(millis: u128) -> Seq<char> {
    let secs = millis / 1000;
    let minutes = secs / 60;
    let seconds = secs % 60;
    let tenth = (millis / 100) % 10;
    if minutes > 0 {
        decimal(minutes as nat) + seq!['m', ' '] + (if seconds < 10 { seq!['0'] } else { Seq::empty() })
            + decimal(seconds as nat) + seq!['.'] + decimal(tenth as nat) + seq!['s']
    } else {
        decimal(seconds as nat) + seq!['.'] + decimal(tenth as nat) + seq!['s']
    }
}

/// The start of a frame: a bullet that blinks every second, the text and
/// the spinner.
pub open spec fn frame_head(text: Seq<char>, millis: u128) -> Seq<char> {
    let seconds = (millis / 1000) % 60;
    seq![if seconds % 2 == 0 { '*' } else { ' ' }, ' '] + text + seq![' ', spinner_char(millis / 100)]
}

/// The padding between the head and the time: what fills the line, at
/// least one space.
pub open spec fn frame_padding(head: nat, time: nat, width: nat) -> nat {
    if width > head + time {
        (width - head - time) as nat
    } else {
        1
    }
}

/// A frame of a spinner line of `width` characters: the head, padding and
/// the elapsed time, cut to the width.
pub open spec fn frame(text: Seq<char>, millis: u128, width: nat) -> Seq<char> {
    let head = frame_head(text, millis);
    let time = elapsed_text(millis);
    let line = head + Seq::new(frame_padding(head.len(), time.len(), width), |i: int| ' ') + time;
    line.take(width as int)
}

/// A line that shows progress: `* <text> <spinner>   <time>`.
pub struct Spinner {}

impl Spinner {
    fn spinner_at(tenths: u128) -> (c: char)
        ensures
            c == spinner_char(tenths),
    {
        let k = tenths % 4;
        if k == 0 {
            '-'
        } else if k == 1 {
            '\\'
        } else if k == 2 {
            '|'
        } else {
            '/'
        }
    }

    fn elapsed(millis: u128) -> (r: String)
        requires
            millis / 1000 <= u64::MAX,
        ensures
            r@ == elapsed_text(millis),
    {
        let secs = (millis / 1000) as u64;
        let minutes = secs / 60;
        let seconds = secs % 60;
        let tenth = ((millis / 100) % 10) as u64;
        let mut r = String::new();
        if minutes > 0 {
            push_decimal(&mut r, minutes);
            push_char(&mut r, 'm');
            push_char(&mut r, ' ');
            if seconds < 10 {
                push_char(&mut r, '0');
            }
            push_decimal(&mut r, seconds);
        } else {
            push_decimal(&mut r, seconds);
        }
        push_char(&mut r, '.');
        push_decimal(&mut r, tenth);
        push_char(&mut r, 's');
        assert(r@ =~= elapsed_text(millis));
        r
    }

    /// The frame shown `elapsed_millis` milliseconds after the start, for a
    /// line of `width` characters.
    pub fn render_frame(text: &str, elapsed_millis: u128, width: usize) -> (r: String)
        requires
            elapsed_millis / 1000 <= u64::MAX,
        ensures
            r@ == frame(text@, elapsed_millis, width as nat),
            r@.len() == width,
    {
        let seconds = (elapsed_millis / 1000) % 60;
        let time = Spinner::elapsed(elapsed_millis);
        let mut output = String::new();
        if seconds % 2 == 0 {
            push_char(&mut output, '*');
        } else {
            push_char(&mut output, ' ');
        }
        push_char(&mut output, ' ');
        push_str(&mut output, text);
        push_char(&mut output, ' ');
        push_char(&mut output, Spinner::spinner_at(elapsed_millis / 100));
        let head = chars_of(output.as_str());
        let time_chars = chars_of(time.as_str());
        let used = head.len().saturating_add(time_chars.len());
        let fill = width.saturating_sub(used);
        let padding = if fill > 1 { fill } else { 1 };
        let ghost head_view = output@;
        let mut p: usize = 0;
        while p < padding
            invariant
                p <= padding,
                output@ == head_view + Seq::new(p as nat, |i: int| ' '),
            decreases padding - p,
        {
            push_char(&mut output, ' ');
            p = p + 1;
            assert(output@ =~= head_view + Seq::new(p as nat, |i: int| ' '));
        }
        push_str(&mut output, time.as_str());
        proof {
            assert(head_view =~= frame_head(text@, elapsed_millis));
            assert(padding == frame_padding(head_view.len(), time@.len(), width as nat));
        }
        let line = chars_of(output.as_str());
        let mut kept: Vec<char> = Vec::new();
        let mut i: usize = 0;
        while i < width && i < line.len()
            invariant
                i <= width,
                i <= line@.len(),
                kept@ == line@.take(i as int),
            decreases width - i,
        {
            kept.push(line[i]);
            i = i + 1;
            assert(kept@ =~= line@.take(i as int));
        }
        assert(kept@ =~= frame(text@, elapsed_millis, width as nat));
        string_from_chars(kept.as_slice())
    }
}

} // verus!
