//! Columns of a log line that grow to the widest entry seen so far.

use crate::quantity::Bytes;
use crate::render::padding;
use crate::render::push_char;
use crate::render::push_fill;
use crate::render::render;
use crate::render::Alignment;
use crate::unit::Unit;
use std::sync::atomic::AtomicUsize;
use std::sync::atomic::Ordering;
use vstd::prelude::*;
use vstd::string::StrSliceExecFns;
use vstd::string::StringExecFns;

verus! {

/// `text` at the left of a field of `width` characters, filled up with
/// spaces; a longer text is left as it is.
pub open spec fn left_aligned(text: Seq<char>, width: usize) -> Seq<char> {
    text + padding(
        ' ',
        if width > text.len() {
            (width - text.len()) as nat
        } else {
            0
        },
    )
}

/// The width of a column after an entry of `written` characters: the wider
/// of the two.
pub open spec fn widened(max_width: usize, written: usize) -> usize {
    if written > max_width {
        written
    } else {
        max_width
    }
}

/// A log line: the time, the level, the origin and the live memory, each
/// in square brackets, then the message and a line feed.
pub open spec fn log_line_text(
    time: Seq<char>,
    level: Seq<char>,
    target: Seq<char>,
    mem: Seq<char>,
    message: Seq<char>,
) -> Seq<char> {
    seq!['['] + time + seq![']', '['] + level + seq![']', '['] + target + seq![
        ']',
        '[',
        'M',
        'E',
        'M',
        ':',
    ] + mem + seq![']', ' '] + message + seq!['\n']
}

/// Puts a log line together from its parts, which are taken as they are:
/// padded and styled by the caller.
pub fn log_line(time: &str, level: &str, target: &str, mem: &str, message: &str) -> (s: String)
    ensures
        s@ == log_line_text(time@, level@, target@, mem@, message@),
{
    let mut out = String::new();
    push_char(&mut out, '[');
    out.append(time);
    out.append("][");
    out.append(level);
    out.append("][");
    out.append(target);
    out.append("][MEM:");
    out.append(mem);
    out.append("] ");
    out.append(message);
    push_char(&mut out, '\n');
    proof {
        reveal_strlit("][");
        reveal_strlit("][MEM:");
        reveal_strlit("] ");
        assert("]["@ =~= seq![']', '[']);
        assert("][MEM:"@ =~= seq![']', '[', 'M', 'E', 'M', ':']);
        assert("] "@ =~= seq![']', ' ']);
        assert(out@ =~= log_line_text(time@, level@, target@, mem@, message@));
    }
    out
}

/// `text` at the left of a field of `width` characters.
pub fn pad_to(text: &str, width: usize) -> (s: String)
    ensures
        s@ == left_aligned(text@, width),
{
    let written = text.unicode_len();
    let mut out = String::new();
    out.append(text);
    push_fill(&mut out, ' ', width.saturating_sub(written));
    proof {
        assert(out@ =~= left_aligned(text@, width));
    }
    out
}

/// The width of a column after an entry of `written` characters.
pub fn widen(max_width: usize, written: usize) -> (w: usize)
    ensures
        w == widened(max_width, written),
{
    if written > max_width {
        written
    } else {
        max_width
    }
}

/// A column that remembers the widest entry it has held. The width is
/// shared between threads, so an entry is padded to the width that was read
/// when it was written.
pub struct PaddingFormatter {
    pub max_width: AtomicUsize,
}

impl PaddingFormatter {
    /// A column of width zero.
    pub fn new() -> Self {
        Self { max_width: AtomicUsize::new(0) }
    }

    /// `text` filled up to the width of the column; a wider text widens the
    /// column.
    pub fn pad(&self, text: &str) -> (s: String)
        ensures
            exists|width: usize| s@ == left_aligned(text@, width),
    {
        let max_width = self.max_width.load(Ordering::Relaxed);
        let s = pad_to(text, max_width);
        self.record(max_width, s.as_str().unicode_len());
        s
    }

    /// The quantity filled up to the width of the column; a wider text
    /// widens the column.
    pub fn pad_bytes<U: Unit>(&self, value: &Bytes<U>) -> (s: String)
        ensures
            exists|width: usize| s@ == render::<U>(value@, Some(width), Some(Alignment::Left), ' '),
    {
        let max_width = self.max_width.load(Ordering::Relaxed);
        let s = value.format(Some(max_width), Some(Alignment::Left), ' ');
        self.record(max_width, s.as_str().unicode_len());
        s
    }

    /// Stores the width of an entry where it exceeds the width that was read.
    fn record(&self, max_width: usize, written: usize) {
        let width = widen(max_width, written);
        if width > max_width {
            self.max_width.store(width, Ordering::Relaxed);
        }
    }
}

} // verus!
