//! Framing of the server-sent event stream that carries generated text.

use vstd::prelude::*;

use crate::text::{chars_of, push_char, slice_chars, starts_with, string_of, trim, trimmed};

verus! {

/// One step of line splitting: the pending partial line after `c`, and the
/// line that `c` ends, if it ends one.
pub open spec fn line_step(pending: Seq<char>, c: char) -> (Seq<char>, Option<Seq<char>>) {
    if c == '\n' {
        (Seq::empty(), Some(pending))
    } else {
        (pending.push(c), None)
    }
}

/// The partial line left after reading `cs` with `pending` held back, and
/// the complete lines read, in order.
pub open spec fn split_lines(pending: Seq<char>, cs: Seq<char>) -> (Seq<char>, Seq<Seq<char>>)
    decreases cs.len(),
{
    if cs.len() == 0 {
        (pending, Seq::empty())
    } else {
        let prev = split_lines(pending, cs.drop_last());
        let next = line_step(prev.0, cs.last());
        match next.1 {
            Some(l) => (next.0, prev.1.push(l)),
            None => (next.0, prev.1),
        }
    }
}

/// Splits a byte stream's text into lines, holding back the partial line at
/// the end of each chunk until its newline arrives.
pub struct SseLineBuffer {
    pending: String,
}

impl View for SseLineBuffer {
    type V = Seq<char>;

    closed spec fn view(&self) -> Seq<char> {
        self.pending@
    }
}

impl SseLineBuffer {
    /// A buffer holding nothing.
    pub fn new() -> (r: SseLineBuffer)
        ensures
            r@ == Seq::<char>::empty(),
    {
        SseLineBuffer { pending: String::new() }
    }

    /// Reads the next chunk; returns the lines that it completes, without
    /// their newlines.
    pub fn push_chunk(&mut self, chunk: &str) -> (r: Vec<String>)
        ensures
            final(self)@ == split_lines(old(self)@, chunk@).0,
            r@.map_values(|l: String| l@) == split_lines(old(self)@, chunk@).1,
    {
        let cs = chars_of(chunk);
        let mut lines: Vec<String> = Vec::new();
        let mut i: usize = 0;
        while i < cs.len()
            invariant
                i <= cs@.len(),
                cs@ == chunk@,
                self@ == split_lines(old(self)@, cs@.take(i as int)).0,
                lines@.map_values(|l: String| l@) == split_lines(old(self)@, cs@.take(i as int)).1,
            decreases cs@.len() - i,
        {
            assert(cs@.take(i + 1).drop_last() =~= cs@.take(i as int));
            let c = cs[i];
            if c == '\n' {
                let line = self.pending.clone();
                self.pending = String::new();
                let ghost before = lines@;
                lines.push(line);
                assert(lines@.map_values(|l: String| l@) =~= before.map_values(|l: String| l@).push(
                    line@,
                ));
            } else {
                push_char(&mut self.pending, c);
            }
            i = i + 1;
        }
        assert(cs@.take(cs@.len() as int) =~= cs@);
        lines
    }
}

/// What a line of the event stream carries.
#[derive(Clone, Debug, PartialEq)]
pub enum SseLine {
    /// The payload of a `data: ` line, trimmed.
    Data(String),
    /// The sentinel that ends the stream.
    Done,
    /// Any other line.
    Ignored,
}

/// The payload of `line` if it is a `data: ` line, once white space is
/// trimmed from the line and from the payload.
pub open spec fn data_payload(line: Seq<char>) -> Option<Seq<char>> {
    let t = trim(line);
    let p = "data: "@;
    if p.len() <= t.len() && t.take(p.len() as int) == p {
        Some(trim(t.subrange(p.len() as int, t.len() as int)))
    } else {
        None
    }
}

/// Tells a data line, the sentinel and other lines apart.
pub fn classify_line(line: &str) -> (r: SseLine)
    ensures
        match data_payload(line@) {
            None => r is Ignored,
            Some(d) => if d == "[DONE]"@ {
                r is Done
            } else {
                r matches SseLine::Data(s) && s@ == d
            },
        },
{
    let t = trimmed(&chars_of(line));
    let prefix = chars_of("data: ");
    if !starts_with(&t, &prefix) {
        return SseLine::Ignored;
    }
    let payload = trimmed(&slice_chars(&t, prefix.len(), t.len()));
    let text = string_of(&payload);
    let done = String::from_str("[DONE]");
    if text == done {
        SseLine::Done
    } else {
        SseLine::Data(text)
    }
}

} // verus!
