//! Recovery of complete objects from a streamed, still-incomplete JSON array.

use vstd::prelude::*;

use crate::text::{chars_of, joined, push_char};

verus! {

/// The abstract state of the extractor.
pub struct ParserModel {
    pub buffer: Seq<char>,
    pub depth: nat,
    pub json_started: bool,
    pub in_string: bool,
    pub escape_next: bool,
    pub collecting: bool,
}

/// The state before any character has been read.
pub open spec fn initial_model() -> ParserModel {
    ParserModel {
        buffer: Seq::empty(),
        depth: 0,
        json_started: false,
        in_string: false,
        escape_next: false,
        collecting: false,
    }
}

/// The buffer after `c` is read: extended while an element is being collected.
pub open spec fn pushed(s: ParserModel, c: char) -> Seq<char> {
    if s.collecting {
        s.buffer.push(c)
    } else {
        s.buffer
    }
}

/// Depth after an opening bracket; it stays put at the largest `u64`.
pub open spec fn depth_up(d: nat) -> nat {
    if d < u64::MAX {
        d + 1
    } else {
        d
    }
}

/// Depth after a closing bracket; it never goes below zero.
pub open spec fn depth_down(d: nat) -> nat {
    if d > 0 {
        (d - 1) as nat
    } else {
        d
    }
}

/// One step of the extractor: the next state, and the object text completed
/// by `c`, if any.
///
/// Before the array opens every character but `[` is discarded. Inside a
/// string literal, an escaped character and the quote are never structural.
/// A `{` that brings the depth to 2 starts a new element; a `}` that brings
/// it back to 1 hands the element over.
pub open spec fn step(s: ParserModel, c: char) -> (ParserModel, Option<Seq<char>>) {
    if !s.json_started {
        if c == '[' {
            (ParserModel { json_started: true, depth: 1, ..s }, None)
        } else {
            (s, None)
        }
    } else if s.escape_next {
        (ParserModel { escape_next: false, buffer: pushed(s, c), ..s }, None)
    } else if c == '\\' && s.in_string {
        (ParserModel { escape_next: true, buffer: pushed(s, c), ..s }, None)
    } else if c == '"' {
        (ParserModel { in_string: !s.in_string, buffer: pushed(s, c), ..s }, None)
    } else if s.in_string {
        (ParserModel { buffer: pushed(s, c), ..s }, None)
    } else if c == '[' {
        (ParserModel { depth: depth_up(s.depth), buffer: pushed(s, c), ..s }, None)
    } else if c == '{' {
        if depth_up(s.depth) == 2 {
            (
                ParserModel { depth: 2, collecting: true, buffer: seq![c], ..s },
                None,
            )
        } else {
            (ParserModel { depth: depth_up(s.depth), buffer: pushed(s, c), ..s }, None)
        }
    } else if c == ']' {
        (ParserModel { depth: depth_down(s.depth), buffer: pushed(s, c), ..s }, None)
    } else if c == '}' {
        if depth_down(s.depth) == 1 && s.collecting {
            (
                ParserModel {
                    depth: 1,
                    collecting: false,
                    buffer: Seq::empty(),
                    ..s
                },
                Some(s.buffer.push(c)),
            )
        } else {
            (ParserModel { depth: depth_down(s.depth), buffer: pushed(s, c), ..s }, None)
        }
    } else {
        (ParserModel { buffer: pushed(s, c), ..s }, None)
    }
}

/// The sequence holding the completed object, if there is one.
pub open spec fn emitted(o: Option<Seq<char>>) -> Seq<Seq<char>> {
    match o {
        Some(t) => seq![t],
        None => Seq::empty(),
    }
}

/// The state reached from `s` by reading `cs`, and the objects completed on
/// the way, in order.
pub open spec fn run(s: ParserModel, cs: Seq<char>) -> (ParserModel, Seq<Seq<char>>)
    decreases cs.len(),
{
    if cs.len() == 0 {
        (s, Seq::empty())
    } else {
        let prev = run(s, cs.drop_last());
        let next = step(prev.0, cs.last());
        (next.0, prev.1 + emitted(next.1))
    }
}

/// Reading a text in two pieces ends in the same state and completes the same
/// objects, in the same order, as reading it at once: where the chunk
/// boundaries fall does not matter.
pub proof fn lemma_run_split(s: ParserModel, a: Seq<char>, b: Seq<char>)
    ensures
        run(s, a + b).0 == run(run(s, a).0, b).0,
        run(s, a + b).1 == run(s, a).1 + run(run(s, a).0, b).1,
    decreases b.len(),
{
    if b.len() == 0 {
        assert(a + b =~= a);
    } else {
        assert((a + b).drop_last() =~= a + b.drop_last());
        assert((a + b).last() == b.last());
        lemma_run_split(s, a, b.drop_last());
        let mid = run(s, a).0;
        let prev = run(mid, b.drop_last());
        let next = step(prev.0, b.last());
        assert(run(s, a).1 + (prev.1 + emitted(next.1)) =~= (run(s, a).1 + prev.1) + emitted(
            next.1,
        ));
    }
}

/// Reading a sequence of chunks one after another ends where reading their
/// concatenation ends, and completes the same objects.
pub proof fn lemma_run_chunks(s: ParserModel, chunks: Seq<Seq<char>>)
    ensures
        run(s, chunks.flatten()) == run_chunks(s, chunks),
    decreases chunks.len(),
{
    if chunks.len() > 0 {
        let rest = chunks.drop_first();
        assert(chunks.flatten() == chunks[0] + rest.flatten());
        lemma_run_split(s, chunks[0], rest.flatten());
        lemma_run_chunks(run(s, chunks[0]).0, rest);
    } else {
        assert(chunks.flatten() =~= Seq::<char>::empty());
    }
}

/// The state and the completed objects after reading each chunk in turn.
pub open spec fn run_chunks(s: ParserModel, chunks: Seq<Seq<char>>) -> (
    ParserModel,
    Seq<Seq<char>>,
)
    decreases chunks.len(),
{
    if chunks.len() == 0 {
        (s, Seq::empty())
    } else {
        let first = run(s, chunks[0]);
        let rest = run_chunks(first.0, chunks.drop_first());
        (rest.0, first.1 + rest.1)
    }
}

/// While an element is being collected, the buffer is the text read since
/// that element's opening brace, which is a suffix of the input.
pub open spec fn buffer_is_suffix(s: ParserModel, cs: Seq<char>) -> bool {
    &&& !s.json_started ==> !s.collecting
    &&& s.collecting ==> {
        &&& 1 <= s.buffer.len() <= cs.len()
        &&& s.buffer[0] == '{'
        &&& s.buffer == cs.subrange(cs.len() - s.buffer.len(), cs.len() as int)
    }
}

/// Every object completed from the initial state is a contiguous slice of the
/// input, beginning with `{` and ending with `}`.
pub proof fn lemma_extracted_are_slices(cs: Seq<char>)
    ensures
        buffer_is_suffix(run(initial_model(), cs).0, cs),
        forall|i: int|
            0 <= i < run(initial_model(), cs).1.len() ==> {
                let t = #[trigger] run(initial_model(), cs).1[i];
                &&& t.len() >= 2
                &&& t[0] == '{'
                &&& t.last() == '}'
                &&& exists|j: int, k: int| 0 <= j < k <= cs.len() && t == cs.subrange(j, k)
            },
    decreases cs.len(),
{
    if cs.len() > 0 {
        let p = cs.drop_last();
        let c = cs.last();
        lemma_extracted_are_slices(p);
        let prev = run(initial_model(), p);
        let next = step(prev.0, c);
        let outs = run(initial_model(), cs).1;
        assert(outs == prev.1 + emitted(next.1));
        assert forall|j: int, k: int| 0 <= j <= k <= p.len() implies p.subrange(j, k) == cs.subrange(j, k) by {
            assert(p.subrange(j, k) =~= cs.subrange(j, k));
        }
        if prev.0.collecting {
            assert(prev.0.buffer.push(c) =~= cs.subrange(
                cs.len() - (prev.0.buffer.len() + 1),
                cs.len() as int,
            ));
        }
        assert(seq![c] =~= cs.subrange(cs.len() - 1, cs.len() as int));
        if next.0.collecting {
            assert(next.0.buffer == prev.0.buffer.push(c) || (c == '{' && next.0.buffer
                == seq![c]));
        }
        assert forall|i: int| 0 <= i < outs.len() implies {
            let t = #[trigger] outs[i];
            &&& t.len() >= 2
            &&& t[0] == '{'
            &&& t.last() == '}'
            &&& exists|j: int, k: int| 0 <= j < k <= cs.len() && t == cs.subrange(j, k)
        } by {
            if i < prev.1.len() {
                let t = prev.1[i];
                let (j, k) = choose|j: int, k: int| 0 <= j < k <= p.len() && t == p.subrange(j, k);
                assert(t == cs.subrange(j, k));
            } else {
                let t = outs[i];
                assert(t == prev.0.buffer.push(c));
                assert(t == cs.subrange(cs.len() - t.len(), cs.len() as int));
                assert(prev.0.buffer.len() >= 1);
                assert(t[0] == '{');
            }
        }
    }
}

/// The state between two elements of the array: opened, at depth 1,
/// outside any string, collecting nothing.
pub open spec fn between_elements() -> ParserModel {
    ParserModel {
        buffer: Seq::empty(),
        depth: 1,
        json_started: true,
        in_string: false,
        escape_next: false,
        collecting: false,
    }
}

/// A self-contained element: read between elements, it is extracted whole
/// and leaves the extractor between elements again. A JSON object is one.
pub open spec fn is_element(o: Seq<char>) -> bool {
    run(between_elements(), o) == (between_elements(), seq![o])
}

/// The text of an array of `elements`, separated by commas.
pub open spec fn array_text(elements: Seq<Seq<char>>) -> Seq<char> {
    seq!['['] + joined(elements, seq![',']) + seq![']']
}

proof fn lemma_single(s: ParserModel, c: char)
    ensures
        run(s, seq![c]) == (step(s, c).0, emitted(step(s, c).1)),
{
    assert(seq![c].drop_last() =~= Seq::<char>::empty());
    assert(seq![c].last() == c);
    assert(run(s, Seq::<char>::empty()) == (s, Seq::<Seq<char>>::empty()));
    assert(Seq::<Seq<char>>::empty() + emitted(step(s, c).1) =~= emitted(step(s, c).1));
}

proof fn lemma_elements(elements: Seq<Seq<char>>)
    requires
        forall|i: int| 0 <= i < elements.len() ==> is_element(#[trigger] elements[i]),
    ensures
        run(between_elements(), joined(elements, seq![','])) == (between_elements(), elements),
    decreases elements.len(),
{
    let sep = seq![','];
    if elements.len() == 0 {
        assert(run(between_elements(), Seq::<char>::empty()).1 =~= elements);
    } else if elements.len() == 1 {
        assert(is_element(elements[0]));
        assert(seq![elements[0]] =~= elements);
    } else {
        let prev = elements.drop_last();
        assert forall|i: int| 0 <= i < prev.len() implies is_element(#[trigger] prev[i]) by {
            assert(prev[i] == elements[i]);
        }
        lemma_elements(prev);
        let last = elements.last();
        assert(is_element(elements[elements.len() - 1]));
        lemma_run_split(between_elements(), joined(prev, sep), sep);
        lemma_single(between_elements(), ',');
        assert(step(between_elements(), ',').0 == between_elements());
        assert(prev + Seq::<Seq<char>>::empty() =~= prev);
        lemma_run_split(between_elements(), joined(prev, sep) + sep, last);
        assert(prev + seq![last] =~= elements);
    }
}

/// An array of self-contained elements yields exactly those elements, in
/// order, and nothing else; by `lemma_run_split`, however its text is cut
/// into chunks.
pub proof fn lemma_array_yields_elements(elements: Seq<Seq<char>>)
    requires
        forall|i: int| 0 <= i < elements.len() ==> is_element(#[trigger] elements[i]),
    ensures
        run(initial_model(), array_text(elements)).1 == elements,
{
    let body = joined(elements, seq![',']);
    lemma_single(initial_model(), '[');
    assert(step(initial_model(), '[').0 == between_elements());
    lemma_elements(elements);
    lemma_run_split(initial_model(), seq!['['], body);
    assert(Seq::<Seq<char>>::empty() + elements =~= elements);
    lemma_run_split(initial_model(), seq!['['] + body, seq![']']);
    lemma_single(between_elements(), ']');
    assert(elements + Seq::<Seq<char>>::empty() =~= elements);
}

/// State machine that extracts complete array elements from a JSON array
/// read one character at a time.
pub struct JsonArrayChunkParser {
    chunk_buffer: String,
    depth: u64,
    json_started: bool,
    in_string: bool,
    escape_next: bool,
    collecting_chunk: bool,
}

impl View for JsonArrayChunkParser {
    type V = ParserModel;

    closed spec fn view(&self) -> ParserModel {
        ParserModel {
            buffer: self.chunk_buffer@,
            depth: self.depth as nat,
            json_started: self.json_started,
            in_string: self.in_string,
            escape_next: self.escape_next,
            collecting: self.collecting_chunk,
        }
    }
}

impl Default for JsonArrayChunkParser {
    fn default() -> (r: Self)
        ensures
            r@ == initial_model(),
    {
        JsonArrayChunkParser::new()
    }
}

/// The texts of a sequence of strings.
pub open spec fn texts(v: Seq<String>) -> Seq<Seq<char>> {
    v.map_values(|t: String| t@)
}

impl JsonArrayChunkParser {
    /// A parser that has read nothing yet.
    pub fn new() -> (r: Self)
        ensures
            r@ == initial_model(),
    {
        JsonArrayChunkParser {
            chunk_buffer: String::new(),
            depth: 0,
            json_started: false,
            in_string: false,
            escape_next: false,
            collecting_chunk: false,
        }
    }

    /// Reads one character; returns the text of the array element that it
    /// completes, if it completes one.
    pub fn process_char(&mut self, ch: char) -> (r: Option<String>)
        ensures
            final(self)@ == step(old(self)@, ch).0,
            step(old(self)@, ch).1 == match r {
                Some(t) => Some(t@),
                None => None::<Seq<char>>,
            },
    {
        if !self.json_started {
            if ch == '[' {
                self.json_started = true;
                self.depth = 1;
            }
            return None;
        }
        let mut should_push = self.collecting_chunk;
        let mut finalize_chunk = false;

        if self.escape_next {
            if should_push {
                push_char(&mut self.chunk_buffer, ch);
            }
            self.escape_next = false;
            return None;
        }
        if ch == '\\' && self.in_string {
            if should_push {
                push_char(&mut self.chunk_buffer, ch);
            }
            self.escape_next = true;
            return None;
        }
        if ch == '"' {
            if should_push {
                push_char(&mut self.chunk_buffer, ch);
            }
            self.in_string = !self.in_string;
            return None;
        }
        if !self.in_string {
            if ch == '[' {
                if self.depth < u64::MAX {
                    self.depth = self.depth + 1;
                }
            } else if ch == '{' {
                if self.depth < u64::MAX {
                    self.depth = self.depth + 1;
                }
                if self.depth == 2 {
                    self.collecting_chunk = true;
                    should_push = true;
                    self.chunk_buffer = String::new();
                }
            } else if ch == ']' {
                if self.depth > 0 {
                    self.depth = self.depth - 1;
                }
            } else if ch == '}' {
                if self.depth > 0 {
                    self.depth = self.depth - 1;
                }
                if self.depth == 1 && self.collecting_chunk {
                    finalize_chunk = true;
                }
            }
        }
        if should_push {
            push_char(&mut self.chunk_buffer, ch);
        }
        if finalize_chunk {
            let chunk_json = self.chunk_buffer.clone();
            self.chunk_buffer = String::new();
            self.collecting_chunk = false;
            return Some(chunk_json);
        }
        None
    }

    /// Reads every character of `chunk` in order; returns the texts of the
    /// array elements completed on the way, in order.
    pub fn feed(&mut self, chunk: &str) -> (r: Vec<String>)
        ensures
            final(self)@ == run(old(self)@, chunk@).0,
            texts(r@) == run(old(self)@, chunk@).1,
    {
        let cs = chars_of(chunk);
        let mut out: Vec<String> = Vec::new();
        let mut i: usize = 0;
        while i < cs.len()
            invariant
                i <= cs@.len(),
                cs@ == chunk@,
                self@ == run(old(self)@, cs@.take(i as int)).0,
                texts(out@) == run(old(self)@, cs@.take(i as int)).1,
            decreases cs@.len() - i,
        {
            let ghost before = cs@.take(i as int);
            assert(cs@.take(i + 1).drop_last() =~= before);
            if let Some(t) = self.process_char(cs[i]) {
                out.push(t);
                assert(texts(out@) =~= run(old(self)@, before).1 + seq![t@]);
            } else {
                assert(texts(out@) =~= run(old(self)@, before).1 + Seq::<Seq<char>>::empty());
            }
            i = i + 1;
        }
        assert(cs@.take(cs@.len() as int) =~= cs@);
        out
    }
}

} // verus!
