//! Request-line extraction.
//!
//! A request arrives as a sequence of text lines, each terminated by a
//! line feed (with or without a preceding carriage return), ending in a
//! blank line. Only the first line is meaningful; the remaining header
//! lines are read and discarded so that the stream is drained
//! deterministically. A stream that closes before a complete first
//! line arrives yields no line at all, and the caller falls back to the
//! default route.

use vstd::prelude::*;

verus! {

/// The bytes treated as whitespace when a line is trimmed: space,
/// horizontal tab, carriage return and line feed.
pub open spec fn is_ws(b: u8) -> bool {
    b == 32u8 || b == 9u8 || b == 13u8 || b == 10u8
}

/// A raw chunk is a complete line when it is non-empty and ends in a
/// line feed. An empty chunk stands for a closed stream; a non-empty
/// chunk without a trailing line feed is a partial line cut off by
/// stream closure.
pub open spec fn is_complete_line(c: Seq<u8>) -> bool {
    c.len() > 0 && c[c.len() - 1] == 10u8
}

/// Leading whitespace removed.
pub open spec fn trim_front(s: Seq<u8>) -> Seq<u8>
    decreases s.len(),
{
    if s.len() > 0 && is_ws(s[0]) {
        trim_front(s.drop_first())
    } else {
        s
    }
}

/// Trailing whitespace removed.
pub open spec fn trim_back(s: Seq<u8>) -> Seq<u8>
    decreases s.len(),
{
    if s.len() > 0 && is_ws(s[s.len() - 1]) {
        trim_back(s.drop_last())
    } else {
        s
    }
}

/// Whitespace removed from both ends.
pub open spec fn trim(s: Seq<u8>) -> Seq<u8> {
    trim_back(trim_front(s))
}

proof fn lemma_trim_front_at(s: Seq<u8>, i: int)
    requires
        0 <= i <= s.len(),
        forall|j: int| 0 <= j < i ==> is_ws(s[j]),
        i < s.len() ==> !is_ws(s[i]),
    ensures
        trim_front(s) =~= s.subrange(i, s.len() as int),
    decreases i,
{
    if i == 0 {
        if s.len() > 0 && is_ws(s[0]) {
        } else {
            assert(trim_front(s) == s);
            assert(s =~= s.subrange(0, s.len() as int));
        }
    } else {
        let t = s.drop_first();
        assert(forall|j: int| 0 <= j < i - 1 ==> is_ws(#[trigger] t[j]));
        lemma_trim_front_at(t, i - 1);
        assert(t.subrange(i - 1, t.len() as int) =~= s.subrange(i, s.len() as int));
    }
}

proof fn lemma_trim_back_at(s: Seq<u8>, i: int)
    requires
        0 <= i <= s.len(),
        forall|j: int| i <= j < s.len() ==> is_ws(s[j]),
        i > 0 ==> !is_ws(s[i - 1]),
    ensures
        trim_back(s) =~= s.subrange(0, i),
    decreases s.len() - i,
{
    if i == s.len() {
        if s.len() > 0 && is_ws(s[s.len() - 1]) {
        } else {
            assert(trim_back(s) == s);
            assert(s =~= s.subrange(0, s.len() as int));
        }
    } else {
        let t = s.drop_last();
        assert(forall|j: int| i <= j < t.len() ==> is_ws(#[trigger] t[j]));
        lemma_trim_back_at(t, i);
        assert(t.subrange(0, i) =~= s.subrange(0, i));
    }
}

fn is_ws_byte(b: u8) -> (r: bool)
    ensures
        r == is_ws(b),
{
    b == 32 || b == 9 || b == 13 || b == 10
}

/// A copy of `s` with leading and trailing whitespace removed.
pub fn trim_bytes(s: &Vec<u8>) -> (r: Vec<u8>)
    ensures
        r@ == trim(s@),
{
    let n = s.len();
    let mut start: usize = 0;
    while start < n && is_ws_byte(s[start])
        invariant
            n == s@.len(),
            0 <= start <= n,
            forall|j: int| 0 <= j < start ==> is_ws(s@[j]),
        decreases n - start,
    {
        start += 1;
    }
    proof {
        lemma_trim_front_at(s@, start as int);
    }
    let ghost front = s@.subrange(start as int, n as int);
    let mut end: usize = n;
    while end > start && is_ws_byte(s[end - 1])
        invariant
            n == s@.len(),
            start <= end <= n,
            forall|j: int| end <= j < n ==> is_ws(s@[j]),
        decreases end,
    {
        end -= 1;
    }
    proof {
        assert(forall|j: int| end - start <= j < front.len() ==> is_ws(#[trigger] front[j]));
        lemma_trim_back_at(front, end - start);
    }
    let mut r: Vec<u8> = Vec::new();
    let mut i: usize = start;
    while i < end
        invariant
            start <= i <= end <= n,
            n == s@.len(),
            r@ =~= s@.subrange(start as int, i as int),
        decreases end - i,
    {
        r.push(s[i]);
        proof {
            assert(r@ =~= s@.subrange(start as int, i + 1));
        }
        i += 1;
    }
    proof {
        assert(front.subrange(0, end - start) =~= s@.subrange(start as int, end as int));
        assert(r@ =~= trim(s@));
    }
    r
}

/// The first line held by a reader, as a mathematical value.
pub open spec fn reader_line(r: RequestLineReader) -> Option<Seq<u8>> {
    match r.first_line {
        Option::Some(v) => Option::Some(v@),
        Option::None => Option::None,
    }
}

/// Whether one raw chunk ends the header section: a closed stream
/// (empty chunk), a line cut off before its line feed, or a blank
/// line.
pub open spec fn chunk_ends_request(chunk: Seq<u8>) -> bool {
    !is_complete_line(chunk) || trim(chunk).len() == 0
}

/// The line a reader holds after consuming one raw chunk, given the
/// line it held before: the first complete non-blank line, trimmed, is
/// kept; everything else leaves the held line unchanged.
pub open spec fn chunk_step_line(cur: Option<Seq<u8>>, chunk: Seq<u8>) -> Option<Seq<u8>> {
    if is_complete_line(chunk) && trim(chunk).len() > 0 && cur is None {
        Option::Some(trim(chunk))
    } else {
        cur
    }
}

/// An incremental reader for the first request line.
///
/// The surrounding program feeds it one raw chunk per read — the bytes
/// up to and including a line feed, or whatever remained when the
/// stream closed — until the reader reports that reading is finished.
/// The reader keeps the first complete non-blank line, trimmed, and
/// discards every later header line.
pub struct RequestLineReader {
    pub first_line: Option<Vec<u8>>,
    pub done: bool,
}

impl RequestLineReader {
    /// A fresh reader: no line seen yet, more input wanted.
    pub fn new() -> (r: Self)
        ensures
            reader_line(r) is None,
            !r.done,
    {
        RequestLineReader { first_line: None, done: false }
    }

    /// Whether the reader still wants input.
    pub fn wants_more(&self) -> (b: bool)
        ensures
            b == !self.done,
    {
        !self.done
    }

    /// Consume one raw chunk of input and report whether reading is
    /// finished. A chunk that is empty (closed stream) or lacks its
    /// trailing line feed (stream cut off mid-line) ends the header
    /// section, as does a blank line; a partial line is never kept.
    /// The first complete non-blank line, trimmed, is retained; later
    /// lines are discarded.
    pub fn feed_chunk(&mut self, chunk: &Vec<u8>) -> (stop: bool)
        requires
            !old(self).done,
        ensures
            stop == final(self).done,
            final(self).done == chunk_ends_request(chunk@),
            reader_line(*final(self)) == chunk_step_line(reader_line(*old(self)), chunk@),
    {
        let n = chunk.len();
        if n == 0 || chunk[n - 1] != 10 {
            self.done = true;
            return true;
        }
        let trimmed = trim_bytes(chunk);
        if trimmed.len() == 0 {
            self.done = true;
            return true;
        }
        if self.first_line.is_none() {
            self.first_line = Some(trimmed);
        }
        false
    }

    /// The extracted request line, if a complete non-blank first line
    /// was seen; the caller treats `None` as the unmatched case.
    pub fn into_line(self) -> (r: Option<Vec<u8>>)
        ensures
            crate::opt_bytes_view(r) == reader_line(self),
    {
        self.first_line
    }
}

/// A stream that closes before a complete first line arrives — its
/// first chunk lacks the trailing line feed, or is empty — ends the
/// header section at once and leaves a fresh reader with no line: such
/// a request falls through to the default route rather than failing.
pub proof fn lemma_incomplete_first_line_yields_no_line(chunk: Seq<u8>)
    requires
        !is_complete_line(chunk),
    ensures
        chunk_ends_request(chunk),
        chunk_step_line(Option::None, chunk) is None,
{
}

} // verus!
