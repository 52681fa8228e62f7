//! Line framing over a byte stream.
//!
//! Both the protocol (one message per line) and the command output (one
//! `Output` message per line) are cut at newline bytes. A `LineBuffer`
//! collects bytes as they arrive and hands out complete lines.

use vstd::prelude::*;

verus! {

pub const NEWLINE: u8 = 10;

/// `s` holds no newline byte.
pub open spec fn no_newline(s: Seq<u8>) -> bool {
    forall|i: int| 0 <= i < s.len() ==> s[i] != NEWLINE
}

/// `line` is a complete line: it ends with its only newline byte.
pub open spec fn is_line(line: Seq<u8>) -> bool {
    line.len() > 0 && line.last() == NEWLINE && no_newline(line.drop_last())
}

/// A byte stream starts with at most one complete line: two ways of reading
/// a complete line off the same bytes agree, and so do the bytes left over.
/// Whatever follows a line cannot change how that line is read.
pub proof fn lemma_line_is_unique(line: Seq<u8>, rest: Seq<u8>, other: Seq<u8>, other_rest: Seq<u8>)
    requires
        is_line(line),
        is_line(other),
        line + rest == other + other_rest,
    ensures
        line == other,
        rest == other_rest,
{
    let s = line + rest;
    if line.len() < other.len() {
        assert(other.drop_last()[line.len() - 1] == s[line.len() - 1]);
    } else if other.len() < line.len() {
        assert(line.drop_last()[other.len() - 1] == s[other.len() - 1]);
    }
    assert(line =~= s.take(line.len() as int));
    assert(other =~= s.take(other.len() as int));
    assert(rest =~= s.skip(line.len() as int));
    assert(other_rest =~= s.skip(other.len() as int));
}

/// Bytes received but not yet handed out.
pub struct LineBuffer {
    buf: Vec<u8>,
}

impl View for LineBuffer {
    type V = Seq<u8>;

    closed spec fn view(&self) -> Seq<u8> {
        self.buf@
    }
}

impl LineBuffer {
    /// An empty buffer.
    pub fn new() -> (r: LineBuffer)
        ensures
            r@ == Seq::<u8>::empty(),
    {
        LineBuffer { buf: Vec::new() }
    }

    /// Number of pending bytes.
    pub fn len(&self) -> (r: usize)
        ensures
            r == self@.len(),
    {
        self.buf.len()
    }

    /// Append bytes read from the stream.
    pub fn push(&mut self, bytes: &[u8])
        ensures
            final(self)@ == old(self)@ + bytes@,
    {
        let mut i: usize = 0;
        while i < bytes.len()
            invariant
                i <= bytes@.len(),
                self@ == old(self)@ + bytes@.subrange(0, i as int),
            decreases bytes@.len() - i,
        {
            self.buf.push(bytes[i]);
            i = i + 1;
            assert(bytes@.subrange(0, i as int) == bytes@.subrange(0, i - 1) + seq![bytes@[i - 1]]);
        }
        assert(bytes@.subrange(0, i as int) == bytes@);
    }

    /// Take the first complete line, newline included. `None` when no
    /// newline has arrived yet; the buffer is then unchanged.
    pub fn take_line(&mut self) -> (r: Option<Vec<u8>>)
        ensures
            match r {
                Some(line) => is_line(line@) && old(self)@ == line@ + final(self)@,
                None => no_newline(old(self)@) && final(self)@ == old(self)@,
            },
    {
        let mut i: usize = 0;
        while i < self.buf.len()
            invariant
                i <= self.buf@.len(),
                self.buf@ == old(self).buf@,
                no_newline(self.buf@.subrange(0, i as int)),
            decreases self.buf@.len() - i,
        {
            if self.buf[i] == NEWLINE {
                let mut line = self.buf.split_off(i + 1);
                std::mem::swap(&mut line, &mut self.buf);
                assert(line@.drop_last() =~= old(self)@.subrange(0, i as int));
                assert(old(self)@ =~= line@ + self@);
                return Some(line);
            }
            assert(self.buf@.subrange(0, i + 1) == self.buf@.subrange(0, i as int).push(self.buf@[i as int]));
            i = i + 1;
        }
        assert(self.buf@.subrange(0, i as int) == self.buf@);
        None
    }

    /// At the end of the stream: the bytes of an unterminated last line, if
    /// any. The buffer is left empty.
    pub fn take_rest(&mut self) -> (r: Option<Vec<u8>>)
        ensures
            final(self)@ == Seq::<u8>::empty(),
            match r {
                Some(rest) => rest@ == old(self)@ && rest@.len() > 0,
                None => old(self)@.len() == 0,
            },
    {
        if self.buf.len() == 0 {
            None
        } else {
            let mut rest = Vec::new();
            std::mem::swap(&mut rest, &mut self.buf);
            Some(rest)
        }
    }
}

/// The frame for one encoded message: the encoding followed by a newline.
pub fn frame(body: &str) -> (r: String)
    ensures
        r@ == body@.push('\n'),
{
    let mut r = body.to_owned();
    r.append("\n");
    proof {
        reveal_strlit("\n");
    }
    assert(r@ == body@.push('\n'));
    r
}

} // verus!
