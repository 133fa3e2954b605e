//! A stream of statement frames separated by blank lines.

use vstd::prelude::*;

use crate::ast::parser::utils::all_ascii;
use crate::ast::parser::utils::ascii_chars;
use crate::stmt_data::first_line_end;
use crate::stmt_data::StmtData;

verus! {

/// Whether a byte is blank filler inside a line: space, tab, or carriage
/// return.
pub open spec fn blank_byte(c: u8) -> bool {
    c == 32 || c == 9 || c == 13
}

/// The index after the line starting at `i`: past its newline, or the end
/// of the input.
pub open spec fn line_end(b: Seq<u8>, i: int) -> int
    decreases b.len() - i,
{
    if i < 0 || i >= b.len() {
        b.len() as int
    } else if b[i] == 10 {
        i + 1
    } else {
        line_end(b, i + 1)
    }
}

/// Whether the line starting at `i` is blank: only blank bytes before its
/// newline or the end of the input.
pub open spec fn line_blank(b: Seq<u8>, i: int) -> bool
    decreases b.len() - i,
{
    if i < 0 || i >= b.len() {
        true
    } else if b[i] == 10 {
        true
    } else if blank_byte(b[i]) {
        line_blank(b, i + 1)
    } else {
        false
    }
}

/// The cursor after skipping the blank lines at `i`.
pub open spec fn skip_blank_end(b: Seq<u8>, i: int) -> int
    decreases b.len() - i,
{
    if i < 0 || i >= b.len() {
        b.len() as int
    } else if line_blank(b, i) {
        let e = line_end(b, i);
        if i < e <= b.len() {
            skip_blank_end(b, e)
        } else {
            i
        }
    } else {
        i
    }
}

/// The end of the frame starting at `i`: the start of the first blank line
/// after it, or the end of the input.
pub open spec fn frame_end(b: Seq<u8>, i: int) -> int
    decreases b.len() - i,
{
    if i < 0 || i >= b.len() {
        b.len() as int
    } else if line_blank(b, i) {
        i
    } else {
        let e = line_end(b, i);
        if i < e <= b.len() {
            frame_end(b, e)
        } else {
            i
        }
    }
}

/// A lazily split stream of statement frames.
pub struct MultiStatement {
    content: Vec<u8>,
}

impl MultiStatement {
    /// The bytes of the stream.
    pub closed spec fn view_bytes(&self) -> Seq<u8> {
        self.content@
    }

    /// Wraps a byte stream of statement frames.
    pub fn from_bytes(content: Vec<u8>) -> (r: MultiStatement)
        ensures
            r.view_bytes() == content@,
    {
        MultiStatement { content }
    }

    /// Turns the stream into a frame iterator.
    pub fn statement_iter(self) -> (r: StatementIter)
        ensures
            r.view_bytes() == self.view_bytes(),
            r.position() == 0,
    {
        StatementIter { content: self.content, pos: 0 }
    }
}

/// An iterator over the statement frames of a byte stream.
pub struct StatementIter {
    content: Vec<u8>,
    pos: usize,
}

impl StatementIter {
    /// The bytes of the stream.
    pub closed spec fn view_bytes(&self) -> Seq<u8> {
        self.content@
    }

    /// How far the iterator has read.
    pub closed spec fn position(&self) -> int {
        self.pos as int
    }

    /// Wraps a byte stream of statement frames.
    pub fn new(content: Vec<u8>) -> (r: StatementIter)
        ensures
            r.view_bytes() == content@,
            r.position() == 0,
    {
        StatementIter { content, pos: 0 }
    }

    /// The index after the line starting at `i`.
    fn line_end_at(&self, i: usize) -> (r: usize)
        requires
            i <= self.view_bytes().len(),
        ensures
            r as int == line_end(self.view_bytes(), i as int),
            i <= r <= self.view_bytes().len(),
            i < self.view_bytes().len() ==> i < r,
    {
        let mut p = i;
        while p < self.content.len() && self.content[p] != 10u8
            invariant
                i <= p <= self.content@.len(),
                line_end(self.content@, i as int) == line_end(self.content@, p as int),
            decreases self.content@.len() - p,
        {
            p += 1;
        }
        if p < self.content.len() {
            p + 1
        } else {
            p
        }
    }

    /// Whether the line starting at `i` is blank.
    fn line_blank_at(&self, i: usize) -> (r: bool)
        requires
            i <= self.view_bytes().len(),
        ensures
            r == line_blank(self.view_bytes(), i as int),
    {
        let mut p = i;
        while p < self.content.len() && self.content[p] != 10u8 && (self.content[p] == 32u8
            || self.content[p] == 9u8 || self.content[p] == 13u8)
            invariant
                i <= p <= self.content@.len(),
                line_blank(self.content@, i as int) == line_blank(self.content@, p as int),
            decreases self.content@.len() - p,
        {
            p += 1;
        }
        p >= self.content.len() || self.content[p] == 10u8
    }

    /// Skips the blank lines at the cursor, landing on the first non-blank
    /// line or the end of the input.
    fn skip_blank_lines(&mut self)
        requires
            old(self).position() <= old(self).view_bytes().len(),
        ensures
            final(self).view_bytes() == old(self).view_bytes(),
            final(self).position() == skip_blank_end(
                old(self).view_bytes(),
                old(self).position(),
            ),
            old(self).position() <= final(self).position() <= final(self).view_bytes().len(),
    {
        loop
            invariant
                self.view_bytes() == old(self).view_bytes(),
                old(self).position() <= self.position() <= self.view_bytes().len(),
                skip_blank_end(old(self).view_bytes(), old(self).position()) == skip_blank_end(
                    self.view_bytes(),
                    self.position(),
                ),
            decreases self.view_bytes().len() - self.position(),
        {
            if self.pos >= self.content.len() {
                return ;
            }
            if !self.line_blank_at(self.pos) {
                return ;
            }
            self.pos = self.line_end_at(self.pos);
        }
    }

    /// The end of the frame starting at `start`.
    fn frame_end_at(&self, start: usize) -> (r: usize)
        requires
            start <= self.view_bytes().len(),
        ensures
            r as int == frame_end(self.view_bytes(), start as int),
            start <= r <= self.view_bytes().len(),
    {
        let ghost b = self.view_bytes();
        let mut fe = start;
        loop
            invariant
                b == self.view_bytes(),
                start <= fe,
                fe as int <= b.len(),
                frame_end(b, start as int) == frame_end(b, fe as int),
            decreases b.len() - fe,
        {
            if fe >= self.content.len() {
                return fe;
            }
            if self.line_blank_at(fe) {
                return fe;
            }
            fe = self.line_end_at(fe);
        }
    }

    /// Reads the next frame: the non-blank lines from the cursor up to a
    /// blank line or the end of the input, parsed as a statement frame;
    /// the cursor moves past the terminating blank line.  Nothing exactly
    /// when only blank input is left.
    #[verifier::rlimit(90)]
    pub fn next_statement(&mut self) -> (r: Option<Result<StmtData, crate::Error>>)
        requires
            old(self).position() <= old(self).view_bytes().len(),
        ensures
            final(self).view_bytes() == old(self).view_bytes(),
            ({
                let b = old(self).view_bytes();
                let sb = skip_blank_end(b, old(self).position());
                if sb >= b.len() {
                    r is None && final(self).position() == b.len()
                } else {
                    let fe = frame_end(b, sb);
                    let frame = b.subrange(sb, fe);
                    let line = frame.take(first_line_end(frame, 0));
                    final(self).position() == (if fe < b.len() {
                        line_end(b, fe)
                    } else {
                        fe
                    }) && (match r {
                        Some(Ok(sd)) => sd.body@ == frame.skip(first_line_end(frame, 0)) && (
                        all_ascii(line) ==> (crate::ast::parser::sp_statement(
                            ascii_chars(line),
                            0,
                        ) matches crate::ast::parser::Parsed::Found(v, _)
                            && sd.header.deep_view() == v)),
                        Some(Err(_)) => all_ascii(line) ==> !(crate::ast::parser::sp_statement(
                            ascii_chars(line),
                            0,
                        ) is Found),
                        None => false,
                    })
                }
            }),
    {
        self.skip_blank_lines();
        let ghost b = self.view_bytes();
        let start = self.pos;
        if start >= self.content.len() {
            return None;
        }
        let fe = self.frame_end_at(start);
        proof {
            assert(start as int == skip_blank_end(b, old(self).position()));
            assert(fe as int == frame_end(b, start as int));
        }
        let frame = crate::ast::parser::utils::subvec_bytes(&self.content, start, fe);
        self.pos = if fe < self.content.len() {
            self.line_end_at(fe)
        } else {
            fe
        };
        match StmtData::from_bytes(&frame) {
            Ok(sd) => Some(Ok(sd)),
            Err(e) => Some(Err(e)),
        }
    }
}

} // verus!
