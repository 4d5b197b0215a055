//! Byte-at-a-time scanning of shell text: double quotes, backticks and
//! `$( )` nesting, the separators that end a statement, and comments.

pub mod heredoc;

use vstd::prelude::*;
use crate::bytes::{is_ascii_whitespace, is_space, BACKSLASH, BACKTICK, DOLLAR, DQUOTE, HASH, LPAREN, NL, RPAREN, SEMI};

verus! {

/// Where the scanner stands: inside a double-quoted string, inside a
/// backtick substitution, how many `$( )` (and parentheses within them) are
/// open, and whether the last byte continued a word.
#[derive(Debug, Clone, Copy, PartialEq, Eq, Structural)]
pub struct ScanState {
    pub in_quote: bool,
    pub in_backtick: bool,
    pub dollar_paren_depth: u32,
    pub word_active: bool,
}

/// What the byte at a position means for statement splitting.
#[derive(Debug, Clone, Copy, PartialEq, Eq, Structural)]
pub enum Boundary {
    /// An ordinary byte of the current statement.
    Char,
    /// `;`, a newline, or the end of the line, outside any quoting.
    Separator,
    /// A `#` that starts a word outside any quoting.
    Comment,
}

pub open spec fn sat_inc(d: u32) -> u32 {
    if d < u32::MAX {
        (d + 1) as u32
    } else {
        d
    }
}

impl ScanState {
    pub open spec fn initial() -> ScanState {
        ScanState { in_quote: false, in_backtick: false, dollar_paren_depth: 0, word_active: false }
    }

    /// Whether the scanner is inside quoting of any kind.
    pub open spec fn nested(self) -> bool {
        self.in_quote || self.in_backtick || self.dollar_paren_depth > 0
    }

    /// One scanning step over the byte at `i`: the state after it and the
    /// index of the next byte to look at. A backslash escapes the next
    /// byte; `"` toggles quoting outside backticks; `` ` `` toggles a
    /// backtick substitution outside quotes; `$(` opens a substitution
    /// anywhere; a plain `(` inside a substitution (outside quotes and
    /// backticks) adds a level, and `)` closes one.
    pub open spec fn step(self, line: Seq<u8>, i: int) -> (ScanState, int) {
        let b = line[i];
        let w = ScanState { word_active: true, ..self };
        if b == 0x5cu8 && i + 1 < line.len() {
            (w, i + 2)
        } else if b == 0x22u8 && !self.in_backtick {
            (ScanState { in_quote: !self.in_quote, ..w }, i + 1)
        } else if b == 0x60u8 && !self.in_quote {
            (ScanState { in_backtick: !self.in_backtick, ..w }, i + 1)
        } else if b == 0x24u8 && i + 1 < line.len() && line[i + 1] == 0x28u8 {
            (ScanState { dollar_paren_depth: sat_inc(self.dollar_paren_depth), ..w }, i + 2)
        } else if b == 0x28u8 && self.dollar_paren_depth > 0 && !self.in_quote && !self.in_backtick {
            (ScanState { dollar_paren_depth: sat_inc(self.dollar_paren_depth), ..w }, i + 1)
        } else if b == 0x29u8 && self.dollar_paren_depth > 0 {
            (ScanState { dollar_paren_depth: (self.dollar_paren_depth - 1) as u32, ..w }, i + 1)
        } else {
            (ScanState { word_active: !is_space(b), ..self }, i + 1)
        }
    }

    pub fn new() -> (s: ScanState)
        ensures
            s == ScanState::initial(),
    {
        ScanState { in_quote: false, in_backtick: false, dollar_paren_depth: 0, word_active: false }
    }

    /// Scans the byte at `i`; returns the index of the next byte.
    pub fn advance(&mut self, line: &[u8], i: usize) -> (r: usize)
        requires
            i < line@.len(),
        ensures
            (*final(self), r as int) == old(self).step(line@, i as int),
            i < r <= line@.len(),
    {
        let b = line[i];
        if b == BACKSLASH && i + 1 < line.len() {
            self.word_active = true;
            i + 2
        } else if b == DQUOTE && !self.in_backtick {
            self.in_quote = !self.in_quote;
            self.word_active = true;
            i + 1
        } else if b == BACKTICK && !self.in_quote {
            self.in_backtick = !self.in_backtick;
            self.word_active = true;
            i + 1
        } else if b == DOLLAR && i + 1 < line.len() && line[i + 1] == LPAREN {
            if self.dollar_paren_depth < u32::MAX {
                self.dollar_paren_depth = self.dollar_paren_depth + 1;
            }
            self.word_active = true;
            i + 2
        } else if b == LPAREN && self.dollar_paren_depth > 0 && !self.in_quote && !self.in_backtick {
            if self.dollar_paren_depth < u32::MAX {
                self.dollar_paren_depth = self.dollar_paren_depth + 1;
            }
            self.word_active = true;
            i + 1
        } else if b == RPAREN && self.dollar_paren_depth > 0 {
            self.dollar_paren_depth = self.dollar_paren_depth - 1;
            self.word_active = true;
            i + 1
        } else {
            self.word_active = !is_ascii_whitespace(b);
            i + 1
        }
    }
}

/// The kind of the byte at `i`: the end of the line and an unquoted `;` or
/// newline separate statements; an unquoted `#` that starts a word opens a
/// comment; every other byte belongs to the current statement.
pub open spec fn boundary_spec(line: Seq<u8>, i: int, st: ScanState) -> Boundary {
    if i >= line.len() {
        Boundary::Separator
    } else if st.nested() {
        Boundary::Char
    } else if line[i] == 0x3bu8 || line[i] == 0x0au8 {
        Boundary::Separator
    } else if line[i] == 0x23u8 && !st.word_active {
        Boundary::Comment
    } else {
        Boundary::Char
    }
}

pub fn boundary(line: &[u8], i: usize, state: &ScanState) -> (r: Boundary)
    ensures
        r == boundary_spec(line@, i as int, *state),
{
    if i >= line.len() {
        Boundary::Separator
    } else if state.in_quote || state.in_backtick || state.dollar_paren_depth > 0 {
        Boundary::Char
    } else if line[i] == SEMI || line[i] == NL {
        Boundary::Separator
    } else if line[i] == HASH && !state.word_active {
        Boundary::Comment
    } else {
        Boundary::Char
    }
}

/// The index of the first newline at or after `i`, or the end of the line:
/// where a comment starting at `i` ends.
pub open spec fn skip_comment_spec(line: Seq<u8>, i: int) -> int
    decreases line.len() - i,
{
    if i < 0 || i >= line.len() {
        line.len() as int
    } else if line[i] == 0x0au8 {
        i
    } else {
        skip_comment_spec(line, i + 1)
    }
}

pub proof fn lemma_skip_comment(line: Seq<u8>, i: int)
    requires
        0 <= i <= line.len(),
    ensures
        i <= skip_comment_spec(line, i) <= line.len(),
        skip_comment_spec(line, i) < line.len() ==> line[skip_comment_spec(line, i)] == 0x0au8,
        forall|k: int| i <= k < skip_comment_spec(line, i) ==> line[k] != 0x0au8,
    decreases line.len() - i,
{
    if i < line.len() && line[i] != 0x0au8 {
        lemma_skip_comment(line, i + 1);
    }
}

/// Skips the comment starting at `i`; returns the index of the newline
/// that ends it, or the end of the line.
pub fn skip_comment(line: &[u8], i: usize) -> (r: usize)
    ensures
        r == skip_comment_spec(line@, i as int),
{
    if i >= line.len() {
        return line.len();
    }
    let mut j = i;
    while j < line.len() && line[j] != NL
        invariant
            i <= j <= line@.len(),
            skip_comment_spec(line@, i as int) == skip_comment_spec(line@, j as int),
        decreases line@.len() - j,
    {
        j = j + 1;
    }
    j
}


/// A backslash escapes the byte after it: the scan steps over both bytes,
/// and neither double quotes, backticks nor `$( )` nesting change. So an
/// escaped `"` inside a quoted string never ends the string.
pub proof fn lemma_backslash_escapes(st: ScanState, line: Seq<u8>, i: int)
    requires
        0 <= i,
        i + 1 < line.len(),
        line[i] == 0x5cu8,
    ensures
        st.step(line, i).1 == i + 2,
        st.step(line, i).0.in_quote == st.in_quote,
        st.step(line, i).0.in_backtick == st.in_backtick,
        st.step(line, i).0.dollar_paren_depth == st.dollar_paren_depth,
        st.step(line, i).0.word_active,
{
}

} // verus!
