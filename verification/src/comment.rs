//! Block scanning: from inside a compound command, find where it closes.

pub mod depth_delta;

use vstd::prelude::*;
use crate::bytes::{get_or_empty, trim, trim_range};
use crate::scan::heredoc::{heredoc_skip_spec, lemma_heredoc_skip};
use crate::scan::{boundary, boundary_spec, lemma_skip_comment, skip_comment, skip_comment_spec, Boundary, ScanState};
use self::depth_delta::{apply_delta, depth_delta, depth_delta_spec, next_depth};

verus! {

/// The block scan from `i` with scanner state `st`, the current statement
/// starting at `start`, the block `depth` levels deep, and whether the
/// current statement began inside a quote or backtick substitution. At each
/// separator or comment the statement before it is trimmed and its
/// keywords adjust the depth; a comment is skipped to its newline, a
/// here-document body is skipped whole. The scan stops once the depth is 0
/// or it has passed the end of the line. The result: where it stopped,
/// whether the block closed, the final scanner state and statement start.
pub open spec fn scan_spec(
    line: Seq<u8>,
    i: int,
    st: ScanState,
    start: int,
    depth: u32,
    run_quote: bool,
    run_backtick: bool,
) -> (int, bool, ScanState, int)
    decreases line.len() + 1 - i,
{
    if i < 0 || i > line.len() || depth == 0 {
        (i, depth == 0, st, start)
    } else {
        let kind = boundary_spec(line, i, st);
        if kind == Boundary::Char {
            let (st2, i2) = st.step(line, i);
            scan_spec(line, i2, st2, start, depth, run_quote, run_backtick)
        } else {
            let st1 = ScanState { word_active: false, ..st };
            let raw = trim(get_or_empty(line, start, i));
            let d2 = next_depth(depth, depth_delta_spec(raw, run_quote, run_backtick));
            let (i2, start2) = if kind == Boundary::Comment {
                let j = skip_comment_spec(line, i);
                (j, j)
            } else {
                match heredoc_skip_spec(line, start, i) {
                    Some(r) => (r, r + 1),
                    None => (i + 1, i + 1),
                }
            };
            proof {
                lemma_scan_step_advances(line, i, st, start);
            }
            scan_spec(line, i2, st1, start2, d2, st1.in_quote, st1.in_backtick)
        }
    }
}

pub proof fn lemma_scan_step_advances(line: Seq<u8>, i: int, st: ScanState, start: int)
    requires
        0 <= i <= line.len(),
    ensures
        boundary_spec(line, i, st) == Boundary::Char ==> i < line.len() && i < st.step(line, i).1
            <= line.len(),
        boundary_spec(line, i, st) == Boundary::Comment ==> i < skip_comment_spec(line, i)
            <= line.len(),
        heredoc_skip_spec(line, start, i) matches Some(r) ==> i < r <= line.len(),
{
    lemma_heredoc_skip(line, start, i);
    if boundary_spec(line, i, st) == Boundary::Comment {
        lemma_skip_comment(line, i + 1);
    }
}

/// Scans forward from `i` looking for the keyword that closes the block
/// (depth reaching 0). Updates `in_quote` and `start` (where the current
/// statement begins) as side effects. Returns `(end_position,
/// block_was_closed)`.
pub fn scan_block(line: &[u8], i: usize, in_quote: &mut bool, start: &mut usize, depth: u32) -> (r: (
    usize,
    bool,
))
    requires
        line@.len() < usize::MAX,
    ensures
        ({
            let st0 = ScanState { in_quote: *old(in_quote), ..ScanState::initial() };
            let (e, closed, st, s) = scan_spec(
                line@,
                i as int,
                st0,
                *old(start) as int,
                depth,
                st0.in_quote,
                st0.in_backtick,
            );
            &&& r.0 == e
            &&& r.1 == closed
            &&& *final(in_quote) == st.in_quote
            &&& *final(start) == s
        }),
{
    let ghost st0 = ScanState { in_quote: *in_quote, ..ScanState::initial() };
    let ghost goal = scan_spec(line@, i as int, st0, *start as int, depth, st0.in_quote, st0.in_backtick);
    let mut state = ScanState {
        in_quote: *in_quote,
        in_backtick: false,
        dollar_paren_depth: 0,
        word_active: false,
    };
    let mut run_quote = state.in_quote;
    let mut run_backtick = state.in_backtick;
    let mut i = i;
    let mut depth = depth;
    while i <= line.len() && depth > 0
        invariant
            line@.len() < usize::MAX,
            goal == scan_spec(line@, i as int, state, *start as int, depth, run_quote, run_backtick),
        decreases line@.len() + 1 - i,
    {
        proof {
            lemma_scan_step_advances(line@, i as int, state, *start as int);
        }
        let kind = boundary(line, i, &state);
        if kind == Boundary::Char {
            i = state.advance(line, i);
            continue;
        }
        // A separator or comment boundary ends the current word.
        state.word_active = false;
        let (lo, hi) = if *start <= i {
            trim_range(line, *start, i)
        } else {
            (0, 0)
        };
        proof {
            if *start <= i {
                assert(get_or_empty(line@, *start as int, i as int) == line@.subrange(*start as int, i as int));
            } else {
                assert(line@.subrange(0, 0) =~= trim(get_or_empty(line@, *start as int, i as int)));
            }
        }
        let (opens, closes) = depth_delta(&line[lo..hi], run_quote, run_backtick);
        depth = apply_delta(depth, opens, closes);
        if kind == Boundary::Comment {
            i = skip_comment(line, i);
            *start = i;
        } else {
            match crate::scan::heredoc::skip(line, *start, i) {
                Some(resume) => {
                    // A heredoc body is opaque: its lines carry no block keywords.
                    i = resume;
                    *start = i + 1;
                },
                None => {
                    *start = i + 1;
                    i = i + 1;
                },
            }
        }
        run_quote = state.in_quote;
        run_backtick = state.in_backtick;
    }
    *in_quote = state.in_quote;
    (i, depth == 0)
}

/// A block that does not close is scanned to past the end of the line.
pub proof fn lemma_unclosed_block_scans_whole_line(
    line: Seq<u8>,
    i: int,
    st: ScanState,
    start: int,
    depth: u32,
    run_quote: bool,
    run_backtick: bool,
)
    requires
        0 <= i <= line.len() + 1,
    ensures
        ({
            let (e, closed, st2, s) = scan_spec(line, i, st, start, depth, run_quote, run_backtick);
            &&& i <= e <= line.len() + 1
            &&& !closed ==> e == line.len() + 1
        }),
    decreases line.len() + 1 - i,
{
    if !(i > line.len() || depth == 0) {
        lemma_scan_step_advances(line, i, st, start);
        let kind = boundary_spec(line, i, st);
        if kind == Boundary::Char {
            let (st2, i2) = st.step(line, i);
            lemma_unclosed_block_scans_whole_line(line, i2, st2, start, depth, run_quote, run_backtick);
        } else {
            let st1 = ScanState { word_active: false, ..st };
            let raw = trim(get_or_empty(line, start, i));
            let d2 = next_depth(depth, depth_delta_spec(raw, run_quote, run_backtick));
            let (i2, start2) = if kind == Boundary::Comment {
                let j = skip_comment_spec(line, i);
                (j, j)
            } else {
                match heredoc_skip_spec(line, start, i) {
                    Some(r) => (r, r + 1),
                    None => (i + 1, i + 1),
                }
            };
            lemma_unclosed_block_scans_whole_line(line, i2, st1, start2, d2, st1.in_quote, st1.in_backtick);
        }
    }
}

} // verus!
