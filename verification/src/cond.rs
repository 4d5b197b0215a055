//! Conditional lists `a && b || c`: which parts run, given how the parts
//! that ran ended. Running a part belongs to the caller; this module
//! decides the next part to run, or that the list is done.

pub mod boundary;

use vstd::prelude::*;
use crate::bytes::{get_or_empty, lemma_lead_len, lemma_trim_empty, trim, trim_range};
use crate::scan::ScanState;
use self::boundary::{is_operator_at, lemma_next_boundary, next_boundary, next_boundary_spec};

verus! {

/// After a failing `&&` part, the scan to the next `||` (or end of line)
/// from `pos`: everything up to it is skipped without running.
pub open spec fn skip_to_or_spec(line: Seq<u8>, pos: int, st: ScanState) -> (int, ScanState)
    decreases line.len() + 2 - pos,
{
    proof {
        if 0 <= pos {
            lemma_next_boundary(line, pos, pos, st);
        }
    }
    let (p, is_or, st2) = next_boundary_spec(line, pos, pos, st);
    if pos < 0 || pos > line.len() || is_or || p >= line.len() {
        (p, st2)
    } else {
        skip_to_or_spec(line, p + 2, st2)
    }
}

/// After a failing `&&` part, the next `||` (or end of line): everything up
/// to it is skipped without running.
pub fn skip_to_or(line: &[u8], from: usize, state: &mut ScanState) -> (r: usize)
    requires
        from <= line@.len(),
    ensures
        (r as int, *final(state)) == skip_to_or_spec(line@, from as int, *old(state)),
        r <= line@.len(),
        r < line@.len() ==> is_operator_at(line@, r as int) && line@[r as int] == 0x7cu8,
{
    let ghost goal = skip_to_or_spec(line@, from as int, *state);
    let mut pos = from;
    loop
        invariant
            pos <= line@.len(),
            goal == skip_to_or_spec(line@, from as int, *old(state)),
            goal == skip_to_or_spec(line@, pos as int, *state),
        decreases line@.len() + 2 - pos,
    {
        proof {
            lemma_next_boundary(line@, pos as int, pos as int, *state);
        }
        let (p, is_or) = next_boundary(line, pos, state);
        if is_or || p == line.len() {
            return p;
        }
        pos = p + 2;
    }
}

/// Whether `line[start..i]` holds nothing but whitespace.
pub fn is_empty_part(line: &[u8], start: usize, i: usize) -> (r: bool)
    ensures
        r == (trim(get_or_empty(line@, start as int, i as int)).len() == 0),
{
    if start <= i && i <= line.len() {
        let (lo, hi) = trim_range(line, start, i);
        lo == hi
    } else {
        proof {
            lemma_trim_empty(Seq::<u8>::empty());
        }
        true
    }
}

/// Where a cond list stands: the start of the next part, the scanner state,
/// the part that ran last with the operator after it, and whether the list
/// is done.
#[derive(Debug, Clone, Copy)]
pub struct CondCursor {
    pub start: usize,
    pub state: ScanState,
    /// The operator position after the part that ran last and whether it is
    /// `||`, until the part's status has been handed back.
    pub pending: Option<(usize, bool)>,
    pub finished: bool,
}

/// What to do next in a cond list.
#[derive(Debug, Clone, Copy, PartialEq, Eq, Structural)]
pub enum CondStep {
    /// Run the statement `line[start..end]` (leading whitespace dropped,
    /// trailing bytes kept) and report whether it exited 0.
    Run { start: usize, end: usize },
    /// The list is done.
    Finish,
}

/// The part `line[start..i]` as it is run: without its leading whitespace.
pub open spec fn part_start(line: Seq<u8>, start: int, i: int) -> int {
    start + crate::bytes::lead_len(line.subrange(start, i))
}

/// The first part to run at or after `start`: parts that hold only
/// whitespace are passed over; the last part (at the end of the line) runs
/// only when it holds something.
pub open spec fn next_part_spec(line: Seq<u8>, start: int, st: ScanState) -> (CondCursor, CondStep)
    decreases line.len() + 2 - start,
{
    proof {
        if 0 <= start {
            lemma_next_boundary(line, start, start, st);
        }
    }
    let (i, is_or, st2) = next_boundary_spec(line, start, start, st);
    let empty = trim(get_or_empty(line, start, i)).len() == 0;
    if start < 0 || start > line.len() || i >= line.len() {
        let done = CondCursor { start: start as usize, state: st2, pending: None, finished: true };
        if empty {
            (done, CondStep::Finish)
        } else {
            (done, CondStep::Run { start: part_start(line, start, i) as usize, end: i as usize })
        }
    } else if !empty {
        (
            CondCursor { start: start as usize, state: st2, pending: Some((i as usize, is_or)), finished: false },
            CondStep::Run { start: part_start(line, start, i) as usize, end: i as usize },
        )
    } else {
        next_part_spec(line, i + 2, st2)
    }
}

/// The step after the last run part ended with status `ok` (exit code 0):
/// after `||` with success, or at the end, the list is done; after `&&` with
/// failure, everything up to the next `||` is skipped; otherwise the next
/// part runs.
pub open spec fn cond_next_spec(line: Seq<u8>, cur: CondCursor, ok: bool) -> (CondCursor, CondStep) {
    if cur.finished {
        (cur, CondStep::Finish)
    } else {
        match cur.pending {
            None => next_part_spec(line, cur.start as int, cur.state),
            Some((i, is_or)) => if is_or && ok {
                (CondCursor { pending: None, finished: true, ..cur }, CondStep::Finish)
            } else if !is_or && !ok {
                let (p, st2) = skip_to_or_spec(line, i + 2, cur.state);
                next_part_spec(line, p, st2)
            } else {
                next_part_spec(line, i + 2, cur.state)
            },
        }
    }
}

/// Whether a cursor belongs to a scan of `line`: every operator position it
/// remembers is a real `&&` / `||` of the line.
pub open spec fn cursor_wf(line: Seq<u8>, cur: CondCursor) -> bool {
    &&& cur.start <= line.len()
    &&& cur.pending matches Some((i, is_or)) ==> {
        &&& is_operator_at(line, i as int)
        &&& is_or == (line[i as int] == 0x7cu8)
    }
}

impl CondCursor {
    /// A cursor at the start of the list.
    pub fn new() -> (c: CondCursor)
        ensures
            c == (CondCursor {
                start: 0,
                state: ScanState::initial(),
                pending: None,
                finished: false,
            }),
    {
        CondCursor { start: 0, state: ScanState::new(), pending: None, finished: false }
    }
}

fn next_part(line: &[u8], start_in: usize, state_in: ScanState) -> (r: (CondCursor, CondStep))
    requires
        start_in <= line@.len(),
    ensures
        r == next_part_spec(line@, start_in as int, state_in),
        cursor_wf(line@, r.0),
        r.1 matches CondStep::Run { start: s, end: e } ==> s <= e <= line@.len(),
{
    let ghost goal = next_part_spec(line@, start_in as int, state_in);
    let ghost start0 = start_in as int;
    let ghost state0 = state_in;
    let mut start = start_in;
    let mut state = state_in;
    loop
        invariant
            start <= line@.len(),
            goal == next_part_spec(line@, start0, state0),
            start0 == start_in as int,
            state0 == state_in,
            goal == next_part_spec(line@, start as int, state),
        decreases line@.len() + 2 - start,
    {
        let ghost st0 = state;
        let ghost s0 = start as int;
        proof {
            lemma_next_boundary(line@, start as int, start as int, state);
        }
        let (i, is_or) = next_boundary(line, start, &mut state);
        let empty = is_empty_part(line, start, i);
        assert(next_boundary_spec(line@, start as int, start as int, st0) == (i as int, is_or, state));
        if i >= line.len() {
            let done = CondCursor { start, state, pending: None, finished: true };
            if empty {
                return (done, CondStep::Finish);
            }
            let (lo, hi) = trim_range(line, start, i);
            assert(get_or_empty(line@, start as int, i as int) == line@.subrange(start as int, i as int));
            return (done, CondStep::Run { start: lo, end: i });
        }
        if !empty {
            let (lo, hi) = trim_range(line, start, i);
            assert(get_or_empty(line@, start as int, i as int) == line@.subrange(start as int, i as int));
            return (
                CondCursor { start, state, pending: Some((i, is_or)), finished: false },
                CondStep::Run { start: lo, end: i },
            );
        }
        start = i + 2;
    }
}

/// The next step of the cond list `line`, given whether the part that ran
/// last exited with status 0 (ignored before the first part).
pub fn cond_next(line: &[u8], cur: &mut CondCursor, ok: bool) -> (r: CondStep)
    requires
        cursor_wf(line@, *old(cur)),
    ensures
        (*final(cur), r) == cond_next_spec(line@, *old(cur), ok),
        cursor_wf(line@, *final(cur)),
        r matches CondStep::Run { start: s, end: e } ==> s <= e <= line@.len(),
{
    let n = line.len();
    if cur.finished {
        return CondStep::Finish;
    }
    let (c, step) = match cur.pending {
        None => next_part(line, cur.start, cur.state),
        Some((i, is_or)) => {
            if is_or && ok {
                cur.pending = None;
                cur.finished = true;
                return CondStep::Finish;
            } else if !is_or && !ok {
                let mut st = cur.state;
                let p = skip_to_or(line, i + 2, &mut st);
                next_part(line, p, st)
            } else {
                next_part(line, i + 2, cur.state)
            }
        },
    };
    *cur = c;
    step
}

/// A list that is done stays done, whatever is reported.
pub proof fn lemma_finished_stays_finished(line: Seq<u8>, cur: CondCursor, ok: bool)
    requires
        cur.finished,
    ensures
        cond_next_spec(line, cur, ok) == (cur, CondStep::Finish),
{
}

/// A part followed by `||` that succeeded ends the list: nothing after it
/// runs.
pub proof fn lemma_or_success_ends_list(line: Seq<u8>, cur: CondCursor, i: usize, ok2: bool)
    requires
        !cur.finished,
        cur.pending == Some((i, true)),
    ensures
        cond_next_spec(line, cur, true).1 == CondStep::Finish,
        cond_next_spec(line, cur, true).0.finished,
        cond_next_spec(line, cond_next_spec(line, cur, true).0, ok2).1 == CondStep::Finish,
{
}

/// The scan that skips after a failed `&&` part stops only at an `||` or
/// at the end of the line.
pub proof fn lemma_skip_lands_on_or(line: Seq<u8>, pos: int, st: ScanState)
    requires
        0 <= pos,
    ensures
        ({
            let (p, _) = skip_to_or_spec(line, pos, st);
            &&& p <= line.len()
            &&& p < line.len() ==> is_operator_at(line, p) && line[p] == 0x7cu8
        }),
    decreases line.len() + 2 - pos,
{
    lemma_next_boundary(line, pos, pos, st);
    let (p, is_or, st2) = next_boundary_spec(line, pos, pos, st);
    if !(pos > line.len() || is_or || p >= line.len()) {
        lemma_skip_lands_on_or(line, p + 2, st2);
    }
}

/// A part followed by `&&` that failed makes the list resume after the next
/// `||` (or end), skipping everything in between.
pub proof fn lemma_and_failure_skips_to_or(line: Seq<u8>, cur: CondCursor, i: usize)
    requires
        !cur.finished,
        cur.pending == Some((i, false)),
    ensures
        ({
            let (p, st2) = skip_to_or_spec(line, i + 2, cur.state);
            &&& cond_next_spec(line, cur, false) == next_part_spec(line, p, st2)
            &&& p <= line.len()
            &&& p < line.len() ==> is_operator_at(line, p) && line[p] == 0x7cu8
        }),
{
    lemma_skip_lands_on_or(line, i + 2, cur.state);
}

} // verus!
