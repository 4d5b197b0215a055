//! `&&` / `||` boundary scanning for cond lists, skipping heredoc bodies so
//! a multi-line heredoc part stays one part and `&&` / `||` in its body do
//! not split it.

use vstd::prelude::*;
use crate::bytes::{AMP, NL, PIPE, SEMI};
use crate::scan::heredoc::{heredoc_skip_spec, lemma_heredoc_skip, skip};
use crate::scan::ScanState;

verus! {

/// Whether an unquoted `&&` or `||` starts at `i`.
pub open spec fn is_operator_at(line: Seq<u8>, i: int) -> bool {
    0 <= i && i + 1 < line.len() && ((line[i] == 0x26u8 && line[i + 1] == 0x26u8) || (line[i]
        == 0x7cu8 && line[i + 1] == 0x7cu8))
}

/// The scan from `i` to the next `&&` / `||` outside double quotes, with
/// the current statement starting at `run_start`: the operator's first
/// byte (or the length of the line), whether it is `||`, and the scanner
/// state there. An unquoted `;` or newline starts a new statement; at a
/// newline that ends a here-document statement, the body is skipped.
pub open spec fn next_boundary_spec(line: Seq<u8>, i: int, run_start: int, st: ScanState) -> (
    int,
    bool,
    ScanState,
)
    decreases line.len() - i,
{
    if i < 0 || i >= line.len() {
        (line.len() as int, false, st)
    } else {
        let b = line[i];
        if !st.in_quote && is_operator_at(line, i) {
            (i, b == 0x7cu8, st)
        } else if !st.in_quote && b == 0x0au8 && heredoc_skip_spec(line, run_start, i) is Some {
            let r = heredoc_skip_spec(line, run_start, i)->0;
            proof {
                lemma_heredoc_skip(line, run_start, i);
            }
            next_boundary_spec(line, r, r, st)
        } else if !st.in_quote && (b == 0x0au8 || b == 0x3bu8) {
            next_boundary_spec(line, i + 1, i + 1, st)
        } else {
            let (st2, i2) = st.step(line, i);
            next_boundary_spec(line, i2, run_start, st2)
        }
    }
}

pub proof fn lemma_next_boundary(line: Seq<u8>, i: int, run_start: int, st: ScanState)
    requires
        0 <= i,
    ensures
        ({
            let (p, is_or, st2) = next_boundary_spec(line, i, run_start, st);
            &&& (i <= line.len() ==> i <= p)
            &&& p <= line.len()
            &&& p < line.len() ==> is_operator_at(line, p)
            &&& is_or ==> p < line.len() && line[p] == 0x7cu8
            &&& p < line.len() && line[p] == 0x7cu8 ==> is_or
        }),
    decreases line.len() - i,
{
    if i < line.len() {
        let b = line[i];
        if !st.in_quote && is_operator_at(line, i) {
        } else if !st.in_quote && b == 0x0au8 && heredoc_skip_spec(line, run_start, i) is Some {
            let r = heredoc_skip_spec(line, run_start, i)->0;
            lemma_heredoc_skip(line, run_start, i);
            lemma_next_boundary(line, r, r, st);
        } else if !st.in_quote && (b == 0x0au8 || b == 0x3bu8) {
            lemma_next_boundary(line, i + 1, i + 1, st);
        } else {
            let (st2, i2) = st.step(line, i);
            lemma_next_boundary(line, i2, run_start, st2);
        }
    }
}

/// Scans from `i` to the next unquoted `&&` / `||` (or end of line).
/// Heredoc command lines are skipped whole along with their bodies.
/// Returns the operator's first byte (or `line.len()`) and whether it is
/// `||`.
pub fn next_boundary(line: &[u8], i: usize, state: &mut ScanState) -> (r: (usize, bool))
    ensures
        ({
            let (p, is_or, st) = next_boundary_spec(line@, i as int, i as int, *old(state));
            &&& r.0 == p
            &&& r.1 == is_or
            &&& *final(state) == st
        }),
{
    let ghost goal = next_boundary_spec(line@, i as int, i as int, *state);
    let ghost i0 = i as int;
    let ghost st_in = *state;
    let mut j = i;
    let mut run_start = j;
    while j < line.len()
        invariant
            st_in == *old(state),
            i0 == i as int,
            goal == next_boundary_spec(line@, i0, i0, st_in),
            goal == next_boundary_spec(line@, j as int, run_start as int, *state),
        decreases line@.len() - j,
    {
        let b = line[j];
        if !state.in_quote {
            if (b == AMP && j + 1 < line.len() && line[j + 1] == AMP) || (b == PIPE && j + 1
                < line.len() && line[j + 1] == PIPE) {
                assert(is_operator_at(line@, j as int));
                assert(next_boundary_spec(line@, j as int, run_start as int, *state) == (
                    j as int,
                    b == PIPE,
                    *state,
                ));
                return (j, b == PIPE);
            }
            if b == NL {
                proof {
                    lemma_heredoc_skip(line@, run_start as int, j as int);
                }
                match skip(line, run_start, j) {
                    Some(resume) => {
                        j = resume;
                        run_start = j;
                        continue;
                    },
                    None => {},
                }
            }
            if b == NL || b == SEMI {
                j = j + 1;
                run_start = j;
                continue;
            }
        }
        j = state.advance(line, j);
    }
    (line.len(), false)
}

} // verus!
