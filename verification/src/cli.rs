//! The shell's own command line: `--dirfd N`, `--fd N` and positional
//! arguments, and the script read from `--fd`.

use vstd::prelude::*;
use vstd::string::StringSliceAdditionalSpecFns;
use crate::bytes::{arg_views, eq_bytes};
use crate::cmd_subst::{concat, lemma_concat_prefix, Capture};
use crate::error::{AppError, CliFlag};
use crate::num::{parse_i64, parse_i64_spec};

verus! {

/// One word of the command line, or a flag with its value.
#[derive(Debug, Clone, PartialEq, Eq)]
pub enum CliItem {
    /// `--dirfd N`: the directory fd, still to be imported.
    Dirfd(Vec<u8>),
    /// `--fd N`: the script fd, still to be imported.
    Fd(Vec<u8>),
    Positional(Vec<u8>),
}

pub enum CliItemView {
    Dirfd(Seq<u8>),
    Fd(Seq<u8>),
    Positional(Seq<u8>),
}

impl View for CliItem {
    type V = CliItemView;

    open spec fn view(&self) -> CliItemView {
        match self {
            CliItem::Dirfd(v) => CliItemView::Dirfd(v@),
            CliItem::Fd(v) => CliItemView::Fd(v@),
            CliItem::Positional(v) => CliItemView::Positional(v@),
        }
    }
}

/// The command line split into items, in order. `missing` names a flag
/// that ended the line without its value: the line is refused once the
/// items before it have been taken.
#[derive(Debug)]
pub struct CliPlan {
    pub items: Vec<CliItem>,
    pub missing: Option<CliFlag>,
}

/// The items from word `i` on, and the flag left without a value, if any.
pub open spec fn cli_from(args: Seq<Seq<u8>>, i: int) -> (Seq<CliItemView>, Option<CliFlag>)
    decreases args.len() - i,
{
    if i < 0 || i >= args.len() {
        (Seq::empty(), None)
    } else if args[i] == "--dirfd".spec_bytes() {
        if i + 1 < args.len() {
            let (rest, m) = cli_from(args, i + 2);
            (seq![CliItemView::Dirfd(args[i + 1])] + rest, m)
        } else {
            (Seq::empty(), Some(CliFlag::Dirfd))
        }
    } else if args[i] == "--fd".spec_bytes() {
        if i + 1 < args.len() {
            let (rest, m) = cli_from(args, i + 2);
            (seq![CliItemView::Fd(args[i + 1])] + rest, m)
        } else {
            (Seq::empty(), Some(CliFlag::Fd))
        }
    } else {
        let (rest, m) = cli_from(args, i + 1);
        (seq![CliItemView::Positional(args[i])] + rest, m)
    }
}

/// The plain contents of the items.
pub open spec fn item_views(items: Seq<CliItem>) -> Seq<CliItemView> {
    items.map_values(|it: CliItem| it@)
}

/// Split the command line (without the program name) into its items.
pub fn parse_cli_args(all_args: &[Vec<u8>]) -> (r: CliPlan)
    ensures
        (item_views(r.items@), r.missing) == cli_from(arg_views(all_args@), 0),
{
    let ghost av = arg_views(all_args@);
    let mut items: Vec<CliItem> = Vec::new();
    let mut i: usize = 0;
    while i < all_args.len()
        invariant
            i <= all_args.len(),
            av == arg_views(all_args@),
            ({
                let (rest, m) = cli_from(av, i as int);
                cli_from(av, 0) == (item_views(items@) + rest, m)
            }),
        decreases all_args.len() - i,
    {
        let arg = all_args[i].as_slice();
        assert(av[i as int] == arg@);
        if eq_bytes(arg, "--dirfd".as_bytes()) {
            if i + 1 < all_args.len() {
                assert(av[i + 1] == all_args@[i + 1]@);
                let ghost before = items@;
                items.push(CliItem::Dirfd(all_args[i + 1].clone()));
                proof {
                    let (rest, m) = cli_from(av, i + 2);
                    assert(item_views(items@) =~= item_views(before).push(CliItemView::Dirfd(av[i + 1])));
                    assert(item_views(before) + (seq![CliItemView::Dirfd(av[i + 1])] + rest) =~= item_views(items@) + rest);
                }
                i = i + 2;
            } else {
                proof {
                    assert(item_views(items@) + Seq::empty() =~= item_views(items@));
                }
                return CliPlan { items, missing: Some(CliFlag::Dirfd) };
            }
        } else if eq_bytes(arg, "--fd".as_bytes()) {
            if i + 1 < all_args.len() {
                assert(av[i + 1] == all_args@[i + 1]@);
                let ghost before = items@;
                items.push(CliItem::Fd(all_args[i + 1].clone()));
                proof {
                    let (rest, m) = cli_from(av, i + 2);
                    assert(item_views(items@) =~= item_views(before).push(CliItemView::Fd(av[i + 1])));
                    assert(item_views(before) + (seq![CliItemView::Fd(av[i + 1])] + rest) =~= item_views(items@) + rest);
                }
                i = i + 2;
            } else {
                proof {
                    assert(item_views(items@) + Seq::empty() =~= item_views(items@));
                }
                return CliPlan { items, missing: Some(CliFlag::Fd) };
            }
        } else {
            let ghost before = items@;
            items.push(CliItem::Positional(all_args[i].clone()));
            proof {
                let (rest, m) = cli_from(av, i + 1);
                assert(item_views(items@) =~= item_views(before).push(CliItemView::Positional(av[i as int])));
                assert(item_views(before) + (seq![CliItemView::Positional(av[i as int])] + rest) =~= item_views(items@) + rest);
            }
            i = i + 1;
        }
    }
    proof {
        assert(item_views(items@) + Seq::empty() =~= item_views(items@));
    }
    CliPlan { items, missing: None }
}

/// Collect a script read in `chunks`, refusing one larger than `limit`.
pub fn load_script(chunks: &[Vec<u8>], limit: usize) -> (r: Result<Vec<u8>, AppError>)
    ensures
        concat(arg_views(chunks@)).len() > limit ==> r == Err::<Vec<u8>, AppError>(
            AppError::ScriptTooLarge,
        ),
        concat(arg_views(chunks@)).len() <= limit ==> (r matches Ok(v) && v@ == concat(
            arg_views(chunks@),
        )),
{
    let ghost cs = arg_views(chunks@);
    let mut cap = Capture::new(limit);
    let mut i: usize = 0;
    while i < chunks.len()
        invariant
            i <= chunks.len(),
            cs == arg_views(chunks@),
            cap.wf(),
            cap.limit() == limit,
            cap.bytes() == concat(cs.take(i as int)),
        decreases chunks.len() - i,
    {
        assert(cs.take(i as int + 1).drop_last() =~= cs.take(i as int));
        assert(cs[i as int] == chunks@[i as int]@);
        if cap.push_chunk(chunks[i].as_slice()).is_err() {
            proof {
                lemma_concat_prefix(cs, i as int + 1);
            }
            return Err(AppError::ScriptTooLarge);
        }
        i = i + 1;
    }
    assert(cs.take(chunks.len() as int) =~= cs);
    Ok(cap.into_bytes())
}


/// A file descriptor number as a word gives it: a decimal numeral (an
/// optional sign, then digits) whose value is a non-negative `i32`.
pub open spec fn fd_number_spec(text: Seq<u8>) -> Option<i32> {
    match parse_i64_spec(text) {
        Some(n) => if 0 <= n <= i32::MAX {
            Some(n as i32)
        } else {
            None
        },
        None => None,
    }
}

/// Parse a file descriptor number.
pub fn fd_number(text: &[u8]) -> (r: Option<i32>)
    ensures
        r == fd_number_spec(text@),
{
    match parse_i64(text) {
        Some(n) => if 0 <= n && n <= 0x7fff_ffff {
            Some(n as i32)
        } else {
            None
        },
        None => None,
    }
}

} // verus!
