//! `explain NAME` / `explain N`: the provenance of a variable or positional
//! parameter. Read-only; unset names report `unset` with exit 0.

use vstd::prelude::*;
use vstd::string::StringSliceAdditionalSpecFns;
use crate::bytes::{arg_views, push_all, push_str, vres};
use crate::error::{Arg, BuiltinError};
use crate::num::{all_digits, decimal_value, is_digit, push_radix, push_signed_decimal, radix_digits, signed_decimal};

verus! {

/// Where a value came from.
#[derive(Debug, Clone, PartialEq, Eq)]
pub enum Origin {
    /// The command line argument at this index.
    CliArgument(usize),
    /// The environment variable of this name.
    EnvVar(Vec<u8>),
    /// The file at this path.
    File(Vec<u8>),
    Stdin,
    CommandOutput,
    /// A `read` from this fd.
    Read(i32),
    /// A default the shell set.
    Shell,
    /// Captured under this tag.
    Captured(Vec<u8>),
}

/// Where in the script a value was set.
#[derive(Debug, Clone, Copy, PartialEq, Eq, Structural)]
pub struct Position {
    pub line: usize,
    pub column: usize,
}

/// The provenance of a value.
#[derive(Debug, Clone, PartialEq, Eq)]
pub struct Trace {
    pub origin: Origin,
    pub set_at: Option<Position>,
}

/// The decimal digits of `n`.
pub open spec fn dec(n: nat) -> Seq<u8> {
    radix_digits(n, 10, false)
}

/// How `explain` names an origin.
pub open spec fn origin_phrase_spec(o: Origin) -> Seq<u8> {
    match o {
        Origin::CliArgument(i) => "argv[".spec_bytes() + dec(i as nat) + "]".spec_bytes(),
        Origin::EnvVar(n) => "environment variable ".spec_bytes() + n@,
        Origin::File(p) => "file ".spec_bytes() + p@,
        Origin::Stdin => "stdin".spec_bytes(),
        Origin::CommandOutput => "command output".spec_bytes(),
        Origin::Read(n) => "fd ".spec_bytes() + signed_decimal(n as int),
        Origin::Shell => "shell default".spec_bytes(),
        Origin::Captured(n) => "tag ".spec_bytes() + n@,
    }
}

/// Appends the phrase for `origin` to `out`.
pub fn push_origin_phrase(out: &mut Vec<u8>, origin: &Origin)
    ensures
        final(out)@ == old(out)@ + origin_phrase_spec(*origin),
{
    match origin {
        Origin::CliArgument(i) => {
            push_str(out, "argv[");
            push_radix(out, *i as u64, 10, false);
            push_str(out, "]");
        },
        Origin::EnvVar(n) => {
            push_str(out, "environment variable ");
            push_all(out, n.as_slice());
        },
        Origin::File(p) => {
            push_str(out, "file ");
            push_all(out, p.as_slice());
        },
        Origin::Stdin => push_str(out, "stdin"),
        Origin::CommandOutput => push_str(out, "command output"),
        Origin::Read(n) => {
            push_str(out, "fd ");
            push_signed_decimal(out, *n as i64);
        },
        Origin::Shell => push_str(out, "shell default"),
        Origin::Captured(n) => {
            push_str(out, "tag ");
            push_all(out, n.as_slice());
        },
    }
    assert(out@ =~= old(out)@ + origin_phrase_spec(*origin));
}

/// The phrase for `origin`.
pub fn origin_phrase(origin: &Origin) -> (r: Vec<u8>)
    ensures
        r@ == origin_phrase_spec(*origin),
{
    let mut out: Vec<u8> = Vec::new();
    push_origin_phrase(&mut out, origin);
    out
}

/// ` (set on line L, column C, from ORIGIN)` or ` (from ORIGIN)`.
pub open spec fn provenance_spec(t: Trace) -> Seq<u8> {
    match t.set_at {
        Some(p) => " (set on line ".spec_bytes() + dec(p.line as nat) + ", column ".spec_bytes() + dec(
            p.column as nat,
        ) + ", from ".spec_bytes() + origin_phrase_spec(t.origin) + ")".spec_bytes(),
        None => " (from ".spec_bytes() + origin_phrase_spec(t.origin) + ")".spec_bytes(),
    }
}

fn push_provenance(out: &mut Vec<u8>, t: &Trace)
    ensures
        final(out)@ == old(out)@ + provenance_spec(*t),
{
    match t.set_at {
        Some(p) => {
            push_str(out, " (set on line ");
            push_radix(out, p.line as u64, 10, false);
            push_str(out, ", column ");
            push_radix(out, p.column as u64, 10, false);
            push_str(out, ", from ");
        },
        None => {
            push_str(out, " (from ");
        },
    }
    push_origin_phrase(out, &t.origin);
    push_str(out, ")");
    assert(out@ =~= old(out)@ + provenance_spec(*t));
}

/// What `explain` prints for `display`: its value and provenance, or that
/// it is unset.
pub open spec fn explain_line_spec(display: Seq<u8>, traced: Option<(Seq<u8>, Trace)>) -> Seq<u8> {
    match traced {
        Some((value, t)) => display + "=\"".spec_bytes() + value + "\"".spec_bytes() + provenance_spec(t)
            + "\n".spec_bytes(),
        None => display + " is unset\n".spec_bytes(),
    }
}

/// The line `explain` prints.
pub fn explain_line(display: &[u8], traced: Option<(&[u8], &Trace)>) -> (r: Vec<u8>)
    ensures
        r@ == explain_line_spec(
            display@,
            match traced {
                Some((v, t)) => Some((v@, *t)),
                None => None,
            },
        ),
{
    let mut out: Vec<u8> = Vec::new();
    push_all(&mut out, display);
    match traced {
        Some((value, t)) => {
            push_str(&mut out, "=\"");
            push_all(&mut out, value);
            push_str(&mut out, "\"");
            push_provenance(&mut out, t);
            push_str(&mut out, "\n");
        },
        None => push_str(&mut out, " is unset\n"),
    }
    out
}

/// What `fdexplain` prints for `display`: its provenance, or that it is
/// unset.
pub open spec fn fd_explain_line_spec(display: Seq<u8>, trace: Option<Trace>) -> Seq<u8> {
    match trace {
        Some(t) => display + provenance_spec(t) + "\n".spec_bytes(),
        None => display + " is unset\n".spec_bytes(),
    }
}

/// The line `fdexplain` prints.
pub fn fd_explain_line(display: &[u8], trace: Option<&Trace>) -> (r: Vec<u8>)
    ensures
        r@ == fd_explain_line_spec(
            display@,
            match trace {
                Some(t) => Some(*t),
                None => None,
            },
        ),
{
    let mut out: Vec<u8> = Vec::new();
    push_all(&mut out, display);
    match trace {
        Some(t) => {
            push_provenance(&mut out, t);
            push_str(&mut out, "\n");
        },
        None => push_str(&mut out, " is unset\n"),
    }
    out
}

/// A non-empty run of ASCII digits.
pub fn is_all_digits(bytes: &[u8]) -> (r: bool)
    ensures
        r == (bytes@.len() > 0 && all_digits(bytes@)),
{
    if bytes.len() == 0 {
        return false;
    }
    let mut i: usize = 0;
    while i < bytes.len()
        invariant
            i <= bytes.len(),
            forall|j: int| 0 <= j < i ==> is_digit(#[trigger] bytes@[j]),
        decreases bytes.len() - i,
    {
        if bytes[i] < 0x30 || bytes[i] > 0x39 {
            return false;
        }
        i = i + 1;
    }
    true
}

/// The value of a run of digits, unless it overflows `usize`.
pub open spec fn parse_index_spec(bytes: Seq<u8>) -> Option<usize> {
    if decimal_value(bytes) <= usize::MAX {
        Some(decimal_value(bytes) as usize)
    } else {
        None
    }
}

/// Parse a positional index, refusing one that overflows `usize`.
pub fn parse_index(bytes: &[u8]) -> (r: Option<usize>)
    requires
        all_digits(bytes@),
    ensures
        r == parse_index_spec(bytes@),
{
    let mut acc: usize = 0;
    let mut i: usize = 0;
    while i < bytes.len()
        invariant
            i <= bytes.len(),
            all_digits(bytes@),
            acc as int == decimal_value(bytes@.take(i as int)),
        decreases bytes.len() - i,
    {
        let ghost prefix = bytes@.take(i as int + 1);
        assert(prefix.drop_last() =~= bytes@.take(i as int));
        assert(is_digit(bytes@[i as int]));
        assert(prefix.last() == bytes@[i as int]);
        assert(forall|j: int| 0 <= j < bytes@.len() ==> #[trigger] bytes@[j] >= 0x30u8) by {
            assert forall|j: int| 0 <= j < bytes@.len() implies #[trigger] bytes@[j] >= 0x30u8 by {
                assert(is_digit(bytes@[j]));
            }
        }
        let d = (bytes[i] - 0x30) as usize;
        assert(decimal_value(prefix) == acc * 10 + d);
        match acc.checked_mul(10) {
            Some(a) => match a.checked_add(d) {
                Some(b) => {
                    acc = b;
                },
                None => {
                    proof {
                        crate::num::lemma_decimal_value_prefix(bytes@, i as int + 1);
                    }
                    return None;
                },
            },
            None => {
                proof {
                    crate::num::lemma_decimal_value_prefix(bytes@, i as int + 1);
                    crate::num::lemma_decimal_value_nonneg(bytes@.take(i as int));
                }
                return None;
            },
        }
        i = i + 1;
    }
    assert(bytes@.take(bytes.len() as int) =~= bytes@);
    Some(acc)
}

/// What `explain` looks up.
#[derive(Debug, Clone, PartialEq, Eq)]
pub enum ExplainTarget {
    /// The positional parameter at this index, shown as `$N`.
    Positional { index: usize, display: Vec<u8> },
    /// The string variable of this name.
    Named { name: Vec<u8> },
}

pub enum ExplainView {
    Positional { index: usize, display: Seq<u8> },
    Named { name: Seq<u8> },
}

/// The plain contents of an `explain` target.
pub open spec fn explain_view(r: Result<ExplainTarget, BuiltinError>) -> Result<ExplainView, BuiltinError> {
    match r {
        Ok(ExplainTarget::Positional { index, display }) => Ok(
            ExplainView::Positional { index, display: display@ },
        ),
        Ok(ExplainTarget::Named { name }) => Ok(ExplainView::Named { name: name@ }),
        Err(e) => Err(e),
    }
}

/// `explain` takes one word as written: all digits is a positional index
/// (`$N`), anything else a variable name.
pub open spec fn explain_target_spec(args: Seq<Seq<u8>>) -> Result<ExplainView, BuiltinError> {
    if args.len() > 1 {
        Err(BuiltinError::InvalidArgument(Arg::Name))
    } else if args.len() == 0 {
        Err(BuiltinError::MissingArgument(Arg::VarOrIndex))
    } else if args[0].len() > 0 && all_digits(args[0]) {
        match parse_index_spec(args[0]) {
            Some(i) => Ok(
                ExplainView::Positional { index: i, display: "$".spec_bytes() + dec(i as nat) },
            ),
            None => Err(BuiltinError::InvalidArgument(Arg::Index)),
        }
    } else {
        Ok(ExplainView::Named { name: args[0] })
    }
}

/// What `explain` looks up.
pub fn explain_target(args: &[Vec<u8>]) -> (r: Result<ExplainTarget, BuiltinError>)
    ensures
        explain_view(r) == explain_target_spec(arg_views(args@)),
{
    if args.len() > 1 {
        return Err(BuiltinError::InvalidArgument(Arg::Name));
    }
    if args.len() == 0 {
        return Err(BuiltinError::MissingArgument(Arg::VarOrIndex));
    }
    let name = args[0].as_slice();
    assert(arg_views(args@)[0] == name@);
    if is_all_digits(name) {
        match parse_index(name) {
            Some(index) => {
                let mut display: Vec<u8> = Vec::new();
                push_str(&mut display, "$");
                push_radix(&mut display, index as u64, 10, false);
                Ok(ExplainTarget::Positional { index, display })
            },
            None => Err(BuiltinError::InvalidArgument(Arg::Index)),
        }
    } else {
        Ok(ExplainTarget::Named { name: args[0].clone() })
    }
}

/// `fdexplain` takes one word as written, `%NAME` or `NAME`: the display is
/// the word as given, the variable its name without `%`.
pub open spec fn fdexplain_target_spec(args: Seq<Seq<u8>>) -> Result<(Seq<u8>, Seq<u8>), BuiltinError> {
    if args.len() > 1 {
        Err(BuiltinError::InvalidArgument(Arg::Name))
    } else if args.len() == 0 {
        Err(BuiltinError::MissingArgument(Arg::FdVar))
    } else if args[0].len() > 0 && args[0][0] == 0x25u8 {
        Ok((args[0], args[0].drop_first()))
    } else {
        Ok((args[0], args[0]))
    }
}

/// What `fdexplain` shows and looks up.
pub fn fdexplain_target(args: &[Vec<u8>]) -> (r: Result<(Vec<u8>, Vec<u8>), BuiltinError>)
    ensures
        match r {
            Ok((d, n)) => fdexplain_target_spec(arg_views(args@)) == Ok::<
                (Seq<u8>, Seq<u8>),
                BuiltinError,
            >((d@, n@)),
            Err(e) => fdexplain_target_spec(arg_views(args@)) == Err::<
                (Seq<u8>, Seq<u8>),
                BuiltinError,
            >(e),
        },
{
    if args.len() > 1 {
        return Err(BuiltinError::InvalidArgument(Arg::Name));
    }
    if args.len() == 0 {
        return Err(BuiltinError::MissingArgument(Arg::FdVar));
    }
    let raw = args[0].as_slice();
    assert(arg_views(args@)[0] == raw@);
    let name = match crate::bytes::strip_byte_prefix(raw, 0x25) {
        Some(n) => n,
        None => args[0].clone(),
    };
    (Ok((args[0].clone(), name)))
}

} // verus!
