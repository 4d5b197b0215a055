//! `printf FMT [ARG...]` — format-string output.
//!
//! Bash-compatible subset: `%s %d %i %u %o %x %X %c %%` plus backslash
//! escapes in the format string. Width, precision, flags and `%b` are
//! unsupported (printed as-is). Numeric arguments are plain decimal
//! integers (no `0x`, no surrounding whitespace).

pub mod conv;
pub mod escapes;

use vstd::prelude::*;
use crate::bytes::{arg_views, push_all, BACKSLASH, NL, PERCENT};
use crate::error::BuiltinError;
use self::conv::{apply_conv, conv_spec, is_conv, is_conv_spec};
use self::escapes::{emit_escape, escape_spec, lemma_escape_advances};

verus! {

/// The piece of the format string at `i`: the bytes it prints literally,
/// the conversion letter when it is a conversion, and the index after it.
/// `%%` prints `%`; a trailing `%` prints itself; `%` before an unknown
/// letter prints both as-is.
pub open spec fn piece(fmt: Seq<u8>, i: int) -> (Seq<u8>, Option<u8>, int) {
    let b = fmt[i];
    if b != 0x25u8 {
        if b == 0x5cu8 {
            let (o, j) = escape_spec(fmt, i);
            (o, None, j)
        } else {
            (seq![b], None, i + 1)
        }
    } else if i + 1 >= fmt.len() {
        (seq![0x25u8], None, i + 1)
    } else {
        let c = fmt[i + 1];
        if c == 0x25u8 {
            (seq![0x25u8], None, i + 2)
        } else if is_conv_spec(c) {
            (Seq::empty(), Some(c), i + 2)
        } else {
            (seq![0x25u8, c], None, i + 2)
        }
    }
}

pub proof fn lemma_piece_advances(fmt: Seq<u8>, i: int)
    requires
        0 <= i < fmt.len(),
    ensures
        i < piece(fmt, i).2 <= fmt.len(),
{
    if fmt[i] == 0x5cu8 {
        lemma_escape_advances(fmt, i);
    }
}

/// One pass over the format string from `i` with the arguments from
/// `pos` on: the bytes printed, the index of the next unused argument, and
/// whether some conversion consumed an argument (`consumed` carries the
/// answer so far). Fails with the first failing conversion.
pub open spec fn round_spec(fmt: Seq<u8>, args: Seq<Seq<u8>>, i: int, pos: int, consumed: bool) -> Result<
    (Seq<u8>, int, bool),
    BuiltinError,
>
    decreases fmt.len() - i,
{
    if i < 0 || i >= fmt.len() {
        Ok((Seq::empty(), pos, consumed))
    } else {
        proof {
            lemma_piece_advances(fmt, i);
        }
        let (lit, conv, next) = piece(fmt, i);
        match conv {
            None => match round_spec(fmt, args, next, pos, consumed) {
                Ok((o, p, c)) => Ok((lit + o, p, c)),
                Err(e) => Err(e),
            },
            Some(c) => match conv_spec(c, args, pos) {
                Err(e) => Err(e),
                Ok((text, pos1, used)) => match round_spec(fmt, args, next, pos1, used || consumed) {
                    Ok((o, p, cc)) => Ok((text + o, p, cc)),
                    Err(e) => Err(e),
                },
            },
        }
    }
}

/// A round never moves back through the arguments, and when it reports a
/// consumption that was not already reported, it either moved forward or
/// ran out of arguments.
pub proof fn lemma_round_progress(
    fmt: Seq<u8>,
    args: Seq<Seq<u8>>,
    i: int,
    pos: int,
    consumed: bool,
)
    requires
        0 <= pos <= args.len(),
    ensures
        round_spec(fmt, args, i, pos, consumed) matches Ok((o, p, c)) ==> {
            &&& pos <= p <= args.len()
            &&& (c ==> consumed || p > pos || p == args.len())
        },
    decreases fmt.len() - i,
{
    if 0 <= i < fmt.len() {
        lemma_piece_advances(fmt, i);
        let (lit, conv, next) = piece(fmt, i);
        match conv {
            None => {
                lemma_round_progress(fmt, args, next, pos, consumed);
            },
            Some(c) => {
                if let Ok((text, pos1, used)) = conv_spec(c, args, pos) {
                    lemma_round_progress(fmt, args, next, pos1, used || consumed);
                }
            },
        }
    }
}

/// `fmt` rendered against the arguments from `pos` on: the format string is
/// reused while arguments remain, and a round that consumes nothing ends it.
pub open spec fn render_spec(fmt: Seq<u8>, args: Seq<Seq<u8>>, pos: int) -> Result<
    Seq<u8>,
    BuiltinError,
>
    decreases args.len() - pos,
{
    if pos < 0 || pos > args.len() {
        Ok(Seq::empty())
    } else {
        proof {
            lemma_round_progress(fmt, args, 0, pos, false);
        }
        match round_spec(fmt, args, 0, pos, false) {
            Err(e) => Err(e),
            Ok((o, p, c)) => if p == args.len() || !c {
                Ok(o)
            } else {
                match render_spec(fmt, args, p) {
                    Ok(o2) => Ok(o + o2),
                    Err(e) => Err(e),
                }
            },
        }
    }
}

/// What `printf` prints for its substituted arguments: the first is the
/// format, the rest its arguments; with no arguments at all it prints the
/// default `%s\n` format's output, a newline.
pub open spec fn printf_output(refs: Seq<Seq<u8>>) -> Result<Seq<u8>, BuiltinError> {
    if refs.len() == 0 {
        Ok(seq![0x0au8])
    } else {
        render_spec(refs[0], refs.drop_first(), 0)
    }
}

/// `printf FMT [ARG...]`: appends the rendered text to `out` and answers
/// exit status 0; on a bad numeric argument nothing is appended.
pub fn handle_printf(refs: &[Vec<u8>], out: &mut Vec<u8>) -> (r: Result<i32, BuiltinError>)
    ensures
        match printf_output(arg_views(refs@)) {
            Ok(o) => r == Ok::<i32, BuiltinError>(0) && final(out)@ == old(out)@ + o,
            Err(e) => r == Err::<i32, BuiltinError>(e) && final(out)@ == old(out)@,
        },
{
    let mut buf: Vec<u8> = Vec::new();
    if refs.len() == 0 {
        buf.push(NL);
        assert(buf@ =~= seq![0x0au8]);
    } else {
        let args = &refs[1..refs.len()];
        assert(arg_views(args@) =~= arg_views(refs@).drop_first());
        match render(refs[0].as_slice(), args, &mut buf) {
            Ok(()) => {},
            Err(e) => {
                return Err(e);
            },
        }
        assert(buf@ =~= Seq::<u8>::empty() + buf@);
    }
    push_all(out, buf.as_slice());
    Ok(0)
}

/// Whether some piece of `fmt` from `i` on is a conversion.
pub open spec fn has_conv_from(fmt: Seq<u8>, i: int) -> bool
    decreases fmt.len() - i,
{
    if i < 0 || i >= fmt.len() {
        false
    } else {
        proof {
            lemma_piece_advances(fmt, i);
        }
        piece(fmt, i).1 is Some || has_conv_from(fmt, piece(fmt, i).2)
    }
}

/// A pass over a format without conversions prints the same bytes whatever
/// the arguments, and consumes none of them.
pub proof fn lemma_round_without_conversions(
    fmt: Seq<u8>,
    args: Seq<Seq<u8>>,
    i: int,
    pos: int,
    consumed: bool,
)
    requires
        !has_conv_from(fmt, i),
    ensures
        round_spec(fmt, args, i, pos, consumed) is Ok,
        round_spec(fmt, Seq::empty(), i, 0, false) is Ok,
        round_spec(fmt, args, i, pos, consumed)->Ok_0 == (
            round_spec(fmt, Seq::empty(), i, 0, false)->Ok_0.0,
            pos,
            consumed,
        ),
    decreases fmt.len() - i,
{
    if 0 <= i < fmt.len() {
        lemma_piece_advances(fmt, i);
        let next = piece(fmt, i).2;
        lemma_round_without_conversions(fmt, args, next, pos, consumed);
        lemma_round_without_conversions(fmt, Seq::empty(), next, 0, false);
    }
}

/// A format without conversions is printed once, whatever the arguments:
/// they are never read.
pub proof fn lemma_render_without_conversions(fmt: Seq<u8>, args: Seq<Seq<u8>>)
    requires
        !has_conv_from(fmt, 0),
    ensures
        render_spec(fmt, args, 0) == render_spec(fmt, Seq::empty(), 0),
{
    lemma_round_without_conversions(fmt, args, 0, 0, false);
    lemma_round_without_conversions(fmt, Seq::empty(), 0, 0, false);
}

/// `r` with `pre` printed before its output.
pub open spec fn then_out(pre: Seq<u8>, r: Result<(Seq<u8>, int, bool), BuiltinError>) -> Result<
    (Seq<u8>, int, bool),
    BuiltinError,
> {
    match r {
        Ok((o, p, c)) => Ok((pre + o, p, c)),
        Err(e) => Err(e),
    }
}

pub proof fn lemma_then_out_assoc(
    a: Seq<u8>,
    b: Seq<u8>,
    r: Result<(Seq<u8>, int, bool), BuiltinError>,
)
    ensures
        then_out(a, then_out(b, r)) == then_out(a + b, r),
{
    if let Ok((o, p, c)) = r {
        assert(a + (b + o) =~= (a + b) + o);
    }
}

/// `r` with `pre` printed before its output.
pub open spec fn then_render(pre: Seq<u8>, r: Result<Seq<u8>, BuiltinError>) -> Result<
    Seq<u8>,
    BuiltinError,
> {
    match r {
        Ok(o) => Ok(pre + o),
        Err(e) => Err(e),
    }
}

/// Renders `fmt` against `args` into `out`. The format string is reused
/// while arguments remain, matching bash; a round that consumes nothing ends
/// it. On failure `out` holds what was printed before the failing
/// conversion.
pub fn render(fmt: &[u8], args: &[Vec<u8>], out: &mut Vec<u8>) -> (r: Result<(), BuiltinError>)
    ensures
        final(out)@.len() >= old(out)@.len(),
        final(out)@.subrange(0, old(out)@.len() as int) == old(out)@,
        match render_spec(fmt@, arg_views(args@), 0) {
            Ok(o) => r is Ok && final(out)@ == old(out)@ + o,
            Err(e) => r == Err::<(), BuiltinError>(e),
        },
{
    let ghost views = arg_views(args@);
    let ghost start = out@;
    let mut pos: usize = 0;
    assert(out@.subrange(start.len() as int, out@.len() as int) =~= Seq::<u8>::empty());
    assert(then_render(Seq::empty(), render_spec(fmt@, views, 0)) == render_spec(fmt@, views, 0)) by {
        if let Ok(o) = render_spec(fmt@, views, 0) {
            assert(Seq::<u8>::empty() + o =~= o);
        }
    }
    loop
        invariant
            pos <= args@.len(),
            start == old(out)@,
            views == arg_views(args@),
            out@.len() >= start.len(),
            out@.subrange(0, start.len() as int) == start,
            render_spec(fmt@, views, 0) == then_render(
                out@.subrange(start.len() as int, out@.len() as int),
                render_spec(fmt@, views, pos as int),
            ),
        decreases args@.len() - pos,
    {
        let ghost before = out@;
        let ghost p0 = pos as int;
        proof {
            lemma_round_progress(fmt@, views, 0, pos as int, false);
        }
        let ghost rs = round_spec(fmt@, views, 0, p0, false);
        let consumed = match round(fmt, args, &mut pos, out) {
            Ok(c) => c,
            Err(e) => {
                assert(render_spec(fmt@, views, p0) == Err::<Seq<u8>, BuiltinError>(e));
                return Err(e);
            },
        };
        let ghost delta = out@.subrange(before.len() as int, out@.len() as int);
        assert(out@ =~= before + delta);
        assert(rs matches Ok((o, p, c)) && o =~= delta && p == pos && c == consumed);
        assert(out@.subrange(0, start.len() as int) =~= start);
        let ghost acc = before.subrange(start.len() as int, before.len() as int);
        assert(out@.subrange(start.len() as int, out@.len() as int) =~= acc + delta);
        if pos == args.len() || !consumed {
            assert(render_spec(fmt@, views, p0) == Ok::<Seq<u8>, BuiltinError>(delta));
            assert(out@ =~= start + (acc + delta));
            return Ok(());
        }
        assert(render_spec(fmt@, views, p0) == then_render(delta, render_spec(fmt@, views, pos as int)));
        proof {
            if let Ok(o) = render_spec(fmt@, views, pos as int) {
                assert(acc + (delta + o) =~= (acc + delta) + o);
            }
        }
    }
}

/// Emits the piece of the format string at `i`: its literal bytes, or the
/// output of its conversion. Returns the index after the piece and, for a
/// conversion, whether it consumed an argument.
pub fn emit_piece(fmt: &[u8], args: &[Vec<u8>], i: usize, pos: &mut usize, out: &mut Vec<u8>) -> (r:
    Result<(usize, bool), BuiltinError>)
    requires
        i < fmt@.len(),
        *old(pos) <= args@.len(),
    ensures
        *final(pos) <= args@.len(),
        match r {
            Ok((next, used)) => {
                &&& next == piece(fmt@, i as int).2
                &&& final(out)@.len() >= old(out)@.len()
                &&& forall|cf: bool|
                    #![trigger round_spec(fmt@, arg_views(args@), i as int, *old(pos) as int, cf)]
                    round_spec(fmt@, arg_views(args@), i as int, *old(pos) as int, cf) == then_out(
                        final(out)@.subrange(old(out)@.len() as int, final(out)@.len() as int),
                        round_spec(fmt@, arg_views(args@), next as int, *final(pos) as int, used || cf),
                    )
                &&& final(out)@.subrange(0, old(out)@.len() as int) == old(out)@
            },
            Err(e) => {
                &&& final(out)@ == old(out)@
                &&& forall|cf: bool|
                    #![trigger round_spec(fmt@, arg_views(args@), i as int, *old(pos) as int, cf)]
                    round_spec(fmt@, arg_views(args@), i as int, *old(pos) as int, cf) == Err::<
                        (Seq<u8>, int, bool),
                        BuiltinError,
                    >(e)
            },
        },
{
    let ghost views = arg_views(args@);
    let ghost p0 = *pos as int;
    proof {
        lemma_piece_advances(fmt@, i as int);
    }
    let b = fmt[i];
    let r: (usize, bool) = if b != PERCENT {
        if b == BACKSLASH {
            (emit_escape(fmt, i, out), false)
        } else {
            out.push(b);
            (i + 1, false)
        }
    } else if i + 1 >= fmt.len() {
        out.push(PERCENT);
        (i + 1, false)
    } else {
        let c = fmt[i + 1];
        if c == PERCENT {
            out.push(PERCENT);
            (i + 2, false)
        } else if is_conv(c) {
            match apply_conv(c, args, pos, out) {
                Ok(u) => (i + 2, u),
                Err(e) => {
                    return Err(e);
                },
            }
        } else {
            out.push(PERCENT);
            out.push(c);
            (i + 2, false)
        }
    };
    let ghost delta = out@.subrange(old(out)@.len() as int, out@.len() as int);
    assert(out@.subrange(0, old(out)@.len() as int) =~= old(out)@);
    assert(out@ =~= old(out)@ + delta);
    assert(piece(fmt@, i as int).1 is None ==> delta =~= piece(fmt@, i as int).0);
    assert forall|cf: bool|
        #![trigger round_spec(fmt@, views, i as int, p0, cf)]
        round_spec(fmt@, views, i as int, p0, cf) == then_out(
            delta,
            round_spec(fmt@, views, r.0 as int, *pos as int, r.1 || cf),
        ) by {
        let (lit, conv, next) = piece(fmt@, i as int);
        match conv {
            None => {
                assert(delta =~= lit);
            },
            Some(c) => {
                assert(conv_spec(c, views, p0) matches Ok((text, p1, u)) && text =~= delta && p1
                    == *pos && u == r.1);
            },
        }
    }
    Ok(r)
}

/// One pass over the format string; returns whether some conversion
/// consumed an argument. `pos` is the index of the next unused argument.
pub fn round(fmt: &[u8], args: &[Vec<u8>], pos: &mut usize, out: &mut Vec<u8>) -> (r: Result<
    bool,
    BuiltinError,
>)
    requires
        *old(pos) <= args@.len(),
    ensures
        *final(pos) <= args@.len(),
        final(out)@.len() >= old(out)@.len(),
        final(out)@.subrange(0, old(out)@.len() as int) == old(out)@,
        match round_spec(fmt@, arg_views(args@), 0, *old(pos) as int, false) {
            Ok((o, p, c)) => {
                &&& r == Ok::<bool, BuiltinError>(c)
                &&& final(out)@ == old(out)@ + o
                &&& *final(pos) == p
            },
            Err(e) => r == Err::<bool, BuiltinError>(e),
        },
{
    let ghost views = arg_views(args@);
    let ghost start = out@;
    let ghost pos0 = *pos as int;
    let mut consumed = false;
    let mut i: usize = 0;
    proof {
        lemma_then_out_assoc(Seq::empty(), Seq::empty(), round_spec(fmt@, views, 0, pos0, false));
        if let Ok((o, p, c)) = round_spec(fmt@, views, 0, pos0, false) {
            assert(Seq::<u8>::empty() + o =~= o);
        }
    }
    assert(out@.subrange(start.len() as int, out@.len() as int) =~= Seq::<u8>::empty());
    while i < fmt.len()
        invariant
            i <= fmt@.len(),
            start == old(out)@,
            pos0 == *old(pos) as int,
            *pos <= args@.len(),
            views == arg_views(args@),
            out@.len() >= start.len(),
            out@.subrange(0, start.len() as int) == start,
            round_spec(fmt@, views, 0, pos0, false) == then_out(
                out@.subrange(start.len() as int, out@.len() as int),
                round_spec(fmt@, views, i as int, *pos as int, consumed),
            ),
        decreases fmt@.len() - i,
    {
        let ghost before = out@;
        let ghost i0 = i as int;
        let ghost c0 = consumed;
        let ghost p0 = *pos as int;
        let step = emit_piece(fmt, args, i, pos, out);
        let (next, used) = match step {
            Ok(x) => x,
            Err(e) => {
                assert(step == Err::<(usize, bool), BuiltinError>(e));
                assert(out@ == before);
                assert(round_spec(fmt@, views, i0, p0, c0) == Err::<(Seq<u8>, int, bool), BuiltinError>(e));
                return Err(e);
            },
        };
        proof {
            lemma_piece_advances(fmt@, i0);
        }
        i = next;
        consumed = used || consumed;
        let ghost delta = out@.subrange(before.len() as int, out@.len() as int);
        let ghost acc = before.subrange(start.len() as int, before.len() as int);
        assert(round_spec(fmt@, views, i0, p0, c0) == then_out(delta, round_spec(fmt@, views, i as int, *pos as int, consumed)));
        proof {
            lemma_then_out_assoc(acc, delta, round_spec(fmt@, views, i as int, *pos as int, consumed));
        }
        assert(out@ =~= before + delta);
        assert(out@.subrange(0, start.len() as int) =~= start);
        assert(out@.subrange(start.len() as int, out@.len() as int) =~= acc + delta);
    }
    let ghost acc = out@.subrange(start.len() as int, out@.len() as int);
    assert(round_spec(fmt@, views, i as int, *pos as int, consumed) == Ok::<(Seq<u8>, int, bool), BuiltinError>((Seq::empty(), *pos as int, consumed)));
    assert(acc + Seq::<u8>::empty() =~= acc);
    assert(out@ =~= start + acc);
    Ok(consumed)
}

/// The arguments from `pos` on, one after the other.
pub open spec fn joined_from(args: Seq<Seq<u8>>, pos: int) -> Seq<u8>
    decreases args.len() - pos,
{
    if pos < 0 || pos >= args.len() {
        Seq::empty()
    } else {
        args[pos] + joined_from(args, pos + 1)
    }
}

/// The format `%s` is reused while arguments remain: it prints every
/// argument from `pos` on, once and in order.
pub proof fn lemma_string_format_prints_all(args: Seq<Seq<u8>>, pos: int)
    requires
        0 <= pos <= args.len(),
    ensures
        render_spec(seq![0x25u8, 0x73u8], args, pos) == Ok::<Seq<u8>, BuiltinError>(
            joined_from(args, pos),
        ),
    decreases args.len() - pos,
{
    let fmt = seq![0x25u8, 0x73u8];
    assert(piece(fmt, 0) == (Seq::<u8>::empty(), Some(0x73u8), 2int));
    if pos < args.len() {
        assert(round_spec(fmt, args, 2, pos + 1, true) == Ok::<(Seq<u8>, int, bool), BuiltinError>(
            (Seq::<u8>::empty(), pos + 1, true),
        ));
        assert(args[pos] + Seq::<u8>::empty() =~= args[pos]);
        assert(round_spec(fmt, args, 0, pos, false) == Ok::<(Seq<u8>, int, bool), BuiltinError>(
            (args[pos], pos + 1, true),
        ));
        lemma_string_format_prints_all(args, pos + 1);
        if pos + 1 == args.len() {
            assert(joined_from(args, pos + 1) == Seq::<u8>::empty());
            assert(joined_from(args, pos) =~= args[pos]);
        }
    } else {
        assert(round_spec(fmt, args, 2, pos, false) == Ok::<(Seq<u8>, int, bool), BuiltinError>(
            (Seq::<u8>::empty(), pos, false),
        ));
        assert(round_spec(fmt, args, 0, pos, false) == Ok::<(Seq<u8>, int, bool), BuiltinError>(
            (Seq::<u8>::empty(), pos, false),
        ));
    }
}

} // verus!
