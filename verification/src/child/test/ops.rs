//! Expression operators of `test`.

use vstd::prelude::*;
use crate::bytes::{eq_bytes, MINUS};
use crate::error::BuiltinError;
use crate::num::{parse_i64, parse_i64_spec};

verus! {

/// `-` followed by `letters`.
pub open spec fn dash(letters: Seq<u8>) -> Seq<u8> {
    seq![0x2du8] + letters
}

/// Whether `op` is `-` followed by `letters`.
pub fn is_dash(op: &[u8], letters: &[u8]) -> (r: bool)
    ensures
        r == (op@ == dash(letters@)),
{
    if op.len() == 0 || op[0] != MINUS || op.len() - 1 != letters.len() {
        proof {
            if op@ == dash(letters@) {
                assert(op@[0] == dash(letters@)[0]);
            }
        }
        return false;
    }
    let r = eq_bytes(&op[1..op.len()], letters);
    proof {
        if r {
            assert(op@ =~= dash(letters@));
        } else if op@ == dash(letters@) {
            assert(op@.subrange(1, op@.len() as int) =~= letters@);
        }
    }
    r
}

/// Whether `op` is `-` and the single letter `c`.
pub open spec fn is_flag(op: Seq<u8>, c: u8) -> bool {
    op == dash(seq![c])
}

/// Whether `op` is `-` and the single letter `c`.
pub fn flag(op: &[u8], c: u8) -> (r: bool)
    ensures
        r == is_flag(op@, c),
{
    let l: [u8; 1] = [c];
    assert(l@ == seq![c]);
    is_dash(op, &l)
}

/// The unary operators: file kinds, size, mode bits, terminal, permissions
/// (`-e -f -d -b -c -p -S -L -s -g -k -t -r -w -x`) and the string tests
/// `-z -n`.
pub open spec fn is_unary_spec(op: Seq<u8>) -> bool {
    is_flag(op, 0x65u8) || is_flag(op, 0x66u8) || is_flag(op, 0x64u8) || is_flag(op, 0x62u8)
        || is_flag(op, 0x63u8) || is_flag(op, 0x70u8) || is_flag(op, 0x53u8) || is_flag(op, 0x4cu8)
        || is_flag(op, 0x73u8) || is_flag(op, 0x67u8) || is_flag(op, 0x6bu8) || is_flag(op, 0x74u8)
        || is_flag(op, 0x72u8) || is_flag(op, 0x77u8) || is_flag(op, 0x78u8) || is_flag(op, 0x7au8)
        || is_flag(op, 0x6eu8)
}

/// Whether `op` is a unary operator.
pub fn is_unary(op: &[u8]) -> (r: bool)
    ensures
        r == is_unary_spec(op@),
{
    flag(op, 0x65) || flag(op, 0x66) || flag(op, 0x64) || flag(op, 0x62) || flag(op, 0x63) || flag(
        op,
        0x70,
    ) || flag(op, 0x53) || flag(op, 0x4c) || flag(op, 0x73) || flag(op, 0x67) || flag(op, 0x6b)
        || flag(op, 0x74) || flag(op, 0x72) || flag(op, 0x77) || flag(op, 0x78) || flag(op, 0x7a)
        || flag(op, 0x6e)
}

/// `nt`
pub open spec fn l_nt() -> Seq<u8> {
    seq![0x6eu8, 0x74u8]
}

/// `ot`
pub open spec fn l_ot() -> Seq<u8> {
    seq![0x6fu8, 0x74u8]
}

/// `ef`
pub open spec fn l_ef() -> Seq<u8> {
    seq![0x65u8, 0x66u8]
}

/// `fdeq`
pub open spec fn l_fdeq() -> Seq<u8> {
    seq![0x66u8, 0x64u8, 0x65u8, 0x71u8]
}

/// `fdne`
pub open spec fn l_fdne() -> Seq<u8> {
    seq![0x66u8, 0x64u8, 0x6eu8, 0x65u8]
}

/// The binary file comparisons `-nt -ot -ef -fdeq -fdne`.
pub open spec fn is_file_binary_spec(op: Seq<u8>) -> bool {
    op == dash(l_nt()) || op == dash(l_ot()) || op == dash(l_ef()) || op == dash(l_fdeq()) || op
        == dash(l_fdne())
}

/// Whether `op` is a binary file comparison.
pub fn is_file_binary(op: &[u8]) -> (r: bool)
    ensures
        r == is_file_binary_spec(op@),
{
    let nt: [u8; 2] = [0x6e, 0x74];
    let ot: [u8; 2] = [0x6f, 0x74];
    let ef: [u8; 2] = [0x65, 0x66];
    let fdeq: [u8; 4] = [0x66, 0x64, 0x65, 0x71];
    let fdne: [u8; 4] = [0x66, 0x64, 0x6e, 0x65];
    assert(nt@ == l_nt() && ot@ == l_ot() && ef@ == l_ef() && fdeq@ == l_fdeq() && fdne@ == l_fdne());
    is_dash(op, &nt) || is_dash(op, &ot) || is_dash(op, &ef) || is_dash(op, &fdeq) || is_dash(
        op,
        &fdne,
    )
}

/// The exit status of a test outcome: 0 when true, 1 when false.
pub open spec fn status(ok: bool) -> i32 {
    if ok {
        0
    } else {
        1
    }
}

/// `-z` (empty) and `-n` (non-empty).
pub open spec fn string_test_spec(op: Seq<u8>, arg: Seq<u8>) -> Result<i32, BuiltinError> {
    if is_flag(op, 0x7au8) {
        Ok(status(arg.len() == 0))
    } else if is_flag(op, 0x6eu8) {
        Ok(status(arg.len() != 0))
    } else {
        Err(BuiltinError::Never)
    }
}

/// String tests `-z` (empty) and `-n` (non-empty) on the substituted value.
pub fn string_test(op: &[u8], arg: &[u8]) -> (r: Result<i32, BuiltinError>)
    ensures
        r == string_test_spec(op@, arg@),
{
    let empty = arg.len() == 0;
    let ok = if flag(op, 0x7a) {
        empty
    } else if flag(op, 0x6e) {
        !empty
    } else {
        // `is_unary` restricts `op`; `-z`/`-n` are the only string tests.
        return Err(BuiltinError::Never);
    };
    Ok(if ok {
        0
    } else {
        1
    })
}

/// `eq` `ne` `lt` `le` `gt` `ge`
pub open spec fn l_eq() -> Seq<u8> {
    seq![0x65u8, 0x71u8]
}

pub open spec fn l_ne() -> Seq<u8> {
    seq![0x6eu8, 0x65u8]
}

pub open spec fn l_lt() -> Seq<u8> {
    seq![0x6cu8, 0x74u8]
}

pub open spec fn l_le() -> Seq<u8> {
    seq![0x6cu8, 0x65u8]
}

pub open spec fn l_gt() -> Seq<u8> {
    seq![0x67u8, 0x74u8]
}

pub open spec fn l_ge() -> Seq<u8> {
    seq![0x67u8, 0x65u8]
}

/// The integer comparisons `-eq -ne -lt -le -gt -ge`.
pub open spec fn is_int_op_spec(op: Seq<u8>) -> bool {
    op == dash(l_eq()) || op == dash(l_ne()) || op == dash(l_lt()) || op == dash(l_le()) || op
        == dash(l_gt()) || op == dash(l_ge())
}

/// Whether `op` is an integer comparison.
pub fn is_int_op(op: &[u8]) -> (r: bool)
    ensures
        r == is_int_op_spec(op@),
{
    let (eq, ne, lt, le, gt, ge) = int_letters();
    is_dash(op, &eq) || is_dash(op, &ne) || is_dash(op, &lt) || is_dash(op, &le) || is_dash(
        op,
        &gt,
    ) || is_dash(op, &ge)
}

fn int_letters() -> (r: ([u8; 2], [u8; 2], [u8; 2], [u8; 2], [u8; 2], [u8; 2]))
    ensures
        r.0@ == l_eq() && r.1@ == l_ne() && r.2@ == l_lt() && r.3@ == l_le() && r.4@ == l_gt()
            && r.5@ == l_ge(),
{
    let eq: [u8; 2] = [0x65, 0x71];
    let ne: [u8; 2] = [0x6e, 0x65];
    let lt: [u8; 2] = [0x6c, 0x74];
    let le: [u8; 2] = [0x6c, 0x65];
    let gt: [u8; 2] = [0x67, 0x74];
    let ge: [u8; 2] = [0x67, 0x65];
    assert(eq@ == l_eq() && ne@ == l_ne() && lt@ == l_lt() && le@ == l_le() && gt@ == l_gt() && ge@ == l_ge());
    (eq, ne, lt, le, gt, ge)
}

/// The integer comparison `op` of `l` and `r`; false for any other `op`.
pub open spec fn compare_spec(l: i64, op: Seq<u8>, r: i64) -> bool {
    if op == dash(l_eq()) {
        l == r
    } else if op == dash(l_ne()) {
        l != r
    } else if op == dash(l_lt()) {
        l < r
    } else if op == dash(l_le()) {
        l <= r
    } else if op == dash(l_gt()) {
        l > r
    } else if op == dash(l_ge()) {
        l >= r
    } else {
        false
    }
}

/// Compare two integers with the operator `op`.
pub fn compare(l: i64, op: &[u8], r: i64) -> (b: bool)
    ensures
        b == compare_spec(l, op@, r),
{
    let (eq, ne, lt, le, gt, ge) = int_letters();
    if is_dash(op, &eq) {
        l == r
    } else if is_dash(op, &ne) {
        l != r
    } else if is_dash(op, &lt) {
        l < r
    } else if is_dash(op, &le) {
        l <= r
    } else if is_dash(op, &gt) {
        l > r
    } else if is_dash(op, &ge) {
        l >= r
    } else {
        false
    }
}

/// An operand of an integer comparison.
pub fn integer(v: &[u8]) -> (r: Result<i64, BuiltinError>)
    ensures
        r == match parse_i64_spec(v@) {
            Some(n) => Ok::<i64, BuiltinError>(n),
            None => Err(BuiltinError::TestNonInteger),
        },
{
    match parse_i64(v) {
        Some(n) => Ok(n),
        None => Err(BuiltinError::TestNonInteger),
    }
}

/// `=`
pub open spec fn op_eq() -> Seq<u8> {
    seq![0x3du8]
}

/// `!=`
pub open spec fn op_ne() -> Seq<u8> {
    seq![0x21u8, 0x3du8]
}

/// `lhs OP rhs` for the string operators `= !=` and the integer operators;
/// any other operator is a usage error, a non-integer operand of an
/// integer operator an error of its own.
pub open spec fn string_or_int_test_spec(lhs: Seq<u8>, op: Seq<u8>, rhs: Seq<u8>) -> Result<
    i32,
    BuiltinError,
> {
    if op == op_eq() {
        Ok(status(lhs == rhs))
    } else if op == op_ne() {
        Ok(status(lhs != rhs))
    } else if is_int_op_spec(op) {
        match (parse_i64_spec(lhs), parse_i64_spec(rhs)) {
            (Some(l), Some(r)) => Ok(status(compare_spec(l, op, r))),
            _ => Err(BuiltinError::TestNonInteger),
        }
    } else {
        Err(BuiltinError::TestUsage)
    }
}

/// Evaluate `lhs OP rhs` for a string or integer operator.
pub fn string_or_int_test(lhs: &[u8], op: &[u8], rhs: &[u8]) -> (r: Result<i32, BuiltinError>)
    ensures
        r == string_or_int_test_spec(lhs@, op@, rhs@),
{
    let e: [u8; 1] = [0x3d];
    let ne: [u8; 2] = [0x21, 0x3d];
    assert(e@ == op_eq() && ne@ == op_ne());
    let result = if eq_bytes(op, &e) || eq_bytes(op, &ne) {
        let same = eq_bytes(lhs, rhs);
        if eq_bytes(op, &e) {
            same
        } else {
            !same
        }
    } else if is_int_op(op) {
        let l = integer(lhs)?;
        let r = integer(rhs)?;
        compare(l, op, r)
    } else {
        return Err(BuiltinError::TestUsage);
    };
    Ok(if result {
        0
    } else {
        1
    })
}

/// `=` and `!=` answer opposite statuses on the same operands.
pub proof fn lemma_eq_ne_complementary(lhs: Seq<u8>, rhs: Seq<u8>)
    ensures
        string_or_int_test_spec(lhs, op_eq(), rhs) is Ok,
        string_or_int_test_spec(lhs, op_ne(), rhs) is Ok,
        string_or_int_test_spec(lhs, op_eq(), rhs)->Ok_0 + string_or_int_test_spec(lhs, op_ne(), rhs)->Ok_0 == 1,
{
    assert(op_eq() != op_ne()) by {
        assert(op_eq().len() != op_ne().len());
    }
}

/// Each integer comparison is the negation of its counterpart: `-eq` and
/// `-ne`, `-lt` and `-ge`, `-gt` and `-le`.
pub proof fn lemma_int_ops_complementary(l: i64, r: i64)
    ensures
        compare_spec(l, dash(l_eq()), r) == !compare_spec(l, dash(l_ne()), r),
        compare_spec(l, dash(l_lt()), r) == !compare_spec(l, dash(l_ge()), r),
        compare_spec(l, dash(l_gt()), r) == !compare_spec(l, dash(l_le()), r),
{
    let ops = seq![l_eq(), l_ne(), l_lt(), l_le(), l_gt(), l_ge()];
    assert(dash(l_eq())[2] != dash(l_ne())[2]);
    assert(dash(l_eq())[1] != dash(l_lt())[1]);
    assert(dash(l_eq())[1] != dash(l_le())[1]);
    assert(dash(l_eq())[1] != dash(l_gt())[1]);
    assert(dash(l_eq())[1] != dash(l_ge())[1]);
    assert(dash(l_ne())[1] != dash(l_lt())[1]);
    assert(dash(l_ne())[1] != dash(l_le())[1]);
    assert(dash(l_ne())[1] != dash(l_gt())[1]);
    assert(dash(l_ne())[1] != dash(l_ge())[1]);
    assert(dash(l_lt())[2] != dash(l_le())[2]);
    assert(dash(l_lt())[1] != dash(l_gt())[1]);
    assert(dash(l_lt())[1] != dash(l_ge())[1]);
    assert(dash(l_le())[1] != dash(l_gt())[1]);
    assert(dash(l_le())[1] != dash(l_ge())[1]);
    assert(dash(l_gt())[2] != dash(l_ge())[2]);
}


/// The integer operators follow the order of the integers: `-eq` is
/// equality, `-ne` inequality, `-lt`, `-le`, `-gt`, `-ge` the four
/// comparisons, for all operands.
pub proof fn lemma_int_ops_order(l: i64, r: i64)
    ensures
        compare_spec(l, seq![0x2du8, 0x65u8, 0x71u8], r) == (l == r),
        compare_spec(l, seq![0x2du8, 0x6eu8, 0x65u8], r) == (l != r),
        compare_spec(l, seq![0x2du8, 0x6cu8, 0x74u8], r) == (l < r),
        compare_spec(l, seq![0x2du8, 0x6cu8, 0x65u8], r) == (l <= r),
        compare_spec(l, seq![0x2du8, 0x67u8, 0x74u8], r) == (l > r),
        compare_spec(l, seq![0x2du8, 0x67u8, 0x65u8], r) == (l >= r),
{
    assert(dash(l_eq()) =~= seq![0x2du8, 0x65u8, 0x71u8]);
    assert(dash(l_ne()) =~= seq![0x2du8, 0x6eu8, 0x65u8]);
    assert(dash(l_lt()) =~= seq![0x2du8, 0x6cu8, 0x74u8]);
    assert(dash(l_le()) =~= seq![0x2du8, 0x6cu8, 0x65u8]);
    assert(dash(l_gt()) =~= seq![0x2du8, 0x67u8, 0x74u8]);
    assert(dash(l_ge()) =~= seq![0x2du8, 0x67u8, 0x65u8]);
    lemma_int_ops_complementary(l, r);
    assert(dash(l_eq())[1] != dash(l_ne())[1]);
    assert(dash(l_eq())[1] != dash(l_lt())[1]);
    assert(dash(l_eq())[1] != dash(l_le())[1]);
    assert(dash(l_eq())[1] != dash(l_gt())[1]);
    assert(dash(l_eq())[1] != dash(l_ge())[1]);
    assert(dash(l_ne())[1] != dash(l_lt())[1]);
    assert(dash(l_ne())[1] != dash(l_le())[1]);
    assert(dash(l_ne())[1] != dash(l_gt())[1]);
    assert(dash(l_ne())[1] != dash(l_ge())[1]);
    assert(dash(l_lt())[2] != dash(l_le())[2]);
    assert(dash(l_lt())[1] != dash(l_gt())[1]);
    assert(dash(l_lt())[1] != dash(l_ge())[1]);
    assert(dash(l_le())[1] != dash(l_gt())[1]);
    assert(dash(l_le())[1] != dash(l_ge())[1]);
    assert(dash(l_gt())[2] != dash(l_ge())[2]);
}

/// `lhs OP rhs` on the decimal texts of two integers answers the integer
/// comparison: status 0 exactly when it holds.
pub proof fn lemma_integer_test(l: i64, r: i64)
    ensures
        ({
            let (a, b) = (crate::num::signed_decimal(l as int), crate::num::signed_decimal(r as int));
            &&& string_or_int_test_spec(a, seq![0x2du8, 0x65u8, 0x71u8], b) == Ok::<i32, BuiltinError>(status(l == r))
            &&& string_or_int_test_spec(a, seq![0x2du8, 0x6eu8, 0x65u8], b) == Ok::<i32, BuiltinError>(status(l != r))
            &&& string_or_int_test_spec(a, seq![0x2du8, 0x6cu8, 0x74u8], b) == Ok::<i32, BuiltinError>(status(l < r))
            &&& string_or_int_test_spec(a, seq![0x2du8, 0x6cu8, 0x65u8], b) == Ok::<i32, BuiltinError>(status(l <= r))
            &&& string_or_int_test_spec(a, seq![0x2du8, 0x67u8, 0x74u8], b) == Ok::<i32, BuiltinError>(status(l > r))
            &&& string_or_int_test_spec(a, seq![0x2du8, 0x67u8, 0x65u8], b) == Ok::<i32, BuiltinError>(status(l >= r))
        }),
{
    crate::num::lemma_decimal_roundtrip(l);
    crate::num::lemma_decimal_roundtrip(r);
    lemma_int_ops_order(l, r);
    assert(dash(l_eq()) =~= seq![0x2du8, 0x65u8, 0x71u8]);
    assert(dash(l_ne()) =~= seq![0x2du8, 0x6eu8, 0x65u8]);
    assert(dash(l_lt()) =~= seq![0x2du8, 0x6cu8, 0x74u8]);
    assert(dash(l_le()) =~= seq![0x2du8, 0x6cu8, 0x65u8]);
    assert(dash(l_gt()) =~= seq![0x2du8, 0x67u8, 0x74u8]);
    assert(dash(l_ge()) =~= seq![0x2du8, 0x67u8, 0x65u8]);
    assert(op_eq().len() == 1 && op_ne().len() == 2);
}

} // verus!
