//! `type NAME...`: how the shell resolves each name (bash compat).
//!
//! Order mirrors resolution: alias, function, keyword, builtin, fd variable,
//! then PATH. A name found nowhere reports `type: NAME: not found` and the
//! exit status is 1.

use vstd::prelude::*;
use vstd::string::StringSliceAdditionalSpecFns;
use crate::bytes::{arg_views, eq_bytes, push_all, push_str, vopt};
use crate::error::{Arg, BuiltinError};
use super::dispatch::{is_dispatched, lookup_spec};

verus! {

/// What the shell's tables and the PATH say about a name.
#[derive(Debug, Clone, PartialEq, Eq)]
pub struct NameFacts {
    /// The alias's value, if the name is an alias.
    pub alias: Option<Vec<u8>>,
    pub function: bool,
    /// Whether the name is an fd variable or an fd array.
    pub fd_var: bool,
    /// The executable the PATH resolves the name to, if any.
    pub path: Option<Vec<u8>>,
}

/// The shell keywords.
pub open spec fn keywords_spec() -> Seq<&'static str> {
    seq![
        "break",
        "case",
        "continue",
        "do",
        "done",
        "else",
        "elif",
        "esac",
        "fi",
        "for",
        "if",
        "return",
        "then",
        "until",
        "while",
    ]
}

/// Whether `name` is a shell keyword.
pub open spec fn is_keyword_spec(name: Seq<u8>) -> bool {
    exists|i: int| 0 <= i < keywords_spec().len() && #[trigger] keywords_spec()[i].spec_bytes() == name
}

/// Whether `name` is a shell keyword.
pub fn is_keyword(name: &[u8]) -> (r: bool)
    ensures
        r == is_keyword_spec(name@),
{
    let kws: [&'static str; 15] = [
        "break",
        "case",
        "continue",
        "do",
        "done",
        "else",
        "elif",
        "esac",
        "fi",
        "for",
        "if",
        "return",
        "then",
        "until",
        "while",
    ];
    assert(kws@ =~= keywords_spec());
    let mut i: usize = 0;
    while i < 15
        invariant
            i <= 15,
            kws@ == keywords_spec(),
            forall|j: int| 0 <= j < i ==> keywords_spec()[j].spec_bytes() != name@,
        decreases 15 - i,
    {
        if eq_bytes(name, kws[i].as_bytes()) {
            return true;
        }
        i = i + 1;
    }
    false
}

/// The line `type` prints for `name`: on stdout when it is found, on stderr
/// when it is not.
pub open spec fn describe_spec(name: Seq<u8>, alias: Option<Seq<u8>>, function: bool, fd_var: bool, path: Option<Seq<u8>>) -> (bool, Seq<u8>) {
    match alias {
        Some(v) => (true, name + " is aliased to '".spec_bytes() + v + "'\n".spec_bytes()),
        None => if function {
            (true, name + " is a shell function\n".spec_bytes())
        } else if is_keyword_spec(name) {
            (true, name + " is a shell keyword\n".spec_bytes())
        } else if lookup_spec(name) is Some {
            (true, name + " is a shell builtin\n".spec_bytes())
        } else if fd_var {
            (true, name + " is an fd variable\n".spec_bytes())
        } else {
            match path {
                Some(p) => (true, name + " is ".spec_bytes() + p + "\n".spec_bytes()),
                None => (false, "type: ".spec_bytes() + name + ": not found\n".spec_bytes()),
            }
        },
    }
}

/// The description of `name` given what is known of it.
pub open spec fn describe_facts(name: Seq<u8>, f: NameFacts) -> (bool, Seq<u8>) {
    describe_spec(name, vopt(f.alias), f.function, f.fd_var, vopt(f.path))
}

/// Describe `name`: whether it was found, and its line.
pub fn describe(name: &[u8], facts: &NameFacts) -> (r: (bool, Vec<u8>))
    ensures
        (r.0, r.1@) == describe_facts(name@, *facts),
{
    let mut line: Vec<u8> = Vec::new();
    match &facts.alias {
        Some(v) => {
            push_all(&mut line, name);
            push_str(&mut line, " is aliased to '");
            push_all(&mut line, v.as_slice());
            push_str(&mut line, "'\n");
            return (true, line);
        },
        None => {},
    }
    if facts.function {
        push_all(&mut line, name);
        push_str(&mut line, " is a shell function\n");
        return (true, line);
    }
    if is_keyword(name) {
        push_all(&mut line, name);
        push_str(&mut line, " is a shell keyword\n");
        return (true, line);
    }
    if is_dispatched(name) {
        push_all(&mut line, name);
        push_str(&mut line, " is a shell builtin\n");
        return (true, line);
    }
    if facts.fd_var {
        push_all(&mut line, name);
        push_str(&mut line, " is an fd variable\n");
        return (true, line);
    }
    match &facts.path {
        Some(p) => {
            push_all(&mut line, name);
            push_str(&mut line, " is ");
            push_all(&mut line, p.as_slice());
            push_str(&mut line, "\n");
            (true, line)
        },
        None => {
            push_str(&mut line, "type: ");
            push_all(&mut line, name);
            push_str(&mut line, ": not found\n");
            (false, line)
        },
    }
}

/// The stdout text, the stderr text and whether every name was found, for
/// the first `n` names.
pub open spec fn type_run(names: Seq<Seq<u8>>, facts: Seq<NameFacts>, n: int) -> (Seq<u8>, Seq<u8>, bool)
    decreases n,
{
    if n <= 0 {
        (Seq::empty(), Seq::empty(), true)
    } else {
        let (out, err, all) = type_run(names, facts, n - 1);
        let (found, line) = describe_facts(names[n - 1], facts[n - 1]);
        if found {
            (out + line, err, all)
        } else {
            (out, err + line, false)
        }
    }
}

/// `type NAME...` with `facts[i]` what is known of the `i`-th name: lines
/// for the found names are appended to `out`, the others to `err`; exit 0
/// when all were found, else 1. No name is a usage error.
pub fn handle_type(refs: &[Vec<u8>], facts: &[NameFacts], out: &mut Vec<u8>, err: &mut Vec<u8>) -> (r:
    Result<i32, BuiltinError>)
    requires
        facts.len() == refs.len(),
    ensures
        refs.len() == 0 ==> r == Err::<i32, BuiltinError>(BuiltinError::MissingArgument(Arg::Name))
            && final(out)@ == old(out)@ && final(err)@ == old(err)@,
        refs.len() > 0 ==> {
            let (o, e, all) = type_run(arg_views(refs@), facts@, refs.len() as int);
            &&& r == Ok::<i32, BuiltinError>(if all { 0i32 } else { 1i32 })
            &&& final(out)@ == old(out)@ + o
            &&& final(err)@ == old(err)@ + e
        },
{
    if refs.len() == 0 {
        return Err(BuiltinError::MissingArgument(Arg::Name));
    }
    let ghost names = arg_views(refs@);
    let ghost out0 = out@;
    let ghost err0 = err@;
    let mut found_all = true;
    let mut i: usize = 0;
    while i < refs.len()
        invariant
            i <= refs.len(),
            facts.len() == refs.len(),
            names == arg_views(refs@),
            ({
                let (o, e, all) = type_run(names, facts@, i as int);
                &&& out@ == out0 + o
                &&& err@ == err0 + e
                &&& found_all == all
            }),
        decreases refs.len() - i,
    {
        assert(names[i as int] == refs@[i as int]@);
        let (found, line) = describe(refs[i].as_slice(), &facts[i]);
        if found {
            push_all(out, line.as_slice());
        } else {
            push_all(err, line.as_slice());
            found_all = false;
        }
        proof {
            let (o, e, all) = type_run(names, facts@, i as int);
            assert(out@ =~= out0 + type_run(names, facts@, i as int + 1).0);
            assert(err@ =~= err0 + type_run(names, facts@, i as int + 1).1);
        }
        i = i + 1;
    }
    Ok(
        if found_all {
            0
        } else {
            1
        },
    )
}


/// The shell keywords are exactly `break case continue do done else elif
/// esac fi for if return then until while`; one of them that no alias or
/// function shadows is reported as a shell keyword.
pub proof fn lemma_keywords(w: Seq<u8>, fd_var: bool, path: Option<Seq<u8>>)
    ensures
        is_keyword_spec(w) <==> (w == seq![0x62u8, 0x72u8, 0x65u8, 0x61u8, 0x6bu8] || w == seq![0x63u8, 0x61u8, 0x73u8, 0x65u8] || w == seq![0x63u8, 0x6fu8, 0x6eu8, 0x74u8, 0x69u8, 0x6eu8, 0x75u8, 0x65u8] || w == seq![0x64u8, 0x6fu8] || w == seq![0x64u8, 0x6fu8, 0x6eu8, 0x65u8] || w == seq![0x65u8, 0x6cu8, 0x73u8, 0x65u8] || w == seq![0x65u8, 0x6cu8, 0x69u8, 0x66u8] || w == seq![0x65u8, 0x73u8, 0x61u8, 0x63u8] || w == seq![0x66u8, 0x69u8] || w == seq![0x66u8, 0x6fu8, 0x72u8] || w == seq![0x69u8, 0x66u8] || w == seq![0x72u8, 0x65u8, 0x74u8, 0x75u8, 0x72u8, 0x6eu8] || w == seq![0x74u8, 0x68u8, 0x65u8, 0x6eu8] || w == seq![0x75u8, 0x6eu8, 0x74u8, 0x69u8, 0x6cu8] || w == seq![0x77u8, 0x68u8, 0x69u8, 0x6cu8, 0x65u8]),
        is_keyword_spec(w) ==> describe_spec(w, None, false, fd_var, path) == (
            true,
            w + " is a shell keyword\n".spec_bytes(),
        ),
{
    reveal_strlit("break");
    crate::bytes::lemma_ascii_bytes("break");
    assert(keywords_spec()[0].spec_bytes() == seq![0x62u8, 0x72u8, 0x65u8, 0x61u8, 0x6bu8]);
    reveal_strlit("case");
    crate::bytes::lemma_ascii_bytes("case");
    assert(keywords_spec()[1].spec_bytes() == seq![0x63u8, 0x61u8, 0x73u8, 0x65u8]);
    reveal_strlit("continue");
    crate::bytes::lemma_ascii_bytes("continue");
    assert(keywords_spec()[2].spec_bytes() == seq![0x63u8, 0x6fu8, 0x6eu8, 0x74u8, 0x69u8, 0x6eu8, 0x75u8, 0x65u8]);
    reveal_strlit("do");
    crate::bytes::lemma_ascii_bytes("do");
    assert(keywords_spec()[3].spec_bytes() == seq![0x64u8, 0x6fu8]);
    reveal_strlit("done");
    crate::bytes::lemma_ascii_bytes("done");
    assert(keywords_spec()[4].spec_bytes() == seq![0x64u8, 0x6fu8, 0x6eu8, 0x65u8]);
    reveal_strlit("else");
    crate::bytes::lemma_ascii_bytes("else");
    assert(keywords_spec()[5].spec_bytes() == seq![0x65u8, 0x6cu8, 0x73u8, 0x65u8]);
    reveal_strlit("elif");
    crate::bytes::lemma_ascii_bytes("elif");
    assert(keywords_spec()[6].spec_bytes() == seq![0x65u8, 0x6cu8, 0x69u8, 0x66u8]);
    reveal_strlit("esac");
    crate::bytes::lemma_ascii_bytes("esac");
    assert(keywords_spec()[7].spec_bytes() == seq![0x65u8, 0x73u8, 0x61u8, 0x63u8]);
    reveal_strlit("fi");
    crate::bytes::lemma_ascii_bytes("fi");
    assert(keywords_spec()[8].spec_bytes() == seq![0x66u8, 0x69u8]);
    reveal_strlit("for");
    crate::bytes::lemma_ascii_bytes("for");
    assert(keywords_spec()[9].spec_bytes() == seq![0x66u8, 0x6fu8, 0x72u8]);
    reveal_strlit("if");
    crate::bytes::lemma_ascii_bytes("if");
    assert(keywords_spec()[10].spec_bytes() == seq![0x69u8, 0x66u8]);
    reveal_strlit("return");
    crate::bytes::lemma_ascii_bytes("return");
    assert(keywords_spec()[11].spec_bytes() == seq![0x72u8, 0x65u8, 0x74u8, 0x75u8, 0x72u8, 0x6eu8]);
    reveal_strlit("then");
    crate::bytes::lemma_ascii_bytes("then");
    assert(keywords_spec()[12].spec_bytes() == seq![0x74u8, 0x68u8, 0x65u8, 0x6eu8]);
    reveal_strlit("until");
    crate::bytes::lemma_ascii_bytes("until");
    assert(keywords_spec()[13].spec_bytes() == seq![0x75u8, 0x6eu8, 0x74u8, 0x69u8, 0x6cu8]);
    reveal_strlit("while");
    crate::bytes::lemma_ascii_bytes("while");
    assert(keywords_spec()[14].spec_bytes() == seq![0x77u8, 0x68u8, 0x69u8, 0x6cu8, 0x65u8]);
    if is_keyword_spec(w) {
        let i = choose|i: int| 0 <= i < keywords_spec().len() && #[trigger] keywords_spec()[i].spec_bytes() == w;
        assert(0 <= i < 15);
    }
}

} // verus!
