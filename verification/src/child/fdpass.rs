//! The fd-passing builtins `import_fd N` and `export_fd [TAG] %var`:
//! what their arguments name.

use vstd::prelude::*;
use vstd::string::StringSliceAdditionalSpecFns;
use crate::bytes::{arg_views, contains_byte, copy_range, eq_bytes, strip_byte_prefix, vres, PERCENT};
use crate::error::FdPassError;

verus! {

/// The fd-passing builtins, dispatched after the table.
#[derive(Debug, Clone, Copy, PartialEq, Eq, Structural)]
pub enum FdPassCmd {
    ImportFd,
    ExportFd,
}

/// The fd-passing builtin called `name`, if any.
pub open spec fn fdpass_spec(name: Seq<u8>) -> Option<FdPassCmd> {
    if name == "import_fd".spec_bytes() {
        Some(FdPassCmd::ImportFd)
    } else if name == "export_fd".spec_bytes() {
        Some(FdPassCmd::ExportFd)
    } else {
        None
    }
}

pub fn dispatch(name: &[u8]) -> (r: Option<FdPassCmd>)
    ensures
        r == fdpass_spec(name@),
{
    if eq_bytes(name, "import_fd".as_bytes()) {
        Some(FdPassCmd::ImportFd)
    } else if eq_bytes(name, "export_fd".as_bytes()) {
        Some(FdPassCmd::ExportFd)
    } else {
        None
    }
}


/// `import_fd N`: the word naming the fd to import.
pub open spec fn import_fd_arg_spec(args: Seq<Seq<u8>>) -> Result<Seq<u8>, FdPassError> {
    if args.len() == 0 {
        Err(FdPassError::MissingArg)
    } else {
        Ok(args[0])
    }
}

pub fn import_fd_arg(args: &[Vec<u8>]) -> (r: Result<Vec<u8>, FdPassError>)
    ensures
        vres(r) == import_fd_arg_spec(arg_views(args@)),
{
    if args.len() == 0 {
        return Err(FdPassError::MissingArg);
    }
    assert(arg_views(args@)[0] == args@[0]@);
    Ok(args[0].clone())
}

/// `export_fd %var` sends the variable's fd tagged with its name;
/// `export_fd TAG %var` with `TAG`, which may not hold `%`. Any other number
/// of words is a missing argument. Gives the variable and the tag.
pub open spec fn export_fd_args_spec(args: Seq<Seq<u8>>) -> Result<(Seq<u8>, Seq<u8>), FdPassError> {
    if args.len() == 1 {
        if args[0].len() > 0 && args[0][0] == 0x25u8 {
            Ok((args[0].drop_first(), args[0].drop_first()))
        } else {
            Err(FdPassError::InvalidName)
        }
    } else if args.len() == 2 {
        if args[0].contains(0x25u8) {
            Err(FdPassError::InvalidName)
        } else if args[1].len() > 0 && args[1][0] == 0x25u8 {
            Ok((args[1].drop_first(), args[0]))
        } else {
            Err(FdPassError::InvalidName)
        }
    } else {
        Err(FdPassError::MissingArg)
    }
}

pub fn export_fd_args(args: &[Vec<u8>]) -> (r: Result<(Vec<u8>, Vec<u8>), FdPassError>)
    ensures
        match r {
            Ok((v, t)) => export_fd_args_spec(arg_views(args@)) == Ok::<
                (Seq<u8>, Seq<u8>),
                FdPassError,
            >((v@, t@)),
            Err(e) => export_fd_args_spec(arg_views(args@)) == Err::<
                (Seq<u8>, Seq<u8>),
                FdPassError,
            >(e),
        },
{
    let ghost av = arg_views(args@);
    if args.len() == 1 {
        assert(av[0] == args@[0]@);
        match strip_byte_prefix(args[0].as_slice(), PERCENT) {
            Some(v) => {
                let tag = copy_range(v.as_slice(), 0, v.len());
                assert(tag@ =~= v@);
                Ok((v, tag))
            },
            None => Err(FdPassError::InvalidName),
        }
    } else if args.len() == 2 {
        assert(av[0] == args@[0]@ && av[1] == args@[1]@);
        if contains_byte(args[0].as_slice(), PERCENT) {
            return Err(FdPassError::InvalidName);
        }
        match strip_byte_prefix(args[1].as_slice(), PERCENT) {
            Some(v) => Ok((v, args[0].clone())),
            None => Err(FdPassError::InvalidName),
        }
    } else {
        Err(FdPassError::MissingArg)
    }
}

} // verus!
