//! Error kinds, and the status codes of the C API that they stand for.

use libc::c_int;
use vstd::prelude::*;

verus! {

/// `LUA_OK`: the call succeeded.
pub const LUA_OK: c_int = 0;

/// `LUA_YIELD`: the coroutine yielded.
pub const LUA_YIELD: c_int = 1;

/// `LUA_ERRRUN`: a runtime error.
pub const LUA_ERRRUN: c_int = 2;

/// `LUA_ERRSYNTAX`: a syntax error during compilation.
pub const LUA_ERRSYNTAX: c_int = 3;

/// `LUA_ERRMEM`: a memory allocation error.
pub const LUA_ERRMEM: c_int = 4;

/// `LUA_ERRGCMM`: an error while running a `__gc` metamethod.
pub const LUA_ERRGCMM: c_int = 5;

/// `LUA_ERRERR`: an error while running the message handler.
pub const LUA_ERRERR: c_int = 6;

/// Why an operation on the VM did not succeed.
#[derive(Clone, Copy, Debug, PartialEq, Eq, Hash, PartialOrd, Ord, Structural)]
pub enum Error {
    /// A runtime fault inside executing code.
    Runtime,
    /// The chunk did not compile.
    Syntax,
    /// The VM's allocator was exhausted.
    Memory,
    /// The byte source that supplies a chunk failed to produce bytes.
    IO,
    /// An error was raised while another error was being handled.
    ErrErr,
    /// A garbage-collection metamethod failed.
    GcMetamethod,
    /// A status code outside the table, or no classification at all.
    Unknown,
}

/// The result of an operation on the VM.
pub type Result<T> = core::result::Result<T, Error>;

impl Default for Error {
    fn default() -> (kind: Error)
        ensures
            kind == Error::Unknown,
    {
        Error::Unknown
    }
}

/// The status table: the error kind that a status code stands for, `None`
/// for success. Every code outside the table is `Unknown`, so a status that a
/// later runtime adds is never taken for success.
pub open spec fn status_error(code: c_int) -> Option<Error> {
    if code == LUA_OK {
        None
    } else if code == LUA_ERRRUN {
        Some(Error::Runtime)
    } else if code == LUA_ERRSYNTAX {
        Some(Error::Syntax)
    } else if code == LUA_ERRMEM {
        Some(Error::Memory)
    } else if code == LUA_ERRGCMM {
        Some(Error::GcMetamethod)
    } else if code == LUA_ERRERR {
        Some(Error::ErrErr)
    } else {
        Some(Error::Unknown)
    }
}

/// Whether the status table has an entry of its own for `code`.
pub open spec fn in_status_table(code: c_int) -> bool {
    code == LUA_OK || code == LUA_ERRRUN || code == LUA_ERRSYNTAX || code == LUA_ERRMEM
        || code == LUA_ERRGCMM || code == LUA_ERRERR
}

/// What a fallible operation returns for a status code: `Ok` for success,
/// else the error kind of the code.
pub open spec fn status_outcome(code: c_int) -> Result<()> {
    match status_error(code) {
        None => Ok(()),
        Some(kind) => Err(kind),
    }
}

/// Maps a status code of the C API to its error kind, `None` for success.
pub fn map_lua_error(code: c_int) -> (kind: Option<Error>)
    ensures
        kind == status_error(code),
{
    match code {
        0 => None,
        2 => Some(Error::Runtime),
        3 => Some(Error::Syntax),
        4 => Some(Error::Memory),
        5 => Some(Error::GcMetamethod),
        6 => Some(Error::ErrErr),
        _ => Some(Error::Unknown),
    }
}

/// Turns a status code into the result of the operation that returned it.
pub fn status_result(code: c_int) -> (r: Result<()>)
    ensures
        r == status_outcome(code),
{
    match map_lua_error(code) {
        None => Ok(()),
        Some(kind) => Err(kind),
    }
}

/// The status table is total, and only `LUA_OK` is success: a code outside
/// the table is `Unknown`, a code inside it is never `Unknown`, and no code
/// at all is `IO`, which is kept for failures of the byte source.
pub proof fn lemma_status_table(code: c_int)
    ensures
        status_error(code) is None <==> code == LUA_OK,
        status_error(code) == Some(Error::Unknown) <==> !in_status_table(code),
        status_error(code) != Some(Error::IO),
        status_outcome(code) is Ok <==> code == LUA_OK,
{
}

} // verus!
