//! What the host file calls are given and what their answers mean.

use vstd::prelude::*;

verus! {

/// The mode of an OPEN call that opens a file for reading as text.
pub const OPEN_MODE_READ: usize = 0;

/// The arguments, besides the address of the path, of an OPEN call on the
/// NUL-terminated `path`: the mode and the length of the name without its
/// terminator.
pub fn open_args(path: &[u8]) -> (args: (usize, usize))
    requires
        path@.len() >= 1,
    ensures
        args.0 == OPEN_MODE_READ,
        args.1 == path@.len() - 1,
{
    (OPEN_MODE_READ, path.len() - 1)
}

/// Reads the answer of an OPEN or FLEN call: the host answers `usize::MAX`
/// on failure, and the file handle or length otherwise.
pub fn handle_from_host(ret: usize) -> (r: Option<usize>)
    ensures
        ret == usize::MAX ==> r is None,
        ret != usize::MAX ==> r == Some(ret),
{
    if ret == usize::MAX {
        None
    } else {
        Some(ret)
    }
}

/// Reads the answer of a READ call, which is the number of bytes left
/// unread: the read succeeded when none are.
pub fn read_filled(unread: usize) -> (ok: bool)
    ensures
        ok == (unread == 0),
{
    unread == 0
}

} // verus!
