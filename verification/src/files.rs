use vstd::prelude::*;
use crate::errors::{CmdError, ErrorKind};

verus! {

/// The model of the filesystem the two file operations rely on: a map
/// from paths to text contents. A path is in the map exactly when a
/// readable file exists there.
pub open spec fn store_write(
    store: Map<Seq<char>, Seq<char>>,
    path: Seq<char>,
    content: Seq<char>,
) -> Map<Seq<char>, Seq<char>> {
    store.insert(path, content)
}

pub open spec fn store_read(store: Map<Seq<char>, Seq<char>>, path: Seq<char>) -> Option<
    Seq<char>,
> {
    if store.dom().contains(path) {
        Option::Some(store[path])
    } else {
        Option::None
    }
}

/// Law: writing a file and then reading the same path yields exactly
/// the text that was written, whatever it was — empty, or with
/// newlines — and whatever stood at the path before.
pub proof fn lemma_write_then_read(
    store: Map<Seq<char>, Seq<char>>,
    path: Seq<char>,
    content: Seq<char>,
)
    ensures
        store_read(store_write(store, path, content), path) == Option::Some(content),
{
}

/// Law: reading a path where no file exists yields nothing; only the
/// error path of the read operation can follow.
pub proof fn lemma_read_absent(store: Map<Seq<char>, Seq<char>>, path: Seq<char>)
    requires
        !store.dom().contains(path),
    ensures
        store_read(store, path) is None,
{
}

/// Law: a write touches no other path: reading any different path
/// afterwards sees what it saw before.
pub proof fn lemma_write_other_path(
    store: Map<Seq<char>, Seq<char>>,
    path: Seq<char>,
    content: Seq<char>,
    other: Seq<char>,
)
    requires
        other != path,
    ensures
        store_read(store_write(store, path, content), other) == store_read(store, other),
{
}

/// Turns what the shell observed of a whole-file read into the
/// operation's result: the text read through unchanged, or an
/// `IoError` carrying the OS error text (missing file, permission
/// denied, invalid encoding). A read that produced no text is never a
/// success.
pub fn read_file_result(outcome: Result<String, String>) -> (r: Result<String, CmdError>)
    ensures
        (outcome matches Ok(text) ==> (r matches Ok(t) && t == text)),
        (outcome matches Err(m) ==> (r matches Err(e) && e.kind == ErrorKind::IoError
            && e.message == m)),
{
    match outcome {
        Ok(text) => Ok(text),
        Err(m) => Err(CmdError::io_error(m)),
    }
}

/// Turns what the shell observed of a whole-file overwrite into the
/// operation's result: unit on success, or an `IoError` carrying the
/// OS error text (permission denied, parent directory missing).
pub fn write_file_result(outcome: Result<(), String>) -> (r: Result<(), CmdError>)
    ensures
        (outcome is Ok ==> r is Ok),
        (outcome matches Err(m) ==> (r matches Err(e) && e.kind == ErrorKind::IoError
            && e.message == m)),
{
    match outcome {
        Ok(u) => Ok(u),
        Err(m) => Err(CmdError::io_error(m)),
    }
}

} // verus!
