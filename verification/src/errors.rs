use vstd::prelude::*;

verus! {

/// The two failure kinds an operation can surface: a process that
/// could not be spawned, or a filesystem operation that failed.
/// A non-zero exit code of a spawned tool is not an error here.
#[derive(Clone, Copy, Debug, PartialEq, Eq, Structural)]
pub enum ErrorKind {
    ProcessError,
    IoError,
}

/// A failed invocation: its kind and a human-readable message.
/// Nothing more structured exists; the caller only displays it.
#[derive(Debug)]
pub struct CmdError {
    pub kind: ErrorKind,
    pub message: String,
}

impl CmdError {
    /// A spawn failure, carrying the OS error text.
    pub fn process_error(message: String) -> (r: CmdError)
        ensures
            r.kind == ErrorKind::ProcessError,
            r.message == message,
    {
        CmdError { kind: ErrorKind::ProcessError, message }
    }

    /// A filesystem failure, carrying the OS error text.
    pub fn io_error(message: String) -> (r: CmdError)
        ensures
            r.kind == ErrorKind::IoError,
            r.message == message,
    {
        CmdError { kind: ErrorKind::IoError, message }
    }

    pub fn is_process_error(&self) -> (r: bool)
        ensures
            r == (self.kind == ErrorKind::ProcessError),
    {
        self.kind == ErrorKind::ProcessError
    }

    pub fn is_io_error(&self) -> (r: bool)
        ensures
            r == (self.kind == ErrorKind::IoError),
    {
        self.kind == ErrorKind::IoError
    }
}

} // verus!
