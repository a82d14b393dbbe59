//! The library's error type.
use vstd::prelude::*;

verus! {

#[derive(Clone, Copy, Debug, PartialEq, Eq, Structural)]
pub enum JoshutoErrorKind {
    /// A filesystem error, reported as the operating system gave it.
    IOError,
    /// A missing or invalid argument, or an unknown flag.
    IOInvalidData,
    /// The home directory could not be resolved.
    EnvVarNotPresent,
    /// A malformed numeric argument.
    ParseError,
    /// A command name that is not a builtin.
    UnknownCommand,
    /// A background job is still running.
    WorkerBusy,
}

#[derive(Debug)]
pub struct JoshutoError {
    pub kind: JoshutoErrorKind,
    pub cause: String,
}

impl JoshutoError {
    pub fn new(kind: JoshutoErrorKind, cause: String) -> (r: Self)
        ensures
            r.kind == kind,
            r.cause@ == cause@,
    {
        JoshutoError { kind, cause }
    }

    pub fn kind(&self) -> (r: JoshutoErrorKind)
        ensures
            r == self.kind,
    {
        self.kind
    }

    pub fn cause(&self) -> (r: &str)
        ensures
            r@ == self.cause@,
    {
        self.cause.as_str()
    }
}

pub type JoshutoResult<T> = Result<T, JoshutoError>;

} // verus!
