//! Failures of a run and the exit codes that report them.
//!
//! The codes follow the conventions of POSIX shells: 126 for a command that
//! may not be executed, 127 for one that is not found, and 128 plus the
//! signal number for a command that a signal terminated.

use vstd::prelude::*;

verus! {

/// Exit code of a failure that has no more specific code.
pub const EXIT_FAILURE: i32 = 1;

/// Exit code of an operation that was not permitted.
pub const EXIT_NOT_PERMITTED: i32 = 126;

/// Exit code of an operation on something that does not exist.
pub const EXIT_NOT_FOUND: i32 = 127;

/// Added to the number of the signal that terminated a command.
pub const EXIT_SIGNAL_BASE: i32 = 128;

/// Signal number reported where the platform tells neither an exit code nor
/// a signal: that of an interactive interrupt.
pub const FALLBACK_SIGNAL: i32 = 2;

/// What the exit code needs to know of a failed input/output operation.
#[derive(Clone, Copy, Debug, PartialEq, Eq, Structural)]
pub enum IoErrorKind {
    /// The operation lacked the permission to complete.
    PermissionDenied,
    /// A file or directory was not found.
    NotFound,
    /// Any other failure.
    Other,
}

/// What the exit code needs to know of a failed call of the operating
/// system, told apart by its error number.
#[derive(Clone, Copy, Debug, PartialEq, Eq, Structural)]
pub enum OsErrorKind {
    /// "Operation not permitted".
    NotPermitted,
    /// "No such file or directory".
    NoEntry,
    /// Any other error number.
    Other,
}

/// A failure that ends a run.
#[derive(Debug, PartialEq, Eq)]
pub enum Error {
    /// There is no command to run.
    NoCommand,
    /// A path holds bytes that the platform does not take as a path.
    Utf8,
    /// The name of a directory is not valid text; the raw name is kept.
    Utf8Invalid(Vec<u8>),
    /// The command was terminated by the signal of this number.
    TerminatedBySignal(i32),
    /// An input/output operation failed.
    Io(IoErrorKind),
    /// A call of the operating system failed.
    Os(OsErrorKind),
}

/// The mathematical value of an [`Error`].
pub enum ErrorView {
    NoCommand,
    Utf8,
    Utf8Invalid(Seq<u8>),
    TerminatedBySignal(int),
    Io(IoErrorKind),
    Os(OsErrorKind),
}

impl View for Error {
    type V = ErrorView;

    open spec fn view(&self) -> ErrorView {
        match *self {
            Error::NoCommand => ErrorView::NoCommand,
            Error::Utf8 => ErrorView::Utf8,
            Error::Utf8Invalid(name) => ErrorView::Utf8Invalid(name@),
            Error::TerminatedBySignal(signal) => ErrorView::TerminatedBySignal(signal as int),
            Error::Io(kind) => ErrorView::Io(kind),
            Error::Os(kind) => ErrorView::Os(kind),
        }
    }
}

/// The exit code that reports a failed input/output operation.
pub open spec fn io_exit_code(kind: IoErrorKind) -> int {
    match kind {
        IoErrorKind::PermissionDenied => 126,
        IoErrorKind::NotFound => 127,
        IoErrorKind::Other => 1,
    }
}

/// The exit code that reports a failed call of the operating system.
pub open spec fn os_exit_code(kind: OsErrorKind) -> int {
    match kind {
        OsErrorKind::NotPermitted => 126,
        OsErrorKind::NoEntry => 127,
        OsErrorKind::Other => 1,
    }
}

/// The exit code that reports a failure.
pub open spec fn exit_code_of(error: ErrorView) -> int {
    match error {
        ErrorView::NoCommand => 1,
        ErrorView::Utf8 => 1,
        ErrorView::Utf8Invalid(_) => 1,
        ErrorView::TerminatedBySignal(signal) => 128 + signal,
        ErrorView::Io(kind) => io_exit_code(kind),
        ErrorView::Os(kind) => os_exit_code(kind),
    }
}

/// The mathematical value of the result of a run.
pub open spec fn outcome_of(result: Result<i32, Error>) -> Result<i32, ErrorView> {
    match result {
        Ok(code) => Ok(code),
        Err(error) => Err(error@),
    }
}

/// The exit code of a run: that of the command where it ran to its end,
/// else the code that reports the failure.
pub open spec fn conclusion_of(result: Result<i32, ErrorView>) -> int {
    match result {
        Ok(code) => code as int,
        Err(error) => exit_code_of(error),
    }
}

/// What the termination of a command amounts to, given the exit code and
/// the signal number that the platform reports, each if it reports one.
pub open spec fn termination_of(code: Option<i32>, signal: Option<i32>) -> Result<i32, ErrorView> {
    match code {
        Some(code) => Ok(code),
        None => match signal {
            Some(signal) => Err(ErrorView::TerminatedBySignal(signal as int)),
            None => Err(ErrorView::TerminatedBySignal(FALLBACK_SIGNAL as int)),
        },
    }
}

impl IoErrorKind {
    /// The exit code that reports this kind of failure.
    pub fn exit_code(self) -> (code: i32)
        ensures
            code == io_exit_code(self),
    {
        match self {
            IoErrorKind::PermissionDenied => EXIT_NOT_PERMITTED,
            IoErrorKind::NotFound => EXIT_NOT_FOUND,
            IoErrorKind::Other => EXIT_FAILURE,
        }
    }
}

impl OsErrorKind {
    /// The exit code that reports this kind of failure.
    pub fn exit_code(self) -> (code: i32)
        ensures
            code == os_exit_code(self),
    {
        match self {
            OsErrorKind::NotPermitted => EXIT_NOT_PERMITTED,
            OsErrorKind::NoEntry => EXIT_NOT_FOUND,
            OsErrorKind::Other => EXIT_FAILURE,
        }
    }
}

impl Error {
    /// Whether the exit code of this failure is a number that `i32` holds.
    /// It is, but for a signal number within 128 of the largest `i32`.
    pub open spec fn reportable(&self) -> bool {
        exit_code_of(self@) <= i32::MAX
    }

    /// The exit code that reports this failure, if `i32` holds it.
    pub fn checked_exit_code(&self) -> (code: Option<i32>)
        ensures
            code is Some <==> self.reportable(),
            code matches Some(value) ==> value == exit_code_of(self@),
    {
        match self {
            Error::TerminatedBySignal(signal) => EXIT_SIGNAL_BASE.checked_add(*signal),
            Error::Io(kind) => Some(kind.exit_code()),
            Error::Os(kind) => Some(kind.exit_code()),
            _ => Some(EXIT_FAILURE),
        }
    }

    /// The exit code that reports this failure.
    pub fn exit_code(&self) -> (code: i32)
        requires
            self.reportable(),
        ensures
            code == exit_code_of(self@),
    {
        match self {
            Error::NoCommand => EXIT_FAILURE,
            Error::Utf8 => EXIT_FAILURE,
            Error::Utf8Invalid(_) => EXIT_FAILURE,
            Error::TerminatedBySignal(signal) => EXIT_SIGNAL_BASE + *signal,
            Error::Io(kind) => kind.exit_code(),
            Error::Os(kind) => kind.exit_code(),
        }
    }
}

/// Reads the termination of a command: its exit code where the platform
/// reports one, else the failure that names the signal which terminated
/// it, with the number of an interactive interrupt where none is known.
pub fn termination(code: Option<i32>, signal: Option<i32>) -> (result: Result<i32, Error>)
    ensures
        outcome_of(result) == termination_of(code, signal),
{
    match code {
        Some(code) => Ok(code),
        None => match signal {
            Some(signal) => Err(Error::TerminatedBySignal(signal)),
            None => Err(Error::TerminatedBySignal(FALLBACK_SIGNAL)),
        },
    }
}

/// The exit code of a run whose result is `result`.
pub fn conclude(result: Result<i32, Error>) -> (code: i32)
    requires
        result matches Err(error) ==> error.reportable(),
    ensures
        code == conclusion_of(outcome_of(result)),
{
    match result {
        Ok(code) => code,
        Err(error) => error.exit_code(),
    }
}

/// A command that exits with a code of its own has that code reported
/// unchanged, and a command that a signal terminates has 128 plus the
/// number of that signal reported.
pub proof fn lemma_termination_exit_code(code: Option<i32>, signal: Option<i32>)
    ensures
        code matches Some(value) ==> conclusion_of(termination_of(code, signal)) == value,
        code is None ==> (signal matches Some(number) ==> conclusion_of(
            termination_of(code, signal),
        ) == 128 + number),
        code is None && signal is None ==> conclusion_of(termination_of(code, signal)) == 128
            + FALLBACK_SIGNAL,
{
}

/// Every exit code that reports a failure other than a termination by
/// signal is 1, 126 or 127.
pub proof fn lemma_failure_exit_codes(error: ErrorView)
    requires
        !(error is TerminatedBySignal),
    ensures
        exit_code_of(error) == 1 || exit_code_of(error) == 126 || exit_code_of(error) == 127,
{
}

} // verus!
