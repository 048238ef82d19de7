//! The ways in which formatting a file can fail.

use crate::stream::IoStream;
use vstd::prelude::*;

verus! {

/// A formatting error.
#[derive(Debug)]
pub enum Error {
    /// The formatting tool is missing from the toolchain.
    ToolMissing(&'static str),
    /// The formatting tool terminated with a failure exit code.
    ToolExecutionError {
        /// The exit code.
        code: i32,
        /// The stdout stream.
        stdout: IoStream,
        /// The stderr stream.
        stderr: IoStream,
    },
    /// An I/O error occurred.
    IoError(std::io::Error),
    /// No result code was obtained. This can happen on Unix systems when the process is
    /// terminated by a signal.
    NoResultCode,
}

/// The mathematical content of an [`Error`].
pub ghost enum ErrorView {
    ToolMissing(Seq<char>),
    ToolExecutionError { code: i32, stdout: Option<Seq<char>>, stderr: Option<Seq<char>> },
    IoError(std::io::Error),
    NoResultCode,
}

impl View for Error {
    type V = ErrorView;

    open spec fn view(&self) -> ErrorView {
        match self {
            Error::ToolMissing(name) => ErrorView::ToolMissing(name@),
            Error::ToolExecutionError { code, stdout, stderr } => ErrorView::ToolExecutionError {
                code: *code,
                stdout: stdout@,
                stderr: stderr@,
            },
            Error::IoError(cause) => ErrorView::IoError(*cause),
            Error::NoResultCode => ErrorView::NoResultCode,
        }
    }
}

/// The mathematical content of the result of a run.
pub open spec fn result_view(result: Result<(), Error>) -> Result<(), ErrorView> {
    match result {
        Ok(()) => Ok(()),
        Err(error) => Err(error@),
    }
}

} // verus!
