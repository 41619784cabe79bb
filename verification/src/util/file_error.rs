//! Errors with the file that caused them.

use vstd::prelude::*;

verus! {

/// An error and the input file that it belongs to.
#[derive(Debug)]
pub struct FileError<E> {
    pub file: String,
    pub error: E,
}

/// Attaches the file to an error.
pub trait ErrorWithFile: Sized {
    /// The error with the file it belongs to.
    fn with_file(self, file: &str) -> (attached: FileError<Self>)
        ensures
            attached.file@ == file@,
            attached.error == self,
    ;
}

impl<E> ErrorWithFile for E {
    fn with_file(self, file: &str) -> (attached: FileError<Self>) {
        FileError { file: String::from_str(file), error: self }
    }
}

/// Attaches the file to the error in a `Result`.
pub trait ResultWithFile<T, E>: Sized {
    /// The result as it is.
    spec fn result(self) -> Result<T, E>;

    /// The result with the file attached to its error; a success stays as
    /// it is.
    fn with_file(self, file: &str) -> (attached: Result<T, FileError<E>>)
        ensures
            match self.result() {
                Ok(value) => attached == Ok::<T, FileError<E>>(value),
                Err(error) => attached matches Err(attached) && attached.file@ == file@
                    && attached.error == error,
            },
    ;
}

impl<T, E> ResultWithFile<T, E> for Result<T, E> {
    open spec fn result(self) -> Result<T, E> {
        self
    }

    fn with_file(self, file: &str) -> (attached: Result<T, FileError<E>>) {
        match self {
            Ok(value) => Ok(value),
            Err(error) => Err(FileError { file: String::from_str(file), error }),
        }
    }
}

impl<E> FileError<E> {
    /// The line that reports the error, given the text of the error: the
    /// file, a colon and a blank, and the text.
    pub fn line(&self, error_text: &str) -> (line: String)
        ensures
            line@ == self.file@ + ": "@ + error_text@,
    {
        let mut line = self.file.clone();
        line.append(": ");
        line.append(error_text);
        line
    }
}

} // verus!
