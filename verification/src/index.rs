//! From the index that the user writes to a position in the task list.
//!
//! The user counts tasks from one; the list counts them from zero.

use vstd::prelude::*;
use crate::number::{parse_number, read_number, Magnitude};

verus! {

/// Why an index argument names no task.
#[derive(Debug, Clone, Copy, PartialEq, Eq, Structural)]
pub enum IndexError {
    /// No index was given.
    MissingIndexArgument,
    /// What was given is not a decimal numeral.
    InvalidIndexFormat,
    /// The numeral is zero or greater than the number of tasks.
    IndexOutOfRange,
}

/// The characters of an argument that may be absent.
pub open spec fn arg_view(arg: Option<&str>) -> Option<Seq<char>> {
    match arg {
        Some(text) => Some(text@),
        None => None,
    }
}

/// The position that `arg` names in a list of `len` tasks.
///
/// The numerals `1` to `len` name the positions `0` to `len - 1`; every other
/// argument is an error.
pub open spec fn index_of(arg: Option<Seq<char>>, len: nat) -> Result<nat, IndexError> {
    match arg {
        None => Err(IndexError::MissingIndexArgument),
        Some(text) => match parse_number(text) {
            None => Err(IndexError::InvalidIndexFormat),
            Some(n) => if 1 <= n <= len {
                Ok((n - 1) as nat)
            } else {
                Err(IndexError::IndexOutOfRange)
            },
        },
    }
}

/// Resolves the index argument of a command against a list of `len` tasks.
pub fn resolve_index(arg: Option<&str>, len: usize) -> (resolved: Result<usize, IndexError>)
    ensures
        match resolved {
            Ok(i) => index_of(arg_view(arg), len as nat) == Ok::<nat, IndexError>(i as nat),
            Err(e) => index_of(arg_view(arg), len as nat) == Err::<nat, IndexError>(e),
        },
{
    match arg {
        None => Err(IndexError::MissingIndexArgument),
        Some(text) => match read_number(text) {
            None => Err(IndexError::InvalidIndexFormat),
            Some(Magnitude::Exceeds) => Err(IndexError::IndexOutOfRange),
            Some(Magnitude::Fits(n)) => if 1 <= n && n <= len {
                Ok(n - 1)
            } else {
                Err(IndexError::IndexOutOfRange)
            },
        },
    }
}

impl IndexError {
    /// The sentence that reports this error.
    pub open spec fn message_text(self) -> Seq<char> {
        match self {
            IndexError::MissingIndexArgument => "Missing argument"@,
            IndexError::InvalidIndexFormat => "Invalid index"@,
            IndexError::IndexOutOfRange => "Index out of range"@,
        }
    }

    /// The sentence that reports this error.
    pub fn message(&self) -> (text: String)
        ensures
            text@ == self.message_text(),
    {
        match self {
            IndexError::MissingIndexArgument => "Missing argument".to_owned(),
            IndexError::InvalidIndexFormat => "Invalid index".to_owned(),
            IndexError::IndexOutOfRange => "Index out of range".to_owned(),
        }
    }
}

} // verus!
