//! The one failure this crate can report.

use vstd::prelude::*;

verus! {

/// A buffer handed to a record setter whose length does not match the fixed
/// width that the record's table schema declares. All other decoding in this
/// crate is total and cannot fail.
#[derive(Debug, Clone, Copy, PartialEq, Eq)]
pub enum DecodeError {
    LengthMismatch { actual: usize, expected: usize },
}

} // verus!
