//! The error kinds that session operations report.

use vstd::prelude::*;

verus! {

/// Everything that can go wrong in this library.
///
/// All errors are returned to the caller synchronously; nothing is retried.
#[derive(Debug, Clone, PartialEq, Eq)]
pub enum Error {
    /// A session was requested with zero (or fewer) lines.
    InvalidLineCount,
    /// A percentage or slider value above 100.
    OutOfRangePercentage,
    /// The native library reported a failure; the payload is the message
    /// read from its diagnostic channel.
    NativeError(String),
    /// A queried native string was unexpectedly absent.
    NullPointer,
    /// A caller-supplied string cannot take the native form because it
    /// holds an embedded NUL terminator.
    StringConversionError,
    /// A native numeric result does not fit the narrower type this
    /// library returns.
    NumericConversionError,
}

} // verus!
