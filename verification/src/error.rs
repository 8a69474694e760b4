//! The error taxonomy shared by the whole library.

use vstd::prelude::*;

verus! {

/// Every failure the library reports.
///
/// - `InvalidHandle`: a guard was invalidated and a use-after-release was
///   attempted (or a dependent resource's parent is no longer valid).
/// - `NativeCallFailed`: the native layer reported a non-success status; the
///   native status code is preserved for diagnostics.
/// - `NotFound`: a lookup by identifier matched nothing.
/// - `BuildError`: local value construction failed before any native call
///   (for example, a string that cannot cross the C boundary).
#[derive(Clone, Copy, Debug, PartialEq, Eq, Structural)]
pub enum Error {
    InvalidHandle,
    NativeCallFailed { code: i32 },
    NotFound,
    BuildError,
}

} // verus!
