//! The one failure the handle layer reports.

use vstd::prelude::*;

verus! {

/// The runtime failed a call and holds the exception against the current
/// thread.
///
/// The value carries nothing: type, value and traceback stay where the
/// runtime put them, untouched, for the caller to inspect or raise again.
#[derive(Clone, Copy, Debug, PartialEq, Eq, Structural)]
pub struct PyErr {}

/// The result of an operation the runtime may fail.
pub type PyResult<T> = Result<T, PyErr>;

} // verus!
