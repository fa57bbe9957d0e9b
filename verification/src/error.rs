//! The error type shared by the packaging helpers.

use vstd::prelude::*;
use vstd::string::StringExecFns;

verus! {

/// What can go wrong in the helpers of this crate.
///
/// - `UnsupportedFormat`: a caller passed a package-format identifier that
///   is not one of the six supported ones; a configuration error, not an
///   environmental one.
/// - `NotFound`: resource discovery found no marker files at all, so there
///   is nothing to copy; the build either is broken or does not use the
///   toolkit.
#[derive(Clone, Copy, Debug, PartialEq, Eq, Structural)]
pub enum Error {
    UnsupportedFormat,
    NotFound,
}

impl Error {
    /// A human-readable description, fixed per variant so that callers can
    /// tell the two conditions apart.
    pub fn message(&self) -> (r: String)
        ensures
            *self == Error::UnsupportedFormat ==> r@ == "Unsupported package format"@,
            *self == Error::NotFound ==> r@
                == "Missing resource paths: no `.path` files found in the Makepad build directory (./target/release/)"@,
    {
        match self {
            Error::UnsupportedFormat => String::from_str("Unsupported package format"),
            Error::NotFound => String::from_str(
                "Missing resource paths: no `.path` files found in the Makepad build directory (./target/release/)",
            ),
        }
    }
}

} // verus!
