use vstd::prelude::*;

verus! {

/// A version check that did not pass: the version that was asked for and
/// the one actually supported.
#[derive(Clone, Copy, PartialEq, Eq, Structural, Debug)]
pub struct UnsupportedVersionError {
    pub requested_version: usize,
    pub supported_version: usize,
}

impl UnsupportedVersionError {
    pub fn new(requested_version: usize, supported_version: usize) -> (r: Self)
        ensures
            r.requested_version == requested_version,
            r.supported_version == supported_version,
    {
        UnsupportedVersionError { requested_version, supported_version }
    }
}

} // verus!
