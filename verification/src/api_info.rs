use vstd::prelude::*;

verus! {

/// Identity of a capability: its fixed name and the version the host is
/// configured to serve it at.
pub struct ApiInfo {
    pub name: &'static str,
    pub version: usize,
}

impl ApiInfo {
    pub fn new(name: &'static str, version: usize) -> (r: Self)
        ensures
            r.name@ == name@,
            r.version == version,
    {
        Self { name, version }
    }
}

} // verus!
