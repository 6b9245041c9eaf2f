use vstd::prelude::*;

use crate::extension_list::ExtensionList;

verus! {

/// A resolved toolchain: its root directory and the extensions retained
/// from that root's extensions directory.
pub struct Toolchain {
    pub root: String,
    pub extensions: ExtensionList,
}

impl Toolchain {
    /// A toolchain over a resolved root and the extension list built from
    /// it.
    pub fn new(root: String, extensions: ExtensionList) -> (r: Self)
        ensures
            r.root == root,
            r.extensions == extensions,
    {
        Self { root, extensions }
    }

    pub fn extensions(&self) -> (r: &ExtensionList)
        ensures
            *r == self.extensions,
    {
        &self.extensions
    }
}

} // verus!
