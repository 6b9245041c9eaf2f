use vstd::prelude::*;

use crate::extension::Extension;

verus! {

/// Why the library state could not be changed.
#[derive(Clone, Copy, PartialEq, Eq, Structural, Debug)]
pub enum StateError {
    /// The state was initialised earlier and is still live.
    AlreadyInitialised,
}

/// The library's process-wide state: the active extensions and the
/// settings of the running toolchain.  The embedder keeps the one live
/// value of this type and threads it through calls; `initialise` and
/// `destroy` are the only transitions, taken under the embedder's
/// single-writer discipline.
pub struct LibState {
    pub extensions: Vec<Extension>,
    /// Whether this value is a live, initialised state; readers must be
    /// handed only a live state.
    pub valid: bool,
    pub toolchain_root: String,
    pub verbose: bool,
}

impl Default for LibState {
    fn default() -> (r: LibState)
        ensures
            !r.valid,
            r.extensions@.len() == 0,
            r.toolchain_root@.len() == 0,
            !r.verbose,
    {
        LibState {
            valid: false,
            toolchain_root: String::new(),
            extensions: Vec::new(),
            verbose: false,
        }
    }
}

impl LibState {
    /// A live state over a resolved toolchain root and the extensions
    /// retained from it.
    pub fn new(toolchain_root: String, extensions: Vec<Extension>) -> (r: LibState)
        ensures
            r.valid,
            r.toolchain_root == toolchain_root,
            r.extensions == extensions,
            !r.verbose,
    {
        LibState { valid: true, toolchain_root, extensions, verbose: false }
    }

    pub fn is_valid(&self) -> (r: bool)
        ensures
            r == self.valid,
    {
        self.valid
    }

    pub fn verbose(&self) -> (r: bool)
        ensures
            r == self.verbose,
    {
        self.verbose
    }
}

/// Initialise the library state exactly once: a state that is already live
/// refuses a second initialisation and stands unchanged.
pub fn initialise(state: &mut LibState, toolchain_root: String, extensions: Vec<Extension>) -> (r:
    Result<(), StateError>)
    ensures
        old(state).valid ==> r == Err::<(), StateError>(StateError::AlreadyInitialised)
            && *final(state) == *old(state),
        !old(state).valid ==> r == Ok::<(), StateError>(()),
        !old(state).valid ==> final(state).valid,
        !old(state).valid ==> final(state).toolchain_root == toolchain_root,
        !old(state).valid ==> final(state).extensions == extensions,
        !old(state).valid ==> !final(state).verbose,
{
    if state.is_valid() {
        return Err(StateError::AlreadyInitialised);
    }
    *state = LibState::new(toolchain_root, extensions);
    Ok(())
}

/// Tear the library state down, releasing every extension it owned; the
/// state is afterwards as if never initialised.
pub fn destroy(state: &mut LibState) -> (r: Result<(), StateError>)
    ensures
        r is Ok,
        !final(state).valid,
        final(state).extensions@.len() == 0,
{
    *state = LibState::default();
    Ok(())
}

} // verus!
