use vstd::prelude::*;

use crate::api_info::ApiInfo;

verus! {

/// Identity of the demonstration callback capability as the host registers
/// it.
pub fn api_info() -> (r: ApiInfo)
    ensures
        r.name@ == "DummyApi"@,
        r.version == 1,
{
    ApiInfo::new("DummyApi", 1)
}

/// The callback record an extension hands to the host when it fulfils the
/// demonstration capability.  `entry_point` stands for the extension's entry
/// point function; only plain data crosses the boundary, so the embedder
/// resolves and invokes the function the token denotes.
#[derive(Clone, Copy, PartialEq, Eq, Structural, Debug)]
pub struct DummyCallbacks {
    pub entry_point: usize,
}

/// The host's working state behind the demonstration capability: a fixed
/// magic number handed out on request, and every number stored so far.
pub struct DummyApiImpl {
    pub magic_number: i32,
    pub numbers: Vec<i32>,
}

impl DummyApiImpl {
    pub fn new(magic_number: i32) -> (r: Self)
        ensures
            r.magic_number == magic_number,
            r.numbers@ == Seq::<i32>::empty(),
    {
        Self { magic_number, numbers: Vec::new() }
    }

    pub fn get_magic_number(&self) -> (r: i32)
        ensures
            r == self.magic_number,
    {
        self.magic_number
    }

    pub fn store_number(&mut self, value: i32)
        ensures
            final(self).magic_number == old(self).magic_number,
            final(self).numbers@ == old(self).numbers@.push(value),
    {
        self.numbers.push(value);
    }
}

/// The view of the demonstration capability an extension works through
/// while the host drives its entry point.
pub struct DummyApi {
    pub fns: DummyApiImpl,
}

impl DummyApi {
    pub fn get_magic_number(&self) -> (r: i32)
        ensures
            r == self.fns.magic_number,
    {
        self.fns.get_magic_number()
    }

    pub fn store_number(&mut self, value: i32)
        ensures
            final(self).fns.magic_number == old(self).fns.magic_number,
            final(self).fns.numbers@ == old(self).fns.numbers@.push(value),
    {
        self.fns.store_number(value);
    }
}

/// Wrap the host's working state for one call into an extension's entry
/// point.
pub fn create_dummy_api(fns: DummyApiImpl) -> (r: DummyApi)
    ensures
        r.fns == fns,
{
    DummyApi { fns }
}

} // verus!
