use vstd::prelude::*;

use crate::extension::Extension;
use crate::toolchain::Toolchain;

verus! {

/// A feature the pipeline requires its extensions to provide.
#[derive(Clone, Copy, PartialEq, Eq, Structural, Debug)]
pub enum ExtensionFeature {
    DummyFeature,
}

/// The entry-point tokens of every extension that fulfilled the
/// demonstration capability, in extension order.
pub open spec fn spec_dummy_entry_points(extensions: Seq<Extension>) -> Seq<usize>
    decreases extensions.len(),
{
    if extensions.len() == 0 {
        Seq::empty()
    } else {
        let rest = spec_dummy_entry_points(extensions.drop_last());
        match extensions.last().api_callbacks.dummy_api_callbacks {
            Some(callbacks) => rest.push(callbacks.entry_point),
            None => rest,
        }
    }
}

/// Builds a compile pipeline over a toolchain.  Requiring a feature
/// gathers the entry points the embedder must drive before the pipeline is
/// finalised; only plain tokens are gathered, since the calls themselves
/// cross the binary boundary.
pub struct PipelineBuilder {
    pub toolchain: Toolchain,
    /// Entry-point tokens of the required features, in the order they must
    /// be driven.
    pub pending_entry_points: Vec<usize>,
}

/// A finalised compile pipeline.
pub struct Pipeline {
    pub toolchain: Toolchain,
}

impl PipelineBuilder {
    pub fn new(toolchain: Toolchain) -> (r: Self)
        ensures
            r.toolchain == toolchain,
            r.pending_entry_points@.len() == 0,
    {
        Self { toolchain, pending_entry_points: Vec::new() }
    }

    /// Require a feature of the toolchain's extensions: the entry points of
    /// every extension providing it are appended, in extension order, to
    /// the pending list for the embedder to drive.
    pub fn require_feature(self, feature: ExtensionFeature) -> (r: Self)
        ensures
            r.toolchain == self.toolchain,
            r.pending_entry_points@ == self.pending_entry_points@ + spec_dummy_entry_points(
                self.toolchain.extensions.extensions@,
            ),
    {
        match feature {
            ExtensionFeature::DummyFeature => self.set_up_dummy_feature(),
        }
    }

    fn set_up_dummy_feature(self) -> (r: Self)
        ensures
            r.toolchain == self.toolchain,
            r.pending_entry_points@ == self.pending_entry_points@ + spec_dummy_entry_points(
                self.toolchain.extensions.extensions@,
            ),
    {
        let mut out = self;
        let ghost exts = out.toolchain.extensions.extensions@;
        let ghost base = out.pending_entry_points@;
        let mut i: usize = 0;
        while i < out.toolchain.extensions.extensions.len()
            invariant
                i <= exts.len(),
                out.toolchain == self.toolchain,
                exts == out.toolchain.extensions.extensions@,
                out.pending_entry_points@ == base + spec_dummy_entry_points(
                    exts.take(i as int),
                ),
        decreases exts.len() - i,
        {
            match out.toolchain.extensions.extensions[i].api_callbacks.dummy_api_callbacks {
                Some(callbacks) => {
                    out.pending_entry_points.push(callbacks.entry_point);
                },
                None => {},
            }
            proof {
                assert(exts.take(i + 1).drop_last() =~= exts.take(i as int));
                assert(exts.take(i + 1).last() == exts[i as int]);
            }
            i = i + 1;
        }
        proof {
            assert(exts.take(i as int) =~= exts);
        }
        out
    }

    /// Finish building: the pipeline owns the toolchain from here on.
    pub fn finalise(self) -> (r: Pipeline)
        ensures
            r.toolchain == self.toolchain,
    {
        Pipeline { toolchain: self.toolchain }
    }
}

} // verus!
