use vstd::prelude::*;

use crate::extension::Extension;
use crate::loader::LoadError;
use crate::probe_api::ProbeResult;

verus! {

/// The handles among the per-file load results, in their original order.
pub open spec fn spec_loaded(results: Seq<Result<Extension, LoadError>>) -> Seq<Extension>
    decreases results.len(),
{
    if results.len() == 0 {
        Seq::empty()
    } else {
        let rest = spec_loaded(results.drop_last());
        match results.last() {
            Ok(ext) => rest.push(ext),
            Err(_) => rest,
        }
    }
}

/// The failures among the per-file load results, in their original order.
pub open spec fn spec_load_failures(results: Seq<Result<Extension, LoadError>>) -> Seq<LoadError>
    decreases results.len(),
{
    if results.len() == 0 {
        Seq::empty()
    } else {
        let rest = spec_load_failures(results.drop_last());
        match results.last() {
            Ok(_) => rest,
            Err(e) => rest.push(e),
        }
    }
}

/// Loading a batch of candidate files loses nothing: the handles kept and
/// the failures reported — one diagnostic each — add up to exactly the
/// number of candidates, so a batch where some fail the version checks
/// yields exactly the rest as handles.
pub proof fn lemma_partition_counts(results: Seq<Result<Extension, LoadError>>)
    ensures
        spec_loaded(results).len() + spec_load_failures(results).len() == results.len(),
    decreases results.len(),
{
    if results.len() > 0 {
        lemma_partition_counts(results.drop_last());
    }
}

/// Which probed extensions stay active: exactly those whose probe reported
/// `Success`, in their original order.
pub open spec fn spec_retained(
    extensions: Seq<Extension>,
    outcomes: Seq<ProbeResult>,
) -> Seq<Extension>
    decreases extensions.len(),
{
    if extensions.len() == 0 {
        Seq::empty()
    } else {
        let rest = spec_retained(extensions.drop_last(), outcomes.drop_last());
        if outcomes.last() is Success {
            rest.push(extensions.last())
        } else {
            rest
        }
    }
}

/// How many probes reported `Success`.
pub open spec fn spec_success_count(outcomes: Seq<ProbeResult>) -> int
    decreases outcomes.len(),
{
    if outcomes.len() == 0 {
        0
    } else {
        spec_success_count(outcomes.drop_last()) + if outcomes.last() is Success {
            1int
        } else {
            0int
        }
    }
}

/// An extension stays active only on the strength of its own probe: the
/// retained set has exactly one entry per `Success` outcome, and each of
/// its entries stands at a position whose outcome was `Success`.  An
/// extension whose probe reported `Failure` is excluded even though its
/// library loaded.
pub proof fn lemma_failure_excluded(extensions: Seq<Extension>, outcomes: Seq<ProbeResult>)
    requires
        extensions.len() == outcomes.len(),
    ensures
        spec_retained(extensions, outcomes).len() == spec_success_count(outcomes),
        forall|e: Extension| #[trigger]
            spec_retained(extensions, outcomes).contains(e) ==> exists|i: int|
                0 <= i < outcomes.len() && outcomes[i] is Success && extensions[i] == e,
    decreases extensions.len(),
{
    if extensions.len() > 0 {
        let exts = extensions.drop_last();
        let outs = outcomes.drop_last();
        lemma_failure_excluded(exts, outs);
        assert forall|e: Extension| #[trigger]
            spec_retained(extensions, outcomes).contains(e) implies exists|i: int|
            0 <= i < outcomes.len() && outcomes[i] is Success && extensions[i] == e by {
            if outcomes.last() is Success && e == extensions.last() {
                assert(outcomes[outcomes.len() - 1] is Success && extensions[extensions.len() - 1]
                    == e);
            } else {
                let r = spec_retained(extensions, outcomes);
                let rest = spec_retained(exts, outs);
                let j = choose|j: int| 0 <= j < r.len() && r[j] == e;
                assert(rest[j] == e);
                assert(rest.contains(e));
                let i = choose|i: int|
                    0 <= i < outs.len() && outs[i] is Success && exts[i] == e;
                assert(0 <= i < outcomes.len() && outcomes[i] is Success && extensions[i] == e);
            }
        }
    }
}

/// The ordered list of retained extensions — the sole source of truth for
/// which extensions are active.  It owns every handle, and with it every
/// callback negotiated from one; nothing with a shorter lifetime may keep
/// them.
pub struct ExtensionList {
    pub extensions: Vec<Extension>,
}

impl ExtensionList {
    /// Partition a batch of load results into the list of handles and the
    /// failures left for the embedder to report, one warning line each.  A
    /// batch with no candidates yields an empty list and no failures.
    pub fn new(results: Vec<Result<Extension, LoadError>>) -> (r: (ExtensionList, Vec<LoadError>))
        ensures
            r.0.extensions@ == spec_loaded(results@),
            r.1@ == spec_load_failures(results@),
            r.0.extensions@.len() + r.1@.len() == results@.len(),
    {
        let ghost orig = results@;
        let mut rest = results;
        let mut extensions: Vec<Extension> = Vec::new();
        let mut failures: Vec<LoadError> = Vec::new();
        let ghost mut k: int = 0;
        while rest.len() > 0
            invariant
                0 <= k <= orig.len(),
                rest@ == orig.skip(k),
                extensions@ == spec_loaded(orig.take(k)),
                failures@ == spec_load_failures(orig.take(k)),
            decreases rest@.len(),
        {
            let item = rest.remove(0);
            proof {
                assert(item == orig[k]);
                assert(orig.skip(k).remove(0) =~= orig.skip(k + 1));
                assert(orig.take(k + 1).drop_last() =~= orig.take(k));
                assert(orig.take(k + 1).last() == orig[k]);
            }
            match item {
                Ok(ext) => extensions.push(ext),
                Err(e) => failures.push(e),
            }
            proof {
                k = k + 1;
            }
        }
        proof {
            assert(orig.take(k) =~= orig);
            lemma_partition_counts(orig);
        }
        (ExtensionList { extensions }, failures)
    }

    /// Apply the probe outcomes, in order, to the listed extensions: an
    /// extension stays exactly when its probe reported `Success`.
    pub fn retain_probed(&mut self, outcomes: &Vec<ProbeResult>)
        requires
            old(self).extensions@.len() == outcomes@.len(),
        ensures
            final(self).extensions@ == spec_retained(old(self).extensions@, outcomes@),
    {
        let ghost orig = self.extensions@;
        let mut rest: Vec<Extension> = Vec::new();
        core::mem::swap(&mut rest, &mut self.extensions);
        let mut kept: Vec<Extension> = Vec::new();
        let mut i: usize = 0;
        let n: usize = outcomes.len();
        while rest.len() > 0
            invariant
                0 <= i <= orig.len(),
                orig.len() == outcomes@.len(),
                n == outcomes@.len(),
                rest@ == orig.skip(i as int),
                kept@ == spec_retained(orig.take(i as int), outcomes@.take(i as int)),
            decreases rest@.len(),
        {
            proof {
                assert(orig.skip(i as int).len() == orig.len() - i);
            }
            let ext = rest.remove(0);
            proof {
                assert(ext == orig[i as int]);
                assert(orig.skip(i as int).remove(0) =~= orig.skip(i + 1));
                assert(orig.take(i + 1).drop_last() =~= orig.take(i as int));
                assert(outcomes@.take(i + 1).drop_last() =~= outcomes@.take(i as int));
                assert(orig.take(i + 1).last() == orig[i as int]);
                assert(outcomes@.take(i + 1).last() == outcomes@[i as int]);
            }
            match outcomes[i] {
                ProbeResult::Success => kept.push(ext),
                ProbeResult::Failure => {},
            }
            i = i + 1;
        }
        proof {
            assert(orig.take(i as int) =~= orig);
            assert(outcomes@.take(i as int) =~= outcomes@);
        }
        self.extensions = kept;
    }
}

} // verus!
