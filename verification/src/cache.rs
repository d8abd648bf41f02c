//! The disk cache of proof artifacts, as the pipeline decides over it.
//!
//! Artifacts are keyed by (stage kind, instance id, artifact name) mapped
//! to a file name; the cache trusts a present key entirely and never
//! validates the contents against the witness, so callers must use a
//! distinct name per distinct witness.  Reading, generating and persisting
//! are outside work; this module pins down the file naming and every
//! decision in between: a hit is returned at once, without invoking the
//! circuit adapter, and a fresh artifact is persisted only when a cache
//! directory was given.

use vstd::prelude::*;
use vstd::string::StringExecFns;
use crate::snark::{Snark, SnarkView};

verus! {

/// The cache file name of a proof artifact:
/// `{stage kind}_snark_{instance id}_{artifact name}.json`.
pub fn snark_cache_filename(kind: &str, id: &str, name: &str) -> (r: String)
    ensures
        r@ == kind@ + "_snark_"@ + id@ + "_"@ + name@ + ".json"@,
{
    let mut r = String::from_str(kind);
    r.append("_snark_");
    r.append(id);
    r.append("_");
    r.append(name);
    r.append(".json");
    r
}

/// What the load-or-generate pipeline step does next.
pub enum LoadOrGenStep {
    /// Look the key up in the cache directory.
    Lookup,
    /// Invoke the circuit adapter with the real witness.
    Generate,
    /// Persist this freshly generated artifact under the key, then return
    /// it.
    Persist(Snark),
    /// Return this artifact; the step is over.
    Done(Snark),
}

impl LoadOrGenStep {
    /// Whether this step returns `s` without any further work.
    pub open spec fn is_done_with(self, s: SnarkView) -> bool {
        match self {
            LoadOrGenStep::Done(r) => r@ == s,
            _ => false,
        }
    }
}

/// Begin a load-or-generate step: with a cache directory the cache is
/// consulted first; without one the adapter is invoked directly.
pub fn load_or_gen_start(use_cache: bool) -> (r: LoadOrGenStep)
    ensures
        use_cache ==> r is Lookup,
        !use_cache ==> r is Generate,
{
    if use_cache {
        LoadOrGenStep::Lookup
    } else {
        LoadOrGenStep::Generate
    }
}

/// Decide after the cache was consulted: an artifact found under the key
/// is returned as it is, with no recomputation and no validation against
/// the witness; a miss sends the step to the adapter.
pub fn on_cache_lookup(found: Option<Snark>) -> (r: LoadOrGenStep)
    ensures
        found is Some ==> r.is_done_with(found->0@),
        found is None ==> r is Generate,
{
    match found {
        Some(snark) => LoadOrGenStep::Done(snark),
        None => LoadOrGenStep::Generate,
    }
}

/// Decide after the adapter produced a fresh artifact: persist it first
/// when a cache directory was given, else return it at once.
pub fn on_generated(snark: Snark, use_cache: bool) -> (r: LoadOrGenStep)
    ensures
        use_cache ==> (r matches LoadOrGenStep::Persist(s) && s@ == snark@),
        !use_cache ==> r.is_done_with(snark@),
{
    if use_cache {
        LoadOrGenStep::Persist(snark)
    } else {
        LoadOrGenStep::Done(snark)
    }
}

/// Decide after persisting: the artifact is returned whether or not the
/// write succeeded, the write failure having been reported, not retried.
pub fn on_persisted(snark: Snark) -> (r: LoadOrGenStep)
    ensures
        r.is_done_with(snark@),
{
    LoadOrGenStep::Done(snark)
}

/// Cache idempotence: once an artifact is stored under a key, a step that
/// finds it ends at once with that very artifact — the circuit adapter is
/// not invoked.  A second call with the same key therefore returns a
/// structurally equal artifact without regenerating it.
pub proof fn lemma_cache_hit_skips_adapter(found: Snark, r: LoadOrGenStep)
    requires
        r.is_done_with(found@),
    ensures
        !(r is Generate),
        !(r is Persist),
        r matches LoadOrGenStep::Done(s) && s@ == found@,
{
}

} // verus!
