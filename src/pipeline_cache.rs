use std::collections::HashMap;
use vstd::prelude::*;

verus! {

broadcast use vstd::std_specs::hash::group_hash_axioms;

/// The pipelines built so far, at most one per output pixel format; `format`
/// is the caller's integer code for a color-target format.
pub struct PipelineCache<S> {
    pipelines: HashMap<u32, S>,
}

/// The cache after offering it `pipeline` for `format`: an entry already
/// there is kept, never rebuilt or replaced.
pub open spec fn with_pipeline<S>(m: Map<u32, S>, format: u32, pipeline: S) -> Map<u32, S> {
    if m.contains_key(format) {
        m
    } else {
        m.insert(format, pipeline)
    }
}

impl<S> View for PipelineCache<S> {
    type V = Map<u32, S>;

    closed spec fn view(&self) -> Map<u32, S> {
        self.pipelines@
    }
}

impl<S> PipelineCache<S> {
    pub fn new() -> (r: PipelineCache<S>)
        ensures
            r@ == Map::<u32, S>::empty(),
    {
        PipelineCache { pipelines: HashMap::new() }
    }

    /// Whether a pipeline for `format` has been built.
    pub fn contains(&self, format: u32) -> (r: bool)
        ensures
            r == self@.contains_key(format),
    {
        self.pipelines.contains_key(&format)
    }

    /// The pipeline built for `format`, if any.
    pub fn get(&self, format: u32) -> (r: Option<&S>)
        ensures
            r is Some <==> self@.contains_key(format),
            r is Some ==> *r.unwrap() == self@[format],
    {
        self.pipelines.get(&format)
    }

    /// Keeps `pipeline` for `format` unless one is there already.
    pub fn insert_if_absent(&mut self, format: u32, pipeline: S)
        ensures
            final(self)@ == with_pipeline(old(self)@, format, pipeline),
    {
        if !self.pipelines.contains_key(&format) {
            self.pipelines.insert(format, pipeline);
        }
    }
}

/// A format's pipeline is built once: after a pipeline for `format` has been
/// offered to the cache, the cache holds one for it, and offering another
/// changes nothing.
pub proof fn lemma_pipeline_built_once<S>(m: Map<u32, S>, format: u32, first: S, second: S)
    ensures
        with_pipeline(m, format, first).contains_key(format),
        with_pipeline(with_pipeline(m, format, first), format, second) == with_pipeline(
            m,
            format,
            first,
        ),
{
}

} // verus!
