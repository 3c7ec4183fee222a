use vstd::prelude::*;

verus! {

/// Bookkeeping for a progressive renderer that adds a fixed number of
/// samples per pixel (`spp_stride`) on every pass and keeps a running
/// per-pixel average over `spp_current` accumulated samples.
///
/// The per-pixel floating-point accumulation itself is performed by the
/// caller; this type owns the sample counters and the termination rule.
pub struct IncrementalRenderer {
    pub spp_stride: u32,
    pub spp_current: u32,
    pub spp_bound: Option<u32>,
    pub jitter: bool,
}

impl IncrementalRenderer {
    /// True once the accumulated sample count has passed the configured
    /// bound; a renderer without a bound never finishes.
    pub open spec fn spec_finished(self) -> bool {
        match self.spp_bound {
            Some(bound) => self.spp_current > bound,
            None => false,
        }
    }

    pub fn new(stride: u32, bound: Option<u32>, jitter: bool) -> (r: Self)
        ensures
            r.spp_stride == stride,
            r.spp_current == 0,
            r.spp_bound == bound,
            r.jitter == jitter,
    {
        Self { spp_stride: stride, spp_current: 0, spp_bound: bound, jitter }
    }

    pub fn has_finished(&self) -> (r: bool)
        ensures
            r == self.spec_finished(),
    {
        if let Some(bound) = self.spp_bound {
            self.spp_current > bound
        } else {
            false
        }
    }

    /// Records that one full sampling pass has completed: every pixel has
    /// received `spp_stride` further samples.
    pub fn advance(&mut self)
        requires
            old(self).spp_current + old(self).spp_stride <= u32::MAX,
        ensures
            final(self).spp_current == old(self).spp_current + old(self).spp_stride,
            final(self).spp_stride == old(self).spp_stride,
            final(self).spp_bound == old(self).spp_bound,
            final(self).jitter == old(self).jitter,
    {
        self.spp_current = self.spp_current + self.spp_stride;
    }
}

} // verus!
