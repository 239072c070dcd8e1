use vstd::prelude::*;
use crate::zone::{Axis, AxisRange};

verus! {

/// Caches the range of each axis the first time the device reports it.
#[derive(Clone, Copy, Debug)]
pub struct GeometryResolver {
    pub horizontal: Option<AxisRange>,
    pub vertical: Option<AxisRange>,
}

impl GeometryResolver {
    /// The cached range of `axis`, if it has been learned.
    pub open spec fn cached(&self, axis: Axis) -> Option<AxisRange> {
        match axis {
            Axis::Horizontal => self.horizontal,
            Axis::Vertical => self.vertical,
        }
    }

    /// A resolver that knows no axis yet.
    pub fn new() -> (r: GeometryResolver)
        ensures
            r.cached(Axis::Horizontal) is None,
            r.cached(Axis::Vertical) is None,
    {
        GeometryResolver { horizontal: None, vertical: None }
    }

    /// The cached range of `axis`; `None` means the device must be asked.
    pub fn range(&self, axis: Axis) -> (r: Option<AxisRange>)
        ensures
            r == self.cached(axis),
    {
        match axis {
            Axis::Horizontal => self.horizontal,
            Axis::Vertical => self.vertical,
        }
    }

    /// Resolves the range of `axis`. Once learned, a range is kept and
    /// returned, and `queried` (what the device reported this time) is
    /// ignored; before that, `queried` is cached, a failed query (`None`)
    /// leaving the axis unresolved.
    pub fn resolve(&mut self, axis: Axis, queried: Option<AxisRange>) -> (r: Option<AxisRange>)
        ensures
            old(self).cached(axis) is Some ==> r == old(self).cached(axis) && *final(self) == *old(
                self,
            ),
            old(self).cached(axis) is None ==> r == queried && final(self).cached(axis) == queried,
            forall|other: Axis| other != axis ==> final(self).cached(other) == old(self).cached(other),
    {
        match axis {
            Axis::Horizontal => {
                if self.horizontal.is_none() {
                    self.horizontal = queried;
                }
                self.horizontal
            },
            Axis::Vertical => {
                if self.vertical.is_none() {
                    self.vertical = queried;
                }
                self.vertical
            },
        }
    }
}

} // verus!
