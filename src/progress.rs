use vstd::prelude::*;

verus! {

/// Represents the progress that is being tracked.
///
/// It indicates how much work has been completed and how much is left to do.
/// When `done` reaches `total`, the progress is considered "ready".
///
/// Adding and subtracting progress values wraps around at the bounds of
/// `u32`, field by field.
#[derive(Debug, Clone, Copy, PartialEq, Eq, Structural)]
pub struct Progress {
    /// The units of work that have been completed.
    pub done: u32,
    /// The total units of work expected.
    pub total: u32,
}

/// Reduces an integer into the range of `u32`, as wrapping arithmetic does.
pub open spec fn wrap(x: int) -> u32 {
    (x % 0x1_0000_0000) as u32
}

impl Progress {
    /// The progress `0 / 0`.
    pub open spec fn zero() -> Progress {
        Progress { done: 0, total: 0 }
    }

    /// Field-wise wrapping sum of two progress values.
    pub open spec fn plus(self, other: Progress) -> Progress {
        Progress { done: wrap(self.done + other.done), total: wrap(self.total + other.total) }
    }

    /// Field-wise wrapping difference of two progress values.
    pub open spec fn minus(self, other: Progress) -> Progress {
        Progress { done: wrap(self.done - other.done), total: wrap(self.total - other.total) }
    }

    /// Readiness: `done` has reached `total`.
    pub open spec fn ready(self) -> bool {
        self.done >= self.total
    }

    /// Returns true if `done` has reached `total`.
    pub fn is_ready(self) -> (r: bool)
        ensures
            r == self.ready(),
    {
        self.done >= self.total
    }

    /// Adds the fields of `other` to those of `self`, wrapping around on
    /// overflow.
    pub fn wrapping_add(self, other: Progress) -> (r: Progress)
        ensures
            r == self.plus(other),
    {
        Progress {
            done: self.done.wrapping_add(other.done),
            total: self.total.wrapping_add(other.total),
        }
    }

    /// Subtracts the fields of `other` from those of `self`, wrapping around
    /// on underflow.
    pub fn wrapping_sub(self, other: Progress) -> (r: Progress)
        ensures
            r == self.minus(other),
    {
        Progress {
            done: self.done.wrapping_sub(other.done),
            total: self.total.wrapping_sub(other.total),
        }
    }
}

impl Default for Progress {
    fn default() -> (r: Progress)
        ensures
            r == Progress::zero(),
    {
        Progress { done: 0, total: 0 }
    }
}

impl From<bool> for Progress {
    /// `true` is one unit of work out of one, `false` none out of one.
    fn from(b: bool) -> (r: Progress) {
        Progress { done: if b { 1 } else { 0 }, total: 1 }
    }
}

impl vstd::std_specs::convert::FromSpecImpl<bool> for Progress {
    open spec fn obeys_from_spec() -> bool {
        true
    }

    open spec fn from_spec(b: bool) -> Progress {
        Progress { done: if b { 1 } else { 0 }, total: 1 }
    }
}

impl std::ops::Add for Progress {
    type Output = Progress;

    fn add(self, other: Progress) -> (r: Progress) {
        self.wrapping_add(other)
    }
}

impl vstd::std_specs::ops::AddSpecImpl for Progress {
    open spec fn obeys_add_spec() -> bool {
        true
    }

    open spec fn add_req(self, other: Progress) -> bool {
        true
    }

    open spec fn add_spec(self, other: Progress) -> Progress {
        self.plus(other)
    }
}

impl std::ops::Sub for Progress {
    type Output = Progress;

    fn sub(self, other: Progress) -> (r: Progress) {
        self.wrapping_sub(other)
    }
}

impl vstd::std_specs::ops::SubSpecImpl for Progress {
    open spec fn obeys_sub_spec() -> bool {
        true
    }

    open spec fn sub_req(self, other: Progress) -> bool {
        true
    }

    open spec fn sub_spec(self, other: Progress) -> Progress {
        self.minus(other)
    }
}

/// Represents progress that is intended to be "hidden" from the user.
///
/// Such progress must be completed in order to consider everything ready,
/// but is not meant to be shown in user-facing progress indicators.
#[derive(Debug, Clone, Copy, PartialEq, Eq, Structural)]
pub struct HiddenProgress(pub Progress);

impl HiddenProgress {
    /// Returns true if the wrapped progress is ready.
    pub fn is_ready(self) -> (r: bool)
        ensures
            r == self.0.ready(),
    {
        self.0.is_ready()
    }

    /// Adds the fields of `other` to those of `self`, wrapping around on
    /// overflow.
    pub fn wrapping_add(self, other: HiddenProgress) -> (r: HiddenProgress)
        ensures
            r.0 == self.0.plus(other.0),
    {
        HiddenProgress(self.0.wrapping_add(other.0))
    }

    /// Subtracts the fields of `other` from those of `self`, wrapping around
    /// on underflow.
    pub fn wrapping_sub(self, other: HiddenProgress) -> (r: HiddenProgress)
        ensures
            r.0 == self.0.minus(other.0),
    {
        HiddenProgress(self.0.wrapping_sub(other.0))
    }
}

impl Default for HiddenProgress {
    fn default() -> (r: HiddenProgress)
        ensures
            r.0 == Progress::zero(),
    {
        HiddenProgress(Progress { done: 0, total: 0 })
    }
}

impl std::ops::Deref for HiddenProgress {
    type Target = Progress;

    fn deref(&self) -> (r: &Progress)
        ensures
            *r == self.0,
    {
        &self.0
    }
}

impl std::ops::DerefMut for HiddenProgress {
    fn deref_mut(&mut self) -> (r: &mut Progress)
        ensures
            *r == old(self).0,
            *final(self) == HiddenProgress(*final(r)),
    {
        &mut self.0
    }
}

impl From<Progress> for HiddenProgress {
    fn from(p: Progress) -> (r: HiddenProgress) {
        HiddenProgress(p)
    }
}

impl vstd::std_specs::convert::FromSpecImpl<Progress> for HiddenProgress {
    open spec fn obeys_from_spec() -> bool {
        true
    }

    open spec fn from_spec(p: Progress) -> HiddenProgress {
        HiddenProgress(p)
    }
}

impl From<HiddenProgress> for Progress {
    fn from(h: HiddenProgress) -> (r: Progress) {
        h.0
    }
}

impl vstd::std_specs::convert::FromSpecImpl<HiddenProgress> for Progress {
    open spec fn obeys_from_spec() -> bool {
        true
    }

    open spec fn from_spec(h: HiddenProgress) -> Progress {
        h.0
    }
}

impl From<bool> for HiddenProgress {
    fn from(b: bool) -> (r: HiddenProgress) {
        HiddenProgress(Progress::from(b))
    }
}

impl vstd::std_specs::convert::FromSpecImpl<bool> for HiddenProgress {
    open spec fn obeys_from_spec() -> bool {
        true
    }

    open spec fn from_spec(b: bool) -> HiddenProgress {
        HiddenProgress(Progress { done: if b { 1 } else { 0 }, total: 1 })
    }
}

impl std::ops::Add for HiddenProgress {
    type Output = HiddenProgress;

    fn add(self, other: HiddenProgress) -> (r: HiddenProgress) {
        self.wrapping_add(other)
    }
}

impl vstd::std_specs::ops::AddSpecImpl for HiddenProgress {
    open spec fn obeys_add_spec() -> bool {
        true
    }

    open spec fn add_req(self, other: HiddenProgress) -> bool {
        true
    }

    open spec fn add_spec(self, other: HiddenProgress) -> HiddenProgress {
        HiddenProgress(self.0.plus(other.0))
    }
}

impl std::ops::Sub for HiddenProgress {
    type Output = HiddenProgress;

    fn sub(self, other: HiddenProgress) -> (r: HiddenProgress) {
        self.wrapping_sub(other)
    }
}

impl vstd::std_specs::ops::SubSpecImpl for HiddenProgress {
    open spec fn obeys_sub_spec() -> bool {
        true
    }

    open spec fn sub_req(self, other: HiddenProgress) -> bool {
        true
    }

    open spec fn sub_spec(self, other: HiddenProgress) -> HiddenProgress {
        HiddenProgress(self.0.minus(other.0))
    }
}

} // verus!
