use vstd::prelude::*;

verus! {

/// A span of time, stored as whole milliseconds.
#[derive(Clone, Copy, PartialEq, Eq, Structural, Debug)]
pub struct Duration {
    millis: u32,
}

impl Duration {
    pub closed spec fn spec_millis(&self) -> u32 {
        self.millis
    }

    pub fn from_millis(millis: u32) -> (r: Self)
        ensures
            r.spec_millis() == millis,
    {
        Self { millis }
    }

    pub fn to_millis(self) -> (r: u32)
        ensures
            r == self.spec_millis(),
    {
        self.millis
    }
}

/// A duration is nothing but its millisecond count: two durations are equal
/// exactly when their counts are. With `from_millis` and `to_millis` this
/// gives the round trip `from_millis(d.to_millis()) == d`.
pub proof fn lemma_duration_eq_millis(a: Duration, b: Duration)
    ensures
        (a == b) <==> (a.spec_millis() == b.spec_millis()),
{
}

} // verus!
