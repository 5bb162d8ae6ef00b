use vstd::prelude::*;

verus! {

/// Opaque identifier of a pending timer request.
///
/// The raw value 0 stands for "invalid or missing" and is never issued by
/// `EventCtx`; every issued token is therefore valid.
#[derive(Clone, Copy, PartialEq, Eq, Structural, Debug)]
pub struct TimerToken(usize);

impl TimerToken {
    pub closed spec fn spec_raw(&self) -> usize {
        self.0
    }

    /// A token is valid exactly when it is not the reserved sentinel 0.
    pub open spec fn is_valid(&self) -> bool {
        self.spec_raw() != 0
    }

    /// The reserved token that stands for "invalid or missing".
    pub fn invalid() -> (r: Self)
        ensures
            r.spec_raw() == 0,
            !r.is_valid(),
    {
        Self(0)
    }

    pub fn from_raw(raw: usize) -> (r: Self)
        ensures
            r.spec_raw() == raw,
    {
        Self(raw)
    }

    pub fn into_raw(self) -> (r: usize)
        ensures
            r == self.spec_raw(),
    {
        self.0
    }
}

/// A token is nothing but its raw value: two tokens are equal exactly when
/// their raw values are. With `from_raw` and `into_raw` this gives the
/// round trip `from_raw(t.into_raw()) == t`.
pub proof fn lemma_token_eq_raw(a: TimerToken, b: TimerToken)
    ensures
        (a == b) <==> (a.spec_raw() == b.spec_raw()),
{
}

} // verus!
