use vstd::prelude::*;

verus! {

/// `a + b`, clamped to `u64::MAX`.
pub open spec fn sat_add(a: u64, b: u64) -> u64 {
    if a + b > u64::MAX {
        u64::MAX
    } else {
        (a + b) as u64
    }
}

/// `a - b`, clamped to `0`.
pub open spec fn sat_sub(a: u64, b: u64) -> u64 {
    if a < b {
        0
    } else {
        (a - b) as u64
    }
}

/// Anything that stands for an address in the attached process.
pub trait Address: Copy {
    /// The address that a value stands for.
    spec fn spec_addr(&self) -> u64;

    fn addr(&self) -> (r: u64)
        ensures
            r == self.spec_addr(),
    ;

    /// The address `offset` bytes further on, clamped to `u64::MAX`.
    fn add_offset(&self, offset: u64) -> (r: u64)
        ensures
            r == sat_add(self.spec_addr(), offset),
    {
        self.addr().saturating_add(offset)
    }

    /// The address `offset` bytes before, clamped to `0`.
    fn sub_offset(&self, offset: u64) -> (r: u64)
        ensures
            r == sat_sub(self.spec_addr(), offset),
    {
        self.addr().saturating_sub(offset)
    }
}

impl Address for u64 {
    open spec fn spec_addr(&self) -> u64 {
        *self
    }

    fn addr(&self) -> (r: u64) {
        *self
    }
}

/// Moving forward by an offset and back by the same offset returns to the
/// start, as long as the forward move does not hit `u64::MAX`.
pub proof fn lemma_add_then_sub_offset(a: u64, offset: u64)
    requires
        a + offset <= u64::MAX,
    ensures
        sat_sub(sat_add(a, offset), offset) == a,
{
}

/// Moving back by an offset and forward by the same offset returns to the
/// start, as long as the backward move does not hit `0`.
pub proof fn lemma_sub_then_add_offset(a: u64, offset: u64)
    requires
        offset <= a,
    ensures
        sat_add(sat_sub(a, offset), offset) == a,
{
}

/// Offsets never move an address the wrong way.
pub proof fn lemma_offsets_are_monotone(a: u64, offset: u64)
    ensures
        sat_sub(a, offset) <= a <= sat_add(a, offset),
{
}

} // verus!
