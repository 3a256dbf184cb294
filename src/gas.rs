use vstd::prelude::*;

verus! {

/// The budget of execution cost of one module instance.
#[derive(Clone, Copy, Debug, PartialEq, Eq, Structural)]
pub struct GasMeter {
    /// The budget the instance was created with.
    pub limit: u64,
    /// What is left of it.
    pub remaining: u64,
}

/// What remains of `r` after a debit of `c`: never below zero.
pub open spec fn debit(r: u64, c: u64) -> u64 {
    if c <= r { (r - c) as u64 } else { 0 }
}

impl GasMeter {
    /// A meter holding the whole budget `limit`.
    pub fn new(limit: u64) -> (r: GasMeter)
        ensures
            r.limit == limit,
            r.remaining == limit,
    {
        GasMeter { limit, remaining: limit }
    }

    /// Debits `cost`, saturating at zero.
    pub fn use_gas(&mut self, cost: u64)
        ensures
            final(self).remaining == debit(old(self).remaining, cost),
            final(self).limit == old(self).limit,
    {
        if cost <= self.remaining {
            self.remaining = self.remaining - cost;
        } else {
            self.remaining = 0;
        }
    }

    /// What is left of the budget.
    pub fn remaining(&self) -> (r: u64)
        ensures
            r == self.remaining,
    {
        self.remaining
    }

    /// Sets what is left of the budget.
    pub fn set_remaining(&mut self, v: u64)
        ensures
            final(self).remaining == v,
            final(self).limit == old(self).limit,
    {
        self.remaining = v;
    }

    /// How much of the budget has been spent; zero when more than the budget remains.
    pub fn used_gas(&self) -> (r: u64)
        ensures
            r == debit(self.limit, self.remaining),
    {
        if self.remaining <= self.limit {
            self.limit - self.remaining
        } else {
            0
        }
    }

    /// Records `used` as spent out of the whole budget.
    pub fn set_used_gas(&mut self, used: u64)
        ensures
            final(self).remaining == debit(old(self).limit, used),
            final(self).limit == old(self).limit,
    {
        self.remaining = self.limit;
        self.use_gas(used);
    }

    /// Whether the budget is spent.
    pub fn is_exhausted(&self) -> (r: bool)
        ensures
            r == (self.remaining == 0),
    {
        self.remaining == 0
    }
}

/// Debiting never underflows: the result is the difference when the cost fits, zero otherwise.
pub proof fn lemma_debit(r: u64, c: u64)
    ensures
        c <= r ==> debit(r, c) == r - c,
        c > r ==> debit(r, c) == 0,
        debit(r, c) <= r,
{
}

} // verus!
