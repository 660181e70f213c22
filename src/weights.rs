//! Weights of the two administrative calls: a fixed base, a cost per
//! validator in the batch, and one storage read and one storage write.
use vstd::prelude::*;

verus! {

/// `x` clamped to the range of `u64`.
pub open spec fn saturate(x: int) -> u64 {
    if x > u64::MAX {
        u64::MAX
    } else {
        x as u64
    }
}

/// Execution cost of a call: time spent, and the size of the proof it needs.
#[derive(Clone, Copy, Debug, PartialEq, Eq, Structural)]
pub struct Weight {
    pub ref_time: u64,
    pub proof_size: u64,
}

fn saturating_mul_u64(a: u64, b: u64) -> (r: u64)
    ensures
        r == saturate(a * b),
{
    match a.checked_mul(b) {
        Some(p) => p,
        None => u64::MAX,
    }
}

impl Weight {
    pub fn from_parts(ref_time: u64, proof_size: u64) -> (r: Weight)
        ensures
            r == (Weight { ref_time, proof_size }),
    {
        Weight { ref_time, proof_size }
    }

    /// Component-wise sum, clamped at the maximum.
    pub fn saturating_add(self, rhs: Weight) -> (r: Weight)
        ensures
            r.ref_time == saturate(self.ref_time + rhs.ref_time),
            r.proof_size == saturate(self.proof_size + rhs.proof_size),
    {
        Weight {
            ref_time: self.ref_time.saturating_add(rhs.ref_time),
            proof_size: self.proof_size.saturating_add(rhs.proof_size),
        }
    }

    /// Both components multiplied by `scalar`, clamped at the maximum.
    pub fn saturating_mul(self, scalar: u64) -> (r: Weight)
        ensures
            r.ref_time == saturate(self.ref_time * scalar),
            r.proof_size == saturate(self.proof_size * scalar),
    {
        Weight {
            ref_time: saturating_mul_u64(self.ref_time, scalar),
            proof_size: saturating_mul_u64(self.proof_size, scalar),
        }
    }
}

/// Cost of one storage read and of one storage write.
#[derive(Clone, Copy, Debug, PartialEq, Eq, Structural)]
pub struct RuntimeDbWeight {
    pub read: u64,
    pub write: u64,
}

impl RuntimeDbWeight {
    /// Weight of `r` storage reads.
    pub fn reads(self, r: u64) -> (w: Weight)
        ensures
            w == (Weight { ref_time: saturate(self.read * r), proof_size: 0 }),
    {
        Weight::from_parts(saturating_mul_u64(self.read, r), 0)
    }

    /// Weight of `n` storage writes.
    pub fn writes(self, n: u64) -> (w: Weight)
        ensures
            w == (Weight { ref_time: saturate(self.write * n), proof_size: 0 }),
    {
        Weight::from_parts(saturating_mul_u64(self.write, n), 0)
    }
}

/// Weight of a call that handles `v` validators: 21 000 000 units, 25 000
/// per validator, one read and one write, clamped at the maximum.
pub open spec fn batch_weight(db: RuntimeDbWeight, v: u32) -> Weight {
    Weight {
        ref_time: saturate(saturate(21_000_000 + 25_000 * v + db.read) + db.write),
        proof_size: 0,
    }
}

/// Weights of the validator manager's calls.
pub trait WeightInfo {
    spec fn register_validators_spec(&self, v: u32) -> Weight;

    spec fn deregister_validators_spec(&self, v: u32) -> Weight;

    fn register_validators(&self, v: u32) -> (r: Weight)
        ensures
            r == self.register_validators_spec(v),
    ;

    fn deregister_validators(&self, v: u32) -> (r: Weight)
        ensures
            r == self.deregister_validators_spec(v),
    ;
}

/// Weights measured on reference hardware, over the given storage costs.
#[derive(Clone, Copy, Debug, PartialEq, Eq, Structural)]
pub struct SubstrateWeight {
    pub db_weight: RuntimeDbWeight,
}

impl SubstrateWeight {
    fn batch(&self, v: u32) -> (r: Weight)
        ensures
            r == batch_weight(self.db_weight, v),
    {
        assert(25_000 * (v as int) <= 25_000 * 4_294_967_295) by (nonlinear_arith)
            requires
                v <= 4_294_967_295,
        ;
        Weight::from_parts(21_000_000, 0).saturating_add(
            Weight::from_parts(25_000, 0).saturating_mul(v as u64),
        ).saturating_add(self.db_weight.reads(1)).saturating_add(self.db_weight.writes(1))
    }
}

impl WeightInfo for SubstrateWeight {
    open spec fn register_validators_spec(&self, v: u32) -> Weight {
        batch_weight(self.db_weight, v)
    }

    open spec fn deregister_validators_spec(&self, v: u32) -> Weight {
        batch_weight(self.db_weight, v)
    }

    fn register_validators(&self, v: u32) -> (r: Weight) {
        self.batch(v)
    }

    fn deregister_validators(&self, v: u32) -> (r: Weight) {
        self.batch(v)
    }
}

} // verus!
