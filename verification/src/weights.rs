//! Weights for the pallet's calls.
//!
//! The values are hand-written placeholders: a fixed execution time plus the database accesses
//! each call makes, priced by the runtime's database weight.
use vstd::prelude::*;

verus! {

/// A weight: computation time and proof size.
#[derive(Clone, Copy, PartialEq, Eq, Structural, Debug)]
pub struct Weight {
    pub ref_time: u64,
    pub proof_size: u64,
}

/// Addition that stops at `u64::MAX`.
pub open spec fn sat_add(a: u64, b: u64) -> u64 {
    if a + b > u64::MAX {
        u64::MAX
    } else {
        (a + b) as u64
    }
}

/// Multiplication that stops at `u64::MAX`.
pub open spec fn sat_mul(a: u64, b: u64) -> u64 {
    if a * b > u64::MAX {
        u64::MAX
    } else {
        (a * b) as u64
    }
}

/// Multiplication that stops at `u64::MAX`.
fn saturating_mul(a: u64, b: u64) -> (product: u64)
    ensures
        product == sat_mul(a, b),
{
    match a.checked_mul(b) {
        Some(product) => product,
        None => u64::MAX,
    }
}

impl Weight {
    /// A weight from its two components.
    pub fn from_parts(ref_time: u64, proof_size: u64) -> (w: Weight)
        ensures
            w == (Weight { ref_time, proof_size }),
    {
        Weight { ref_time, proof_size }
    }

    /// Component-wise saturating sum of two weights.
    pub open spec fn spec_saturating_add(self, rhs: Weight) -> Weight {
        Weight {
            ref_time: sat_add(self.ref_time, rhs.ref_time),
            proof_size: sat_add(self.proof_size, rhs.proof_size),
        }
    }

    /// Component-wise saturating sum of two weights.
    pub fn saturating_add(self, rhs: Weight) -> (w: Weight)
        ensures
            w == self.spec_saturating_add(rhs),
    {
        Weight {
            ref_time: self.ref_time.saturating_add(rhs.ref_time),
            proof_size: self.proof_size.saturating_add(rhs.proof_size),
        }
    }
}

/// The computation time of one database read and of one database write.
#[derive(Clone, Copy, PartialEq, Eq, Structural, Debug)]
pub struct RuntimeDbWeight {
    pub read: u64,
    pub write: u64,
}

impl RuntimeDbWeight {
    /// The weight of `r` reads and `w` writes: their saturating total time and no proof size.
    pub open spec fn spec_reads_writes(self, r: u64, w: u64) -> Weight {
        Weight {
            ref_time: sat_add(sat_mul(self.read, r), sat_mul(self.write, w)),
            proof_size: 0,
        }
    }

    /// The weight of `r` reads and `w` writes.
    pub fn reads_writes(self, r: u64, w: u64) -> (weight: Weight)
        ensures
            weight == self.spec_reads_writes(r, w),
    {
        let read_weight = saturating_mul(self.read, r);
        let write_weight = saturating_mul(self.write, w);
        Weight::from_parts(read_weight.saturating_add(write_weight), 0)
    }
}

/// Time of a RocksDB read, in picoseconds of reference time.
pub const ROCKS_DB_READ: u64 = 25_000_000;

/// Time of a RocksDB write, in picoseconds of reference time.
pub const ROCKS_DB_WRITE: u64 = 100_000_000;

/// The database weight of a RocksDB backend.
pub fn rocks_db_weight() -> (db: RuntimeDbWeight)
    ensures
        db == (RuntimeDbWeight { read: ROCKS_DB_READ, write: ROCKS_DB_WRITE }),
{
    RuntimeDbWeight { read: ROCKS_DB_READ, write: ROCKS_DB_WRITE }
}

/// A call's weight: a fixed execution time plus `r` reads and `w` writes priced by `db`.
pub open spec fn call_weight(ref_time: u64, db: RuntimeDbWeight, r: u64, w: u64) -> Weight {
    Weight { ref_time, proof_size: 0 }.spec_saturating_add(db.spec_reads_writes(r, w))
}

fn priced(ref_time: u64, db: RuntimeDbWeight, r: u64, w: u64) -> (weight: Weight)
    ensures
        weight == call_weight(ref_time, db, r, w),
{
    Weight::from_parts(ref_time, 0).saturating_add(db.reads_writes(r, w))
}

/// Weight functions for the pallet's calls.
pub trait WeightInfo {
    /// The database weight the calls are priced with.
    spec fn spec_db(&self) -> RuntimeDbWeight;

    fn register_sponsor(&self) -> (w: Weight)
        ensures
            w == call_weight(20_000_000, self.spec_db(), 2, 2),
    ;

    fn increase_budget(&self) -> (w: Weight)
        ensures
            w == call_weight(12_000_000, self.spec_db(), 2, 1),
    ;

    fn decrease_budget(&self) -> (w: Weight)
        ensures
            w == call_weight(12_000_000, self.spec_db(), 2, 1),
    ;

    fn set_policy(&self) -> (w: Weight)
        ensures
            w == call_weight(12_000_000, self.spec_db(), 1, 1),
    ;

    fn pause(&self) -> (w: Weight)
        ensures
            w == call_weight(8_000_000, self.spec_db(), 1, 1),
    ;

    fn resume(&self) -> (w: Weight)
        ensures
            w == call_weight(8_000_000, self.spec_db(), 1, 1),
    ;

    fn unregister(&self) -> (w: Weight)
        ensures
            w == call_weight(16_000_000, self.spec_db(), 2, 2),
    ;
}

/// Weights priced by the runtime's configured database weight.
#[derive(Clone, Copy, PartialEq, Eq, Structural, Debug)]
pub struct SubstrateWeight {
    pub db: RuntimeDbWeight,
}

impl WeightInfo for SubstrateWeight {
    open spec fn spec_db(&self) -> RuntimeDbWeight {
        self.db
    }

    fn register_sponsor(&self) -> (w: Weight) {
        priced(20_000_000, self.db, 2, 2)
    }

    fn increase_budget(&self) -> (w: Weight) {
        priced(12_000_000, self.db, 2, 1)
    }

    fn decrease_budget(&self) -> (w: Weight) {
        priced(12_000_000, self.db, 2, 1)
    }

    fn set_policy(&self) -> (w: Weight) {
        priced(12_000_000, self.db, 1, 1)
    }

    fn pause(&self) -> (w: Weight) {
        priced(8_000_000, self.db, 1, 1)
    }

    fn resume(&self) -> (w: Weight) {
        priced(8_000_000, self.db, 1, 1)
    }

    fn unregister(&self) -> (w: Weight) {
        priced(16_000_000, self.db, 2, 2)
    }
}

/// Weights priced by the RocksDB database weight.
impl WeightInfo for () {
    open spec fn spec_db(&self) -> RuntimeDbWeight {
        RuntimeDbWeight { read: ROCKS_DB_READ, write: ROCKS_DB_WRITE }
    }

    fn register_sponsor(&self) -> (w: Weight) {
        priced(20_000_000, rocks_db_weight(), 2, 2)
    }

    fn increase_budget(&self) -> (w: Weight) {
        priced(12_000_000, rocks_db_weight(), 2, 1)
    }

    fn decrease_budget(&self) -> (w: Weight) {
        priced(12_000_000, rocks_db_weight(), 2, 1)
    }

    fn set_policy(&self) -> (w: Weight) {
        priced(12_000_000, rocks_db_weight(), 1, 1)
    }

    fn pause(&self) -> (w: Weight) {
        priced(8_000_000, rocks_db_weight(), 1, 1)
    }

    fn resume(&self) -> (w: Weight) {
        priced(8_000_000, rocks_db_weight(), 1, 1)
    }

    fn unregister(&self) -> (w: Weight) {
        priced(16_000_000, rocks_db_weight(), 2, 2)
    }
}

} // verus!
