//! The snapshot as shared state: one cell per field, written by the
//! sampler and read by the refresher without locks.

use core::sync::atomic::Ordering;
use portable_atomic::{AtomicBool, AtomicF32, AtomicI64};
use vstd::prelude::*;

use crate::snapshot::{cycle_store, stores_of, FieldStore, PollOutcome, Snapshot};

verus! {

#[verifier::external_type_specification]
#[verifier::external_body]
pub struct ExAtomicBool(AtomicBool);

#[verifier::external_type_specification]
#[verifier::external_body]
pub struct ExAtomicF32(AtomicF32);

#[verifier::external_type_specification]
#[verifier::external_body]
pub struct ExAtomicI64(AtomicI64);

/// `portable_atomic::AtomicBool::new`. The cell starts out holding `value`;
/// nothing is claimed of it here, since what a later load returns depends
/// on every store made in between.
#[verifier::external_body]
fn new_flag(value: bool) -> AtomicBool {
    AtomicBool::new(value)
}

/// `Default::default` of `portable_atomic::AtomicF32`: a cell whose
/// bit pattern is that of positive zero.
#[verifier::external_body]
fn new_measure() -> AtomicF32 {
    AtomicF32::default()
}

/// `portable_atomic::AtomicI64::new`.
#[verifier::external_body]
fn new_instant(value: i64) -> AtomicI64 {
    AtomicI64::new(value)
}

/// `portable_atomic::AtomicBool::store` with relaxed ordering, which that
/// method accepts.
#[verifier::external_body]
fn store_flag(cell: &AtomicBool, value: bool) {
    cell.store(value, Ordering::Relaxed)
}

/// `portable_atomic::AtomicU32::store` with relaxed ordering on the bit
/// pattern of a float cell, reached through `AtomicF32::as_bits`.
#[verifier::external_body]
fn store_measure(cell: &AtomicF32, bits: u32) {
    cell.as_bits().store(bits, Ordering::Relaxed)
}

/// `portable_atomic::AtomicI64::store` with relaxed ordering.
#[verifier::external_body]
fn store_instant(cell: &AtomicI64, value: i64) {
    cell.store(value, Ordering::Relaxed)
}

/// `portable_atomic::AtomicBool::load` with relaxed ordering, which that
/// method accepts. The result is whatever some store left there: another
/// context may write at any time, so nothing is promised of it.
#[verifier::external_body]
fn load_flag(cell: &AtomicBool) -> bool {
    cell.load(Ordering::Relaxed)
}

/// `portable_atomic::AtomicU32::load` with relaxed ordering on the bit
/// pattern of a float cell, reached through `AtomicF32::as_bits`.
#[verifier::external_body]
fn load_measure(cell: &AtomicF32) -> u32 {
    cell.as_bits().load(Ordering::Relaxed)
}

/// `portable_atomic::AtomicI64::load` with relaxed ordering.
#[verifier::external_body]
fn load_instant(cell: &AtomicI64) -> i64 {
    cell.load(Ordering::Relaxed)
}

/// The snapshot shared between the sampler, which writes it, and the
/// refresher, which reads it. Each field is a cell of its own and is
/// written and read on its own: a read that falls between two stores of one
/// poll cycle sees fields of different cycles. That skew is accepted. The
/// freshness of what is shown is decided by the `valid` flag alone, never
/// by comparing timestamps, and no lock stands in the sampler's way.
pub struct SharedSnapshot {
    valid: AtomicBool,
    temperature: AtomicF32,
    humidity: AtomicF32,
    timestamp: AtomicI64,
}

impl SharedSnapshot {
    /// A shared snapshot in the state before the first poll.
    pub fn new() -> SharedSnapshot {
        SharedSnapshot {
            valid: new_flag(false),
            temperature: new_measure(),
            humidity: new_measure(),
            timestamp: new_instant(0),
        }
    }

    /// Makes one store to the cell of its field.
    fn store(&self, store: FieldStore) {
        match store {
            FieldStore::Valid(valid) => store_flag(&self.valid, valid),
            FieldStore::Temperature(temperature) => store_measure(&self.temperature, temperature),
            FieldStore::Humidity(humidity) => store_measure(&self.humidity, humidity),
            FieldStore::Timestamp(timestamp) => store_instant(&self.timestamp, timestamp),
        }
    }

    /// Publishes the outcome of one poll cycle: makes the stores that
    /// `cycle_store` gives for it, one after the other, from the first to
    /// the last. That is the validity flag first, then the reading if there
    /// is one, and the timestamp last, whatever the outcome; a failed poll
    /// leaves the stored reading as it is.
    pub fn publish(&self, outcome: PollOutcome, now: i64) {
        let mut index: usize = 0;
        loop
            invariant_except_break
                index <= stores_of(outcome, now).len(),
            decreases stores_of(outcome, now).len() - index,
        {
            match cycle_store(outcome, now, index) {
                Some(store) => {
                    self.store(store);
                },
                None => {
                    break ;
                },
            }
            index = index + 1;
        }
    }

    /// Loads every field once and returns the values as one snapshot. The
    /// fields may stem from different poll cycles; each is a value that
    /// some store left in its cell.
    pub fn read(&self) -> Snapshot {
        let valid = load_flag(&self.valid);
        let humidity = load_measure(&self.humidity);
        let temperature = load_measure(&self.temperature);
        let timestamp = load_instant(&self.timestamp);
        Snapshot { valid, temperature, humidity, timestamp }
    }
}

} // verus!
