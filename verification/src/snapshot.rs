//! The latest sensor observation, as a plain value.

use vstd::prelude::*;

verus! {

/// One successful sensor reading. Both fields hold the IEEE 754 binary32
/// bit pattern of the measured value, which this library carries through
/// unchanged.
#[derive(Clone, Copy, Debug, PartialEq, Eq, Structural)]
pub struct Reading {
    /// Temperature in degrees Celsius, as a binary32 bit pattern.
    pub temperature: u32,
    /// Relative humidity in percent, as a binary32 bit pattern.
    pub humidity: u32,
}

/// How one poll of the sensor ended.
#[derive(Clone, Copy, Debug, PartialEq, Eq, Structural)]
pub enum PollOutcome {
    /// The sensor answered with a reading.
    Valid(Reading),
    /// The read failed.
    Invalid,
}

/// The latest published observation. `timestamp` moves on with every poll,
/// so it says nothing about validity; `temperature` and `humidity` are
/// those of the last poll that succeeded.
#[derive(Clone, Copy, Debug, PartialEq, Eq, Structural)]
pub struct Snapshot {
    /// Whether the latest poll succeeded.
    pub valid: bool,
    /// Temperature of the last good poll, as a binary32 bit pattern.
    pub temperature: u32,
    /// Humidity of the last good poll, as a binary32 bit pattern.
    pub humidity: u32,
    /// Microseconds since boot at the latest poll.
    pub timestamp: i64,
}

/// One store to one field of the snapshot. The sampler publishes a poll
/// cycle as a short run of such stores, and each of them takes effect on
/// its own.
#[derive(Clone, Copy, Debug, PartialEq, Eq, Structural)]
pub enum FieldStore {
    /// Sets the validity flag.
    Valid(bool),
    /// Sets the temperature.
    Temperature(u32),
    /// Sets the humidity.
    Humidity(u32),
    /// Sets the timestamp.
    Timestamp(i64),
}

/// The snapshot before the first poll.
pub open spec fn initial_snapshot() -> Snapshot {
    Snapshot { valid: false, temperature: 0, humidity: 0, timestamp: 0 }
}

/// The snapshot after one store.
pub open spec fn stored(before: Snapshot, store: FieldStore) -> Snapshot {
    match store {
        FieldStore::Valid(valid) => Snapshot { valid, ..before },
        FieldStore::Temperature(temperature) => Snapshot { temperature, ..before },
        FieldStore::Humidity(humidity) => Snapshot { humidity, ..before },
        FieldStore::Timestamp(timestamp) => Snapshot { timestamp, ..before },
    }
}

/// The stores of one poll cycle that ends in `outcome` at time `now`, in
/// the order in which the sampler makes them: the validity flag, the
/// reading if there is one, and the timestamp last.
pub open spec fn stores_of(outcome: PollOutcome, now: i64) -> Seq<FieldStore> {
    match outcome {
        PollOutcome::Valid(reading) => seq![
            FieldStore::Valid(true),
            FieldStore::Temperature(reading.temperature),
            FieldStore::Humidity(reading.humidity),
            FieldStore::Timestamp(now),
        ],
        PollOutcome::Invalid => seq![FieldStore::Valid(false), FieldStore::Timestamp(now)],
    }
}

/// The snapshot after a run of stores, made in order.
pub open spec fn stored_all(before: Snapshot, stores: Seq<FieldStore>) -> Snapshot
    decreases stores.len(),
{
    if stores.len() == 0 {
        before
    } else {
        stored(stored_all(before, stores.drop_last()), stores.last())
    }
}

/// The snapshot that one whole poll cycle leaves behind when it ends in
/// `outcome` at time `now` and nothing else touches the snapshot meanwhile.
pub open spec fn published(before: Snapshot, outcome: PollOutcome, now: i64) -> Snapshot {
    match outcome {
        PollOutcome::Valid(reading) => Snapshot {
            valid: true,
            temperature: reading.temperature,
            humidity: reading.humidity,
            timestamp: now,
        },
        PollOutcome::Invalid => Snapshot {
            valid: false,
            temperature: before.temperature,
            humidity: before.humidity,
            timestamp: now,
        },
    }
}

/// The store that a poll cycle makes at place `index`, counted from zero, or
/// nothing once the cycle's stores are through. A cycle that ends in a
/// reading stores the flag, the temperature, the humidity and the
/// timestamp; one that ends in a failure stores the cleared flag and the
/// timestamp, and leaves the reading alone.
pub fn cycle_store(outcome: PollOutcome, now: i64, index: usize) -> (store: Option<FieldStore>)
    ensures
        store == if index < stores_of(outcome, now).len() {
            Some(stores_of(outcome, now)[index as int])
        } else {
            None
        },
{
    match outcome {
        PollOutcome::Valid(reading) => {
            if index == 0 {
                Some(FieldStore::Valid(true))
            } else if index == 1 {
                Some(FieldStore::Temperature(reading.temperature))
            } else if index == 2 {
                Some(FieldStore::Humidity(reading.humidity))
            } else if index == 3 {
                Some(FieldStore::Timestamp(now))
            } else {
                None
            }
        },
        PollOutcome::Invalid => {
            if index == 0 {
                Some(FieldStore::Valid(false))
            } else if index == 1 {
                Some(FieldStore::Timestamp(now))
            } else {
                None
            }
        },
    }
}

impl Snapshot {
    /// The snapshot before the first poll: invalid, all fields zero.
    pub fn new() -> (snapshot: Snapshot)
        ensures
            snapshot == initial_snapshot(),
    {
        Snapshot { valid: false, temperature: 0, humidity: 0, timestamp: 0 }
    }

    /// Makes one store.
    pub fn store(&mut self, store: FieldStore)
        ensures
            *final(self) == stored(*old(self), store),
    {
        match store {
            FieldStore::Valid(valid) => {
                self.valid = valid;
            },
            FieldStore::Temperature(temperature) => {
                self.temperature = temperature;
            },
            FieldStore::Humidity(humidity) => {
                self.humidity = humidity;
            },
            FieldStore::Timestamp(timestamp) => {
                self.timestamp = timestamp;
            },
        }
    }

    /// Records the outcome of one poll cycle by making its stores in order:
    /// a reading replaces the stored one, a failure keeps it and clears
    /// `valid`; the timestamp moves to `now` either way.
    pub fn publish(&mut self, outcome: PollOutcome, now: i64)
        ensures
            *final(self) == stored_all(*old(self), stores_of(outcome, now)),
            *final(self) == published(*old(self), outcome, now),
    {
        let mut index: usize = 0;
        loop
            invariant_except_break
                index <= stores_of(outcome, now).len(),
                *self == stored_all(*old(self), stores_of(outcome, now).take(index as int)),
            ensures
                *self == stored_all(*old(self), stores_of(outcome, now)),
            decreases stores_of(outcome, now).len() - index,
        {
            let ghost stores = stores_of(outcome, now);
            match cycle_store(outcome, now, index) {
                Some(store) => {
                    assert(stores.take(index + 1).drop_last() =~= stores.take(index as int));
                    self.store(store);
                },
                None => {
                    assert(stores.take(index as int) =~= stores);
                    break ;
                },
            }
            index = index + 1;
        }
        proof {
            lemma_cycle_of_stores(*old(self), outcome, now);
        }
    }

    /// The reading that this snapshot carries, if the latest poll
    /// succeeded.
    pub fn reading(&self) -> (reading: Option<Reading>)
        ensures
            reading == if self.valid {
                Some(Reading { temperature: self.temperature, humidity: self.humidity })
            } else {
                None
            },
    {
        if self.valid {
            Some(Reading { temperature: self.temperature, humidity: self.humidity })
        } else {
            None
        }
    }
}

/// The stores of one poll cycle, made in order with nothing in between,
/// leave the snapshot that the cycle is meant to publish.
pub proof fn lemma_cycle_of_stores(before: Snapshot, outcome: PollOutcome, now: i64)
    ensures
        stored_all(before, stores_of(outcome, now)) == published(before, outcome, now),
{
    reveal_with_fuel(stored_all, 5);
}

} // verus!
