//! The generator: one worker's source of identifiers.

use crate::clock::{since_unix_epoch, timestamp_from_millis};
use crate::error::SnowflakeError;
use crate::layout::{pack, spec_pack, EPOCH, SEQUENCE_COUNT, WORKER_COUNT};
use vstd::prelude::*;

verus! {

/// How often [`SnowflakeGen::wait_next_millis`] reads the clock again before
/// it takes the clock to be stuck.
pub const CLOCK_READS_LIMIT: u64 = 0xffff_ffff_ffff_ffff;

/// What a generator remembers, as plain values.
pub struct GeneratorState {
    /// The number of the worker that the generator issues for.
    pub worker_id: u64,
    /// The timestamp of the identifier issued last, 0 before the first.
    pub last_timestamp: u64,
    /// The sequence value of the identifier issued last.
    pub sequence: u64,
}

impl GeneratorState {
    /// Both counters are within their fields.
    pub open spec fn wf(self) -> bool {
        self.worker_id < WORKER_COUNT && self.sequence < SEQUENCE_COUNT
    }

    /// The state of a generator that has issued nothing yet.
    pub open spec fn initial(worker_id: u64) -> GeneratorState {
        GeneratorState { worker_id, last_timestamp: 0, sequence: 0 }
    }

    /// Whether every sequence value of the millisecond `now` has been used,
    /// so that nothing more can be issued until the clock moves on.
    pub open spec fn exhausted_at(self, now: u64) -> bool {
        now == self.last_timestamp && self.sequence == SEQUENCE_COUNT - 1
    }

    /// Whether a generator in this state issues an identifier when the clock
    /// reads `now`: the reading is a timestamp that identifiers can hold, and
    /// its millisecond has a sequence value left.
    pub open spec fn issues_at(self, now: u64) -> bool {
        now >= EPOCH && !self.exhausted_at(now)
    }

    /// The state after issuing one identifier at `now`: within the
    /// millisecond of the last one the sequence goes up by one, at any other
    /// the timestamp is taken over and the sequence starts again at 0.
    pub open spec fn issue_at(self, now: u64) -> GeneratorState
        recommends
            !self.exhausted_at(now),
    {
        if now == self.last_timestamp {
            GeneratorState { sequence: (self.sequence + 1) as u64, ..self }
        } else {
            GeneratorState { last_timestamp: now, sequence: 0, ..self }
        }
    }

    /// The state after one call with the clock at `now`: where nothing is
    /// issued, because the reading is a clock fault or its millisecond is
    /// used up, the state stays as it is.
    pub open spec fn step(self, now: u64) -> GeneratorState {
        if self.issues_at(now) {
            self.issue_at(now)
        } else {
            self
        }
    }

    /// The identifier issued last.
    pub open spec fn id(self) -> u64
        recommends
            self.last_timestamp >= EPOCH,
    {
        spec_pack(self.last_timestamp, self.worker_id, self.sequence)
    }
}

/// Issues identifiers for one worker. Each is greater than the one before as
/// long as the clock does not go back.
#[derive(Debug)]
pub struct SnowflakeGen {
    worker_id: u64,
    last_timestamp: u64,
    sequence: u64,
}

impl View for SnowflakeGen {
    type V = GeneratorState;

    closed spec fn view(&self) -> GeneratorState {
        GeneratorState {
            worker_id: self.worker_id,
            last_timestamp: self.last_timestamp,
            sequence: self.sequence,
        }
    }
}

impl SnowflakeGen {
    #[verifier::type_invariant]
    spec fn inv(self) -> bool {
        self@.wf()
    }

    /// Makes a generator for the worker `worker_id`, which must fit in the
    /// worker field.
    pub fn new(worker_id: u64) -> (result: Result<SnowflakeGen, SnowflakeError>)
        ensures
            match result {
                Ok(generator) => worker_id < WORKER_COUNT && generator@
                    == GeneratorState::initial(worker_id),
                Err(e) => worker_id >= WORKER_COUNT && e == SnowflakeError::InvalidWorkerId,
            },
    {
        if worker_id >= WORKER_COUNT {
            return Err(SnowflakeError::InvalidWorkerId);
        }
        Ok(SnowflakeGen { worker_id, last_timestamp: 0, sequence: 0 })
    }

    /// The number of the worker that this generator issues for.
    pub fn worker_id(&self) -> (worker_id: u64)
        ensures
            worker_id == self@.worker_id,
            worker_id < WORKER_COUNT,
    {
        proof {
            use_type_invariant(self);
        }
        self.worker_id
    }

    /// The timestamp of the identifier issued last, 0 before the first.
    pub fn last_timestamp(&self) -> (last_timestamp: u64)
        ensures
            last_timestamp == self@.last_timestamp,
    {
        self.last_timestamp
    }

    /// The sequence value of the identifier issued last.
    pub fn sequence(&self) -> (sequence: u64)
        ensures
            sequence == self@.sequence,
            sequence < SEQUENCE_COUNT,
    {
        proof {
            use_type_invariant(self);
        }
        self.sequence
    }

    /// Issues the next identifier, given that the clock reads `timestamp`.
    ///
    /// `Ok(None)` says that the millisecond `timestamp` has no sequence value
    /// left: nothing was issued, and the caller has to come back with a
    /// later reading. A reading from before [`EPOCH`] is a clock fault.
    pub fn next_at(&mut self, timestamp: u64) -> (result: Result<Option<u64>, SnowflakeError>)
        ensures
            final(self)@ == old(self)@.step(timestamp),
            final(self)@.wf(),
            match result {
                Ok(Some(id)) => old(self)@.issues_at(timestamp) && id == final(self)@.id(),
                Ok(None) => timestamp >= EPOCH && old(self)@.exhausted_at(timestamp),
                Err(e) => timestamp < EPOCH && e == SnowflakeError::ClockFault,
            },
    {
        proof {
            use_type_invariant(&*self);
        }
        if timestamp < EPOCH {
            return Err(SnowflakeError::ClockFault);
        }
        if timestamp == self.last_timestamp && self.sequence == SEQUENCE_COUNT - 1 {
            return Ok(None);
        }
        Ok(Some(self.issue(timestamp)))
    }

    /// Issues the next identifier, reading the system clock.
    ///
    /// Where the millisecond that the clock reports has no sequence value
    /// left, this waits for the next one. What comes back is what
    /// [`SnowflakeGen::next_at`] gives for the reading that the identifier
    /// was made at, which is the generator's last timestamp afterwards.
    pub fn next(&mut self) -> (result: Result<u64, SnowflakeError>)
        ensures
            final(self)@.wf(),
            match result {
                Ok(id) => {
                    &&& old(self)@.issues_at(final(self)@.last_timestamp)
                    &&& final(self)@ == old(self)@.issue_at(final(self)@.last_timestamp)
                    &&& id == final(self)@.id()
                },
                Err(e) => e == SnowflakeError::ClockFault && final(self)@ == old(self)@,
            },
    {
        proof {
            use_type_invariant(&*self);
        }
        let timestamp: u64 = match Self::get_timestamp() {
            Ok(timestamp) => timestamp,
            Err(e) => {
                return Err(e);
            },
        };
        match self.next_at(timestamp) {
            Ok(Some(id)) => Ok(id),
            Ok(None) => match Self::wait_next_millis(timestamp) {
                Ok(later) => Ok(self.issue(later)),
                Err(e) => Err(e),
            },
            Err(e) => Err(e),
        }
    }

    /// Reads the system clock, in milliseconds since the Unix epoch. A clock
    /// set before the Unix epoch, or so far after it that the milliseconds do
    /// not fit in 64 bits, is a clock fault.
    pub fn get_timestamp() -> (result: Result<u64, SnowflakeError>)
        ensures
            result matches Err(e) ==> e == SnowflakeError::ClockFault,
    {
        let now = std::time::SystemTime::now();
        match since_unix_epoch(&now) {
            Ok(elapsed) => timestamp_from_millis(elapsed.as_millis()),
            Err(_) => Err(SnowflakeError::ClockFault),
        }
    }

    /// Reads the system clock until it reports a millisecond after
    /// `current_timestamp`, and returns that reading: the first one that is
    /// later, as [`SnowflakeGen::wait_at`] decides for each reading in turn.
    ///
    /// A clock that has not moved on after [`CLOCK_READS_LIMIT`] further
    /// readings is taken to be stuck, which is a clock fault, as is a reading
    /// that fails.
    pub fn wait_next_millis(current_timestamp: u64) -> (result: Result<u64, SnowflakeError>)
        ensures
            match result {
                Ok(timestamp) => timestamp > current_timestamp,
                Err(e) => e == SnowflakeError::ClockFault,
            },
    {
        let mut reads_left: u64 = CLOCK_READS_LIMIT;
        loop
            decreases reads_left,
        {
            let reading: u64 = match Self::get_timestamp() {
                Ok(reading) => reading,
                Err(e) => {
                    return Err(e);
                },
            };
            match Self::wait_at(current_timestamp, reading, reads_left) {
                Ok(Some(timestamp)) => {
                    return Ok(timestamp);
                },
                Ok(None) => {
                    reads_left = reads_left - 1;
                },
                Err(e) => {
                    return Err(e);
                },
            }
        }
    }

    /// What a wait for a millisecond after `current_timestamp` does with one
    /// reading of the clock, when it may read `reads_left` times more.
    ///
    /// A later reading ends the wait and is its result. Any other is passed
    /// over, `Ok(None)`, and the wait reads again, unless no reading is left:
    /// then the clock is taken to be stuck, a clock fault.
    pub fn wait_at(current_timestamp: u64, reading: u64, reads_left: u64) -> (result: Result<
        Option<u64>,
        SnowflakeError,
    >)
        ensures
            match result {
                Ok(Some(timestamp)) => reading > current_timestamp && timestamp == reading,
                Ok(None) => reading <= current_timestamp && reads_left > 0,
                Err(e) => reading <= current_timestamp && reads_left == 0 && e
                    == SnowflakeError::ClockFault,
            },
    {
        if reading > current_timestamp {
            Ok(Some(reading))
        } else if reads_left > 0 {
            Ok(None)
        } else {
            Err(SnowflakeError::ClockFault)
        }
    }

    /// Takes the next sequence value at `timestamp` and packs the identifier.
    fn issue(&mut self, timestamp: u64) -> (id: u64)
        requires
            old(self)@.issues_at(timestamp),
        ensures
            final(self)@ == old(self)@.issue_at(timestamp),
            id == final(self)@.id(),
    {
        proof {
            use_type_invariant(&*self);
        }
        if timestamp == self.last_timestamp {
            self.sequence = self.sequence + 1;
        } else {
            self.sequence = 0;
        }
        self.last_timestamp = timestamp;
        pack(timestamp, self.worker_id, self.sequence)
    }
}

} // verus!
