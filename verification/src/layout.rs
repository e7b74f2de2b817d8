//! The bit layout of an identifier.
//!
//! From the most significant bit down: the milliseconds elapsed since
//! [`EPOCH`], then [`WORKER_ID_BITS`] bits of worker number, then
//! [`SEQUENCE_BITS`] bits of sequence counter.

use vstd::prelude::*;

verus! {

/// The instant that the timestamp field counts from, in milliseconds since the
/// Unix epoch. Identifiers made with different values of it do not sort
/// together, so it is fixed.
pub const EPOCH: u64 = 1314220000000;

/// Width of the worker field.
pub const WORKER_ID_BITS: u64 = 5;

/// Width of the sequence field.
pub const SEQUENCE_BITS: u64 = 12;

/// Position of the lowest bit of the timestamp field.
pub const TIMESTAMP_SHIFT: u64 = 17;

/// How many worker numbers there are: a valid one is below this.
pub const WORKER_COUNT: u64 = 32;

/// How many sequence values one millisecond has: a valid one is below this.
pub const SEQUENCE_COUNT: u64 = 4096;

/// The bits of a worker number, once it is shifted down to bit 0.
pub const WORKER_ID_MASK: u64 = 31;

/// The bits of a sequence value.
pub const SEQUENCE_MASK: u64 = 4095;

/// How many milliseconds the timestamp field can tell apart. A timestamp this
/// far or further from [`EPOCH`] loses its high bits when it is packed.
pub const TIMESTAMP_SPAN: u64 = 0x8000_0000_0000;

/// The identifier made of three fields: the timestamp's distance from
/// [`EPOCH`] shifted above the two lower fields, the worker number shifted
/// above the sequence, all joined by bitwise or.
pub open spec fn spec_pack(timestamp: u64, worker_id: u64, sequence: u64) -> u64
    recommends
        timestamp >= EPOCH,
{
    (((timestamp - EPOCH) as u64) << TIMESTAMP_SHIFT) | (worker_id << SEQUENCE_BITS) | sequence
}

/// The timestamp that an identifier was made at.
pub open spec fn spec_timestamp_of(id: u64) -> u64 {
    ((id >> TIMESTAMP_SHIFT) + EPOCH) as u64
}

/// The worker number in an identifier.
pub open spec fn spec_worker_id_of(id: u64) -> u64 {
    (id >> SEQUENCE_BITS) & WORKER_ID_MASK
}

/// The sequence value in an identifier.
pub open spec fn spec_sequence_of(id: u64) -> u64 {
    id & SEQUENCE_MASK
}

/// Whether the three fields are each within the range that the layout gives
/// them, so that none of them spills into another.
pub open spec fn fields_fit(timestamp: u64, worker_id: u64, sequence: u64) -> bool {
    &&& EPOCH <= timestamp
    &&& timestamp - EPOCH < TIMESTAMP_SPAN
    &&& worker_id < WORKER_COUNT
    &&& sequence < SEQUENCE_COUNT
}

/// Packs three fields into an identifier.
pub fn pack(timestamp: u64, worker_id: u64, sequence: u64) -> (id: u64)
    requires
        timestamp >= EPOCH,
    ensures
        id == spec_pack(timestamp, worker_id, sequence),
{
    ((timestamp - EPOCH) << (WORKER_ID_BITS + SEQUENCE_BITS)) | (worker_id << SEQUENCE_BITS)
        | sequence
}

/// Reads the timestamp out of an identifier, in milliseconds since the Unix
/// epoch.
pub fn timestamp_of(id: u64) -> (timestamp: u64)
    ensures
        timestamp == spec_timestamp_of(id),
        timestamp >= EPOCH,
        timestamp - EPOCH < TIMESTAMP_SPAN,
{
    let elapsed: u64 = id >> TIMESTAMP_SHIFT;
    assert(id >> 17 < 0x8000_0000_0000u64) by (bit_vector);
    elapsed + EPOCH
}

/// Reads the worker number out of an identifier.
pub fn worker_id_of(id: u64) -> (worker_id: u64)
    ensures
        worker_id == spec_worker_id_of(id),
        worker_id < WORKER_COUNT,
{
    assert((id >> 12) & 31 < 32) by (bit_vector);
    (id >> SEQUENCE_BITS) & WORKER_ID_MASK
}

/// Reads the sequence value out of an identifier.
pub fn sequence_of(id: u64) -> (sequence: u64)
    ensures
        sequence == spec_sequence_of(id),
        sequence < SEQUENCE_COUNT,
{
    assert(id & 4095 < 4096) by (bit_vector);
    id & SEQUENCE_MASK
}

/// With every field in range the fields do not overlap, and the identifier is
/// the sum of the three fields, each scaled to its position.
pub proof fn lemma_pack_is_sum(timestamp: u64, worker_id: u64, sequence: u64)
    requires
        fields_fit(timestamp, worker_id, sequence),
    ensures
        spec_pack(timestamp, worker_id, sequence) == (timestamp - EPOCH) * (WORKER_COUNT
            * SEQUENCE_COUNT) + worker_id * SEQUENCE_COUNT + sequence,
{
    let elapsed: u64 = (timestamp - EPOCH) as u64;
    assert((elapsed << 17) | (worker_id << 12) | sequence == elapsed * 131072 + worker_id * 4096
        + sequence) by (bit_vector)
        requires
            elapsed < 0x8000_0000_0000u64,
            worker_id < 32,
            sequence < 4096,
    ;
}

/// Unpacking after packing gives back the three fields, when each was in
/// range.
pub proof fn lemma_unpack_pack(timestamp: u64, worker_id: u64, sequence: u64)
    requires
        fields_fit(timestamp, worker_id, sequence),
    ensures
        spec_timestamp_of(spec_pack(timestamp, worker_id, sequence)) == timestamp,
        spec_worker_id_of(spec_pack(timestamp, worker_id, sequence)) == worker_id,
        spec_sequence_of(spec_pack(timestamp, worker_id, sequence)) == sequence,
{
    let elapsed: u64 = (timestamp - EPOCH) as u64;
    let id: u64 = (elapsed << 17) | (worker_id << 12) | sequence;
    assert(id >> 17 == elapsed && (id >> 12) & 31 == worker_id && id & 4095 == sequence)
        by (bit_vector)
        requires
            id == (elapsed << 17) | (worker_id << 12) | sequence,
            elapsed < 0x8000_0000_0000u64,
            worker_id < 32,
            sequence < 4096,
    ;
}

/// Packing after unpacking gives back the identifier, whatever it is: every
/// `u64` is the packing of exactly the three fields read out of it.
pub proof fn lemma_pack_unpack(id: u64)
    ensures
        fields_fit(spec_timestamp_of(id), spec_worker_id_of(id), spec_sequence_of(id)),
        spec_pack(spec_timestamp_of(id), spec_worker_id_of(id), spec_sequence_of(id)) == id,
{
    let elapsed: u64 = id >> 17;
    assert(elapsed < 0x8000_0000_0000u64 && (id >> 12) & 31 < 32 && id & 4095 < 4096 && (elapsed
        << 17) | (((id >> 12) & 31) << 12) | (id & 4095) == id) by (bit_vector)
        requires
            elapsed == id >> 17,
    ;
}

/// The two lower fields survive packing whatever the timestamp is: one too
/// far from [`EPOCH`] loses bits of its own and touches no other field.
pub proof fn lemma_low_fields_survive(timestamp: u64, worker_id: u64, sequence: u64)
    requires
        timestamp >= EPOCH,
        worker_id < WORKER_COUNT,
        sequence < SEQUENCE_COUNT,
    ensures
        spec_worker_id_of(spec_pack(timestamp, worker_id, sequence)) == worker_id,
        spec_sequence_of(spec_pack(timestamp, worker_id, sequence)) == sequence,
{
    let elapsed: u64 = (timestamp - EPOCH) as u64;
    let id: u64 = (elapsed << 17) | (worker_id << 12) | sequence;
    assert((id >> 12) & 31 == worker_id && id & 4095 == sequence) by (bit_vector)
        requires
            id == (elapsed << 17) | (worker_id << 12) | sequence,
            worker_id < 32,
            sequence < 4096,
    ;
}

/// Identifiers sort as their fields do: by timestamp first, then by worker
/// number, then by sequence value.
pub proof fn lemma_pack_order(
    timestamp_a: u64,
    worker_a: u64,
    sequence_a: u64,
    timestamp_b: u64,
    worker_b: u64,
    sequence_b: u64,
)
    requires
        fields_fit(timestamp_a, worker_a, sequence_a),
        fields_fit(timestamp_b, worker_b, sequence_b),
    ensures
        spec_pack(timestamp_a, worker_a, sequence_a) < spec_pack(timestamp_b, worker_b, sequence_b)
            <==> (timestamp_a < timestamp_b || (timestamp_a == timestamp_b && (worker_a < worker_b
            || (worker_a == worker_b && sequence_a < sequence_b)))),
{
    lemma_pack_is_sum(timestamp_a, worker_a, sequence_a);
    lemma_pack_is_sum(timestamp_b, worker_b, sequence_b);
}

} // verus!
