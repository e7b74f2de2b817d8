//! What a generator issues over a run of clock readings, and what holds of
//! every such run.
//!
//! A run feeds the readings to [`SnowflakeGen::next_at`] one by one. A
//! reading at which nothing is issued, because it is a clock fault or
//! because its millisecond is used up, leaves the generator as it was.
//!
//! [`SnowflakeGen::next_at`]: crate::generator::SnowflakeGen::next_at

use crate::generator::GeneratorState;
use crate::layout::{
    lemma_low_fields_survive, lemma_pack_order, spec_pack, spec_worker_id_of, EPOCH,
    SEQUENCE_COUNT, TIMESTAMP_SPAN,
};
use vstd::prelude::*;

verus! {

/// The state after one call for each reading of `clock`, in order.
pub open spec fn state_after(s: GeneratorState, clock: Seq<u64>) -> GeneratorState
    decreases clock.len(),
{
    if clock.len() == 0 {
        s
    } else {
        state_after(s, clock.drop_last()).step(clock.last())
    }
}

/// The identifiers issued by one call for each reading of `clock`, in the
/// order of issue.
pub open spec fn issued(s: GeneratorState, clock: Seq<u64>) -> Seq<u64>
    decreases clock.len(),
{
    if clock.len() == 0 {
        Seq::empty()
    } else {
        let before = state_after(s, clock.drop_last());
        let earlier = issued(s, clock.drop_last());
        if before.issues_at(clock.last()) {
            earlier.push(before.issue_at(clock.last()).id())
        } else {
            earlier
        }
    }
}

/// The clock never goes back: no reading is below an earlier one.
pub open spec fn non_decreasing(clock: Seq<u64>) -> bool {
    forall|i: int, j: int| 0 <= i <= j < clock.len() ==> clock[i] <= clock[j]
}

/// Every reading is one whose distance from [`EPOCH`] the timestamp field
/// can hold.
pub open spec fn within_span(clock: Seq<u64>) -> bool {
    forall|i: int| 0 <= i < clock.len() ==> #[trigger] clock[i] < EPOCH + TIMESTAMP_SPAN
}

/// The run starts no earlier than the generator's last identifier, and the
/// clock does not go back during it, nor beyond what the timestamp field
/// can hold.
pub open spec fn clock_moves_forward(s: GeneratorState, clock: Seq<u64>) -> bool {
    &&& non_decreasing(clock)
    &&& within_span(clock)
    &&& clock.len() > 0 ==> s.last_timestamp <= clock[0]
}

/// One identifier is greater than the one before it, when the clock has not
/// gone back between the two.
pub proof fn lemma_next_is_greater(s: GeneratorState, now: u64)
    requires
        s.wf(),
        EPOCH <= s.last_timestamp <= now < EPOCH + TIMESTAMP_SPAN,
        s.issues_at(now),
    ensures
        s.id() < s.issue_at(now).id(),
{
    let t = s.issue_at(now);
    lemma_pack_order(
        s.last_timestamp,
        s.worker_id,
        s.sequence,
        t.last_timestamp,
        t.worker_id,
        t.sequence,
    );
}

/// Under a clock that moves forward, a run leaves the generator valid, for
/// the same worker, at the timestamp and identifier issued last, which is
/// greater than all before it.
proof fn lemma_run(s: GeneratorState, clock: Seq<u64>)
    requires
        s.wf(),
        clock_moves_forward(s, clock),
    ensures
        state_after(s, clock).wf(),
        state_after(s, clock).worker_id == s.worker_id,
        issued(s, clock).len() == 0 ==> state_after(s, clock) == s,
        issued(s, clock).len() > 0 ==> {
            &&& EPOCH <= state_after(s, clock).last_timestamp <= clock.last()
            &&& issued(s, clock).last() == state_after(s, clock).id()
        },
        forall|i: int, j: int|
            0 <= i < j < issued(s, clock).len() ==> issued(s, clock)[i] < issued(s, clock)[j],
        s.last_timestamp >= EPOCH ==> forall|i: int|
            0 <= i < issued(s, clock).len() ==> s.id() < #[trigger] issued(s, clock)[i],
    decreases clock.len(),
{
    if clock.len() > 0 {
        let head = clock.drop_last();
        let now = clock.last();
        let before = state_after(s, head);
        let earlier = issued(s, head);
        assert(clock_moves_forward(s, head)) by {
            assert forall|i: int| 0 <= i < head.len() implies #[trigger] head[i] < EPOCH
                + TIMESTAMP_SPAN by {
                assert(head[i] == clock[i]);
            }
            assert forall|i: int, j: int| 0 <= i <= j < head.len() implies head[i] <= head[j] by {
                assert(head[i] == clock[i] && head[j] == clock[j]);
            }
            if head.len() > 0 {
                assert(head[0] == clock[0]);
            }
        }
        lemma_run(s, head);
        assert(before.last_timestamp <= now) by {
            if earlier.len() > 0 {
                assert(head.last() == clock[head.len() - 1]);
            }
        }
        if before.issues_at(now) {
            let after = before.issue_at(now);
            let ids = issued(s, clock);
            assert(ids == earlier.push(after.id()));
            if before.last_timestamp >= EPOCH {
                lemma_next_is_greater(before, now);
            }
            assert forall|i: int, j: int| 0 <= i < j < ids.len() implies ids[i] < ids[j] by {
                if j < earlier.len() {
                    assert(ids[i] == earlier[i] && ids[j] == earlier[j]);
                } else {
                    assert(ids[i] == earlier[i]);
                    assert(earlier[i] <= earlier.last());
                }
            }
        }
    }
}

/// Under a clock that moves forward, each identifier of a run is greater
/// than every one issued before it in the run.
pub proof fn lemma_issued_increasing(s: GeneratorState, clock: Seq<u64>, i: int, j: int)
    requires
        s.wf(),
        clock_moves_forward(s, clock),
        0 <= i < j < issued(s, clock).len(),
    ensures
        issued(s, clock)[i] < issued(s, clock)[j],
{
    lemma_run(s, clock);
}

/// Under a clock that moves forward, a run issues no identifier twice.
pub proof fn lemma_issued_distinct(s: GeneratorState, clock: Seq<u64>, i: int, j: int)
    requires
        s.wf(),
        clock_moves_forward(s, clock),
        0 <= i < issued(s, clock).len(),
        0 <= j < issued(s, clock).len(),
        i != j,
    ensures
        issued(s, clock)[i] != issued(s, clock)[j],
{
    lemma_run(s, clock);
}

/// Under a clock that moves forward, every identifier of a run is greater
/// than the one that the generator issued last before the run.
pub proof fn lemma_issued_after_last(s: GeneratorState, clock: Seq<u64>, i: int)
    requires
        s.wf(),
        s.last_timestamp >= EPOCH,
        clock_moves_forward(s, clock),
        0 <= i < issued(s, clock).len(),
    ensures
        s.id() < issued(s, clock)[i],
{
    lemma_run(s, clock);
}

/// A clock that stands at `now` for `calls` readings.
pub open spec fn standing_clock(now: u64, calls: nat) -> Seq<u64> {
    Seq::new(calls, |i: int| now)
}

/// At a clock that comes to a new millisecond and stands there, the calls
/// issue that millisecond's identifiers with the sequence values 0, 1, 2 and
/// so on in order, until all [`SEQUENCE_COUNT`] of them are used; every call
/// after that issues nothing.
pub proof fn lemma_one_millisecond(s: GeneratorState, now: u64, calls: nat)
    requires
        s.wf(),
        now >= EPOCH,
        now != s.last_timestamp,
    ensures
        issued(s, standing_clock(now, calls)).len() == if calls <= SEQUENCE_COUNT {
            calls
        } else {
            SEQUENCE_COUNT as nat
        },
        forall|k: int|
            0 <= k < issued(s, standing_clock(now, calls)).len() ==> #[trigger] issued(
                s,
                standing_clock(now, calls),
            )[k] == spec_pack(now, s.worker_id, k as u64),
        calls > 0 ==> state_after(s, standing_clock(now, calls)) == (GeneratorState {
            worker_id: s.worker_id,
            last_timestamp: now,
            sequence: (issued(s, standing_clock(now, calls)).len() - 1) as u64,
        }),
    decreases calls,
{
    let clock = standing_clock(now, calls);
    if calls > 0 {
        let head = clock.drop_last();
        assert(head =~= standing_clock(now, (calls - 1) as nat));
        assert(clock.last() == now);
        lemma_one_millisecond(s, now, (calls - 1) as nat);
    }
}

/// A run leaves the generator valid and with the same worker, whatever the
/// clock does.
pub proof fn lemma_state_after_valid(s: GeneratorState, clock: Seq<u64>)
    requires
        s.wf(),
    ensures
        state_after(s, clock).wf(),
        state_after(s, clock).worker_id == s.worker_id,
    decreases clock.len(),
{
    if clock.len() > 0 {
        lemma_state_after_valid(s, clock.drop_last());
    }
}

/// Every identifier of a run carries the generator's worker number, whatever
/// the clock does.
pub proof fn lemma_issued_worker(s: GeneratorState, clock: Seq<u64>, i: int)
    requires
        s.wf(),
        0 <= i < issued(s, clock).len(),
    ensures
        spec_worker_id_of(issued(s, clock)[i]) == s.worker_id,
    decreases clock.len(),
{
    let head = clock.drop_last();
    let now = clock.last();
    let before = state_after(s, head);
    if i < issued(s, head).len() {
        lemma_issued_worker(s, head, i);
    } else {
        let after = before.issue_at(now);
        lemma_state_after_valid(s, head);
        lemma_low_fields_survive(after.last_timestamp, after.worker_id, after.sequence);
    }
}

/// Two generators for different workers never issue the same identifier,
/// whatever their clocks do and whether or not they read the same one.
pub proof fn lemma_workers_apart(
    a: GeneratorState,
    clock_a: Seq<u64>,
    i: int,
    b: GeneratorState,
    clock_b: Seq<u64>,
    j: int,
)
    requires
        a.wf(),
        b.wf(),
        a.worker_id != b.worker_id,
        0 <= i < issued(a, clock_a).len(),
        0 <= j < issued(b, clock_b).len(),
    ensures
        issued(a, clock_a)[i] != issued(b, clock_b)[j],
{
    lemma_issued_worker(a, clock_a, i);
    lemma_issued_worker(b, clock_b, j);
}

} // verus!
