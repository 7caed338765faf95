//! Identifiers sort by the time they were issued.
//!
//! Read as big-endian numbers, the identifiers that one generator issues in
//! one format, for one machine and one epoch, grow from each to the next.
//! The short formats keep the timestamp on top, so this fails only where
//! their 42 bits of timestamp wrap round. A UUID has the low 32 bits of its
//! timestamp on top, so it fails where those wrap round: once in about seven
//! minutes of ticks.

use crate::bytes::{be_value, lemma_be_value_of_bytes_exact, lemma_pow256_values};
use crate::clock::{epoch_relative, TICKS_PER_STEP};
use crate::generator::{id_128, id_64, id_96};
use crate::layout::{
    layout_64, layout_96, lemma_uuid_layout_marks, machine_of, uuid_layout, Fields,
};
use crate::sequence::Stamp;
use crate::shared::uuid_at;
use vstd::prelude::*;

verus! {

/// The number of a UUID grows from a stamp to the next, whatever the node,
/// unless the tick moves on and its low 32 bits wrap round.
pub proof fn lemma_uuid_layout_grows(pre: Stamp, wall: Option<u64>, node: int)
    requires
        pre.in_range(),
        pre.step(1, wall) is Ok,
        pre.has_headroom() || pre.timestamp % 0x1_0000_0000 != 0xFFFF_FFFF,
        0 <= node,
    ensures
        ({
            let post = pre.step(1, wall).unwrap();
            uuid_layout(pre.timestamp as int, pre.sequence as int, node) < uuid_layout(
                post.timestamp as int,
                post.sequence as int,
                node,
            )
        }),
{
}

/// Each 128-bit identifier of a generator is greater than the one before,
/// unless the tick moved on between the two and its low 32 bits wrapped
/// round.
pub proof fn lemma_order_128(pre: Stamp, wall: Option<u64>, worker: u16, machine_id: Seq<u8>)
    requires
        pre.in_range(),
        pre.step(1, wall) is Ok,
        pre.has_headroom() || pre.timestamp % 0x1_0000_0000 != 0xFFFF_FFFF,
    ensures
        be_value(id_128(pre, worker, machine_id)) < be_value(
            id_128(pre.step(1, wall).unwrap(), worker, machine_id),
        ),
{
    let post = pre.step(1, wall).unwrap();
    let node = worker * 0x1_0000_0000 + machine_of(machine_id);
    lemma_pow256_values();
    lemma_uuid_layout_marks(pre.timestamp as int, pre.sequence as int, node);
    lemma_uuid_layout_marks(post.timestamp as int, post.sequence as int, node);
    lemma_be_value_of_bytes_exact(uuid_layout(pre.timestamp as int, pre.sequence as int, node), 16);
    lemma_be_value_of_bytes_exact(
        uuid_layout(post.timestamp as int, post.sequence as int, node),
        16,
    );
    lemma_uuid_layout_grows(pre, wall, node);
}

/// Each UUID of the shared generator is greater than the one before, unless
/// the tick moved on between the two and its low 32 bits wrapped round.
pub proof fn lemma_order_uuid(pre: Stamp, wall: u64, node: Seq<u8>)
    requires
        pre.in_range(),
        pre.step(1, Some(wall)) is Ok,
        pre.has_headroom() || pre.timestamp % 0x1_0000_0000 != 0xFFFF_FFFF,
    ensures
        be_value(uuid_at(pre, node)) < be_value(uuid_at(pre.step(1, Some(wall)).unwrap(), node)),
{
    let post = pre.step(1, Some(wall)).unwrap();
    let n = be_value(node) as int;
    lemma_pow256_values();
    lemma_uuid_layout_marks(pre.timestamp as int, pre.sequence as int, n);
    lemma_uuid_layout_marks(post.timestamp as int, post.sequence as int, n);
    lemma_be_value_of_bytes_exact(uuid_layout(pre.timestamp as int, pre.sequence as int, n), 16);
    lemma_be_value_of_bytes_exact(uuid_layout(post.timestamp as int, post.sequence as int, n), 16);
    lemma_uuid_layout_grows(pre, Some(wall), n);
}

/// The short timestamp of the stamp after `pre`, where the tick moves in
/// steps of `TICKS_PER_STEP`: the same within a tick, one more at its end.
pub proof fn lemma_short_timestamp_steps(pre: Stamp, wall: Option<u64>, epoch: u64)
    requires
        pre.step(TICKS_PER_STEP, wall) is Ok,
        epoch_relative(pre.timestamp, epoch) is Some,
    ensures
        ({
            let post = pre.step(TICKS_PER_STEP, wall).unwrap();
            &&& epoch_relative(post.timestamp, epoch) is Some
            &&& epoch_relative(post.timestamp, epoch).unwrap() == epoch_relative(
                pre.timestamp,
                epoch,
            ).unwrap() + if pre.has_headroom() {
                0int
            } else {
                1int
            }
        }),
{
}

/// Each 96-bit identifier of a generator is greater than the one before,
/// unless the tick moved on between the two and the 42 bits of the
/// timestamp wrapped round.
pub proof fn lemma_order_96(
    pre: Stamp,
    wall: Option<u64>,
    worker: u16,
    machine_id: Seq<u8>,
    epoch: u64,
)
    requires
        pre.in_range(),
        pre.step(TICKS_PER_STEP, wall) is Ok,
        id_96(pre, worker, machine_id, epoch) is Ok,
        pre.has_headroom() || epoch_relative(pre.timestamp, epoch).unwrap() % 0x400_0000_0000
            != 0x3FF_FFFF_FFFF,
    ensures
        ({
            let post = pre.step(TICKS_PER_STEP, wall).unwrap();
            &&& id_96(post, worker, machine_id, epoch) is Ok
            &&& be_value(id_96(pre, worker, machine_id, epoch).unwrap()) < be_value(
                id_96(post, worker, machine_id, epoch).unwrap(),
            )
        }),
{
    let post = pre.step(TICKS_PER_STEP, wall).unwrap();
    lemma_short_timestamp_steps(pre, wall, epoch);
    let before = Fields {
        timestamp: epoch_relative(pre.timestamp, epoch).unwrap(),
        sequence: pre.sequence,
        worker_id: worker,
        machine_id: machine_of(machine_id),
    };
    let after = Fields {
        timestamp: epoch_relative(post.timestamp, epoch).unwrap(),
        sequence: post.sequence,
        worker_id: worker,
        machine_id: machine_of(machine_id),
    };
    lemma_pow256_values();
    lemma_layout_96_bound(before);
    lemma_layout_96_bound(after);
    lemma_be_value_of_bytes_exact(layout_96(before), 12);
    lemma_be_value_of_bytes_exact(layout_96(after), 12);
    assert(layout_96(before) < layout_96(after));
}

/// Each 64-bit identifier of a generator is greater than the one before,
/// unless the tick moved on between the two and the 42 bits of the
/// timestamp wrapped round.
pub proof fn lemma_order_64(pre: Stamp, wall: Option<u64>, worker: u16, epoch: u64)
    requires
        pre.in_range(),
        pre.step(TICKS_PER_STEP, wall) is Ok,
        id_64(pre, worker, epoch) is Ok,
        pre.has_headroom() || epoch_relative(pre.timestamp, epoch).unwrap() % 0x400_0000_0000
            != 0x3FF_FFFF_FFFF,
    ensures
        ({
            let post = pre.step(TICKS_PER_STEP, wall).unwrap();
            &&& id_64(post, worker, epoch) is Ok
            &&& be_value(id_64(pre, worker, epoch).unwrap()) < be_value(
                id_64(post, worker, epoch).unwrap(),
            )
        }),
{
    let post = pre.step(TICKS_PER_STEP, wall).unwrap();
    lemma_short_timestamp_steps(pre, wall, epoch);
    let before = Fields {
        timestamp: epoch_relative(pre.timestamp, epoch).unwrap(),
        sequence: pre.sequence,
        worker_id: worker,
        machine_id: 0,
    };
    let after = Fields {
        timestamp: epoch_relative(post.timestamp, epoch).unwrap(),
        sequence: post.sequence,
        worker_id: worker,
        machine_id: 0,
    };
    lemma_pow256_values();
    lemma_layout_64_bound(before);
    lemma_layout_64_bound(after);
    lemma_be_value_of_bytes_exact(layout_64(before), 8);
    lemma_be_value_of_bytes_exact(layout_64(after), 8);
    assert(layout_64(before) < layout_64(after));
}

/// The number of a 96-bit layout is below 2^96, whatever the fields are.
pub proof fn lemma_layout_96_bound(f: Fields)
    ensures
        layout_96(f) < 0x1_0000_0000_0000_0000_0000_0000,
{
}

/// The number of a 64-bit layout is below 2^64, whatever the fields are.
pub proof fn lemma_layout_64_bound(f: Fields)
    ensures
        layout_64(f) < 0x1_0000_0000_0000_0000,
{
}

} // verus!
