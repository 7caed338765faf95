//! From one width to another.
//!
//! Widening keeps the sequence number and the worker identity, restores
//! the tick from the short timestamp and the epoch, and takes the bytes of
//! the machine identity that the narrow format has no room for from the
//! caller. Narrowing drops what the narrow format has no room for, and
//! fails where what is left would not say the same.

use crate::bytes::{
    be_bytes, be_value, from_be, lemma_be_bytes_of_value, lemma_be_value_bound,
    lemma_pow256_values,
};
use crate::clock::{
    epoch_relative, relative_timestamp, TICKS_PER_STEP, UUID_TICKS_BETWEEN_EPOCHS,
};
use crate::error::{agrees, Error};
use crate::layout::{
    decode_128, decode_64, decode_96, encode_128, encode_64, encode_96, fields_128, fields_64,
    fields_96, layout_128, layout_64, layout_96, lemma_fields_fit, lemma_repack_64,
    lemma_repack_96, lemma_round_trip_bytes, machine_of, variant_of, version_of, Fields,
    UUID_VARIANT, UUID_VERSION,
};
use crate::worker::NARROW_WORKER_IDS;
use vstd::prelude::*;

verus! {

/// The tick that a short timestamp stands for: the start of its step,
/// counted from the Gregorian epoch, in the 60 bits that a UUID has for it.
pub open spec fn restored_tick(timestamp: u64, epoch: u64) -> u64 {
    ((timestamp * TICKS_PER_STEP + epoch + UUID_TICKS_BETWEEN_EPOCHS)
        % 0x1000_0000_0000_0000) as u64
}

/// The fields of the 128-bit identifier that the 96-bit fields `f` widen to.
pub open spec fn widen_96_to_128(f: Fields, epoch: u64, machine_id_hi: u8) -> Fields {
    Fields {
        timestamp: restored_tick(f.timestamp, epoch),
        sequence: f.sequence,
        worker_id: f.worker_id,
        machine_id: (machine_id_hi * 0x100_0000 + f.machine_id % 0x100_0000) as u32,
    }
}

/// The fields of the 96-bit identifier that the 64-bit fields `f` widen to.
pub open spec fn widen_64_to_96(f: Fields, machine_id: u32) -> Fields {
    Fields {
        timestamp: f.timestamp,
        sequence: f.sequence,
        worker_id: f.worker_id,
        machine_id,
    }
}

/// The fields of the 96-bit identifier that the 128-bit fields `f` narrow
/// to: the top byte of the machine identity goes, and the tick is kept to the
/// step. There is none where the tick lies before `epoch`.
pub open spec fn narrow_128_to_96(f: Fields, epoch: u64) -> Result<Fields, Error> {
    match epoch_relative(f.timestamp, epoch) {
        Some(timestamp) => Ok(
            Fields {
                timestamp: (timestamp % 0x400_0000_0000) as u64,
                sequence: f.sequence,
                worker_id: f.worker_id,
                machine_id: f.machine_id % 0x100_0000,
            },
        ),
        None => Err(Error::EpochException),
    }
}

/// The fields of the 64-bit identifier that the 96-bit fields `f` narrow to:
/// the machine identity goes. There is none where the worker identity needs
/// more than a byte.
pub open spec fn narrow_96_to_64(f: Fields) -> Result<Fields, Error> {
    if f.worker_id >= NARROW_WORKER_IDS {
        Err(Error::WorkerIDOverflow)
    } else {
        Ok(
            Fields {
                timestamp: f.timestamp,
                sequence: f.sequence,
                worker_id: f.worker_id,
                machine_id: 0,
            },
        )
    }
}

/// The version-1 UUID that the 96-bit identifier `short_96` widens to.
pub open spec fn widened_96_to_128(short_96: Seq<u8>, epoch: u64, machine_id_hi: u8) -> Seq<u8> {
    be_bytes(layout_128(widen_96_to_128(fields_96(be_value(short_96)), epoch, machine_id_hi)), 16)
}

/// The 96-bit identifier that the 64-bit identifier `short_64` widens to.
pub open spec fn widened_64_to_96(short_64: Seq<u8>, machine_id: Seq<u8>) -> Seq<u8> {
    be_bytes(layout_96(widen_64_to_96(fields_64(be_value(short_64)), machine_of(machine_id))), 12)
}

/// The version-1 UUID that the 64-bit identifier `short_64` widens to, by
/// way of 96 bits: the first byte of `machine_id` is the top byte that the
/// second widening adds.
pub open spec fn widened_64_to_128(short_64: Seq<u8>, epoch: u64, machine_id: Seq<u8>) -> Seq<u8> {
    widened_96_to_128(
        widened_64_to_96(short_64, machine_id.skip(1)),
        epoch,
        machine_id[0],
    )
}

/// The 96-bit identifier that the 128-bit identifier `short_128` narrows
/// to, or why there is none.
pub open spec fn narrowed_128_to_96(short_128: Seq<u8>, epoch: u64) -> Result<Seq<u8>, Error> {
    match narrow_128_to_96(fields_128(be_value(short_128)), epoch) {
        Ok(f) => Ok(be_bytes(layout_96(f), 12)),
        Err(e) => Err(e),
    }
}

/// The 64-bit identifier that the 96-bit identifier `short_96` narrows to,
/// or why there is none.
pub open spec fn narrowed_96_to_64(short_96: Seq<u8>) -> Result<Seq<u8>, Error> {
    match narrow_96_to_64(fields_96(be_value(short_96))) {
        Ok(f) => Ok(be_bytes(layout_64(f), 8)),
        Err(e) => Err(e),
    }
}

/// The tick that a short timestamp stands for.
pub fn restore_tick(timestamp: u64, epoch: u64) -> (tick: u64)
    ensures
        tick == restored_tick(timestamp, epoch),
        tick < 0x1000_0000_0000_0000,
{
    let ticks: u128 = timestamp as u128 * 8192;
    let sum: u128 = ticks + epoch as u128 + UUID_TICKS_BETWEEN_EPOCHS as u128;
    (sum % 0x1000_0000_0000_0000) as u64
}

/// Widens a 96-bit identifier to a version-1 UUID. `epoch` is the epoch that
/// the identifier was issued with; `machine_id_hi` becomes the top byte of the
/// machine identity.
pub fn short_96_to_128(short_96: [u8; 12], epoch: u64, machine_id_hi: u8) -> (id: [u8; 16])
    ensures
        id@ == widened_96_to_128(short_96@, epoch, machine_id_hi),
        version_of(be_value(id@)) == UUID_VERSION,
        variant_of(be_value(id@)) == UUID_VARIANT,
{
    let f = decode_96(&short_96);
    encode_128(
        &Fields {
            timestamp: restore_tick(f.timestamp, epoch),
            sequence: f.sequence,
            worker_id: f.worker_id,
            machine_id: machine_id_hi as u32 * 0x100_0000 + f.machine_id,
        },
    )
}

/// Widens a 64-bit identifier to a 96-bit one of the machine `machine_id`.
/// The worker identity gets a top byte of zero.
pub fn short_64_to_96(short_64: [u8; 8], machine_id: [u8; 3]) -> (id: [u8; 12])
    ensures
        id@ == widened_64_to_96(short_64@, machine_id@),
{
    proof {
        lemma_pow256_values();
    }
    let f = decode_64(&short_64);
    let machine: u32 = from_be::<3>(&machine_id) as u32;
    encode_96(
        &Fields {
            timestamp: f.timestamp,
            sequence: f.sequence,
            worker_id: f.worker_id,
            machine_id: machine,
        },
    )
}

/// Widens a 64-bit identifier to a version-1 UUID: to 96 bits with the three
/// low bytes of `machine_id`, and from there to 128 with its top byte.
pub fn short_64_to_128(short_64: [u8; 8], epoch: u64, machine_id: [u8; 4]) -> (id: [u8; 16])
    ensures
        id@ == widened_64_to_128(short_64@, epoch, machine_id@),
        version_of(be_value(id@)) == UUID_VERSION,
        variant_of(be_value(id@)) == UUID_VARIANT,
{
    let short_96 = short_64_to_96(short_64, [machine_id[1], machine_id[2], machine_id[3]]);
    proof {
        assert(machine_id@.skip(1) =~= [machine_id[1], machine_id[2], machine_id[3]]@);
    }
    short_96_to_128(short_96, epoch, machine_id[0])
}

/// Narrows a 128-bit identifier to a 96-bit one with the epoch `epoch`. It
/// is `EpochException` where the tick lies before the epoch.
pub fn short_128_to_96(short_128: [u8; 16], epoch: u64) -> (r: Result<[u8; 12], Error>)
    ensures
        agrees(r, narrowed_128_to_96(short_128@, epoch)),
{
    let f = decode_128(&short_128);
    match relative_timestamp(f.timestamp, epoch) {
        Ok(timestamp) => Ok(
            encode_96(
                &Fields {
                    timestamp: timestamp % 0x400_0000_0000,
                    sequence: f.sequence,
                    worker_id: f.worker_id,
                    machine_id: f.machine_id % 0x100_0000,
                },
            ),
        ),
        Err(e) => Err(e),
    }
}

/// Narrows a 96-bit identifier to a 64-bit one. It is `WorkerIDOverflow`
/// where the worker identity needs more than a byte.
pub fn short_96_to_64(short_96: [u8; 12]) -> (r: Result<[u8; 8], Error>)
    ensures
        agrees(r, narrowed_96_to_64(short_96@)),
{
    let f = decode_96(&short_96);
    if f.worker_id >= NARROW_WORKER_IDS {
        return Err(Error::WorkerIDOverflow);
    }
    Ok(
        encode_64(
            &Fields {
                timestamp: f.timestamp,
                sequence: f.sequence,
                worker_id: f.worker_id,
                machine_id: 0,
            },
        ),
    )
}

/// Widening to 128 bits keeps what both widths hold. The sequence number
/// and the worker identity are unchanged, the timestamp is the tick that the
/// short timestamp stands for, and the machine identity has `machine_id_hi`
/// for its top byte: with 0 there, it is the old one filled up with zeros.
pub proof fn lemma_widen_96_keeps_fields(short_96: Seq<u8>, epoch: u64, machine_id_hi: u8)
    ensures
        ({
            let narrow = fields_96(be_value(short_96));
            let wide = fields_128(be_value(widened_96_to_128(short_96, epoch, machine_id_hi)));
            &&& wide.sequence == narrow.sequence
            &&& wide.worker_id == narrow.worker_id
            &&& wide.timestamp == restored_tick(narrow.timestamp, epoch)
            &&& wide.machine_id == machine_id_hi * 0x100_0000 + narrow.machine_id
            &&& narrow.timestamp * TICKS_PER_STEP + epoch + UUID_TICKS_BETWEEN_EPOCHS
                < 0x1000_0000_0000_0000 ==> wide.timestamp == narrow.timestamp * TICKS_PER_STEP
                + epoch + UUID_TICKS_BETWEEN_EPOCHS
        }),
{
    let narrow = fields_96(be_value(short_96));
    lemma_fields_fit(be_value(short_96));
    lemma_round_trip_bytes(widen_96_to_128(narrow, epoch, machine_id_hi));
}

/// Widening to 96 bits keeps what both widths hold. Timestamp and sequence
/// number are unchanged, the worker identity is the old one with a top byte
/// of zero, and the machine identity is the one given.
pub proof fn lemma_widen_64_keeps_fields(short_64: Seq<u8>, machine_id: Seq<u8>)
    requires
        machine_id.len() == 3,
    ensures
        ({
            let narrow = fields_64(be_value(short_64));
            let wide = fields_96(be_value(widened_64_to_96(short_64, machine_id)));
            &&& wide.timestamp == narrow.timestamp
            &&& wide.sequence == narrow.sequence
            &&& wide.worker_id == narrow.worker_id
            &&& wide.worker_id < NARROW_WORKER_IDS
            &&& wide.machine_id == be_value(machine_id)
        }),
{
    let narrow = fields_64(be_value(short_64));
    lemma_fields_fit(be_value(short_64));
    lemma_be_value_bound(machine_id);
    lemma_pow256_values();
    lemma_round_trip_bytes(widen_64_to_96(narrow, machine_of(machine_id)));
}

/// Narrowing undoes widening, from 128 bits to 96: an identifier that was
/// widened, with whatever top byte, narrows to itself under the same epoch,
/// as long as the tick it stands for fits the 60 bits of a UUID.
pub proof fn lemma_narrow_undoes_widen_96(short_96: Seq<u8>, epoch: u64, machine_id_hi: u8)
    requires
        short_96.len() == 12,
        fields_96(be_value(short_96)).timestamp * TICKS_PER_STEP + epoch
            + UUID_TICKS_BETWEEN_EPOCHS < 0x1000_0000_0000_0000,
    ensures
        narrowed_128_to_96(widened_96_to_128(short_96, epoch, machine_id_hi), epoch) == Ok::<
            Seq<u8>,
            Error,
        >(short_96),
{
    let narrow = fields_96(be_value(short_96));
    let wide = widen_96_to_128(narrow, epoch, machine_id_hi);
    lemma_widen_96_keeps_fields(short_96, epoch, machine_id_hi);
    lemma_fields_fit(be_value(short_96));
    lemma_round_trip_bytes(wide);
    assert(narrow_128_to_96(wide, epoch) == Ok::<Fields, Error>(narrow));
    lemma_be_value_bound(short_96);
    lemma_pow256_values();
    lemma_repack_96(be_value(short_96));
    lemma_be_bytes_of_value(short_96);
}

/// Narrowing undoes widening, from 96 bits to 64: an identifier that was
/// widened, with whatever machine identity, narrows to itself.
pub proof fn lemma_narrow_undoes_widen_64(short_64: Seq<u8>, machine_id: Seq<u8>)
    requires
        short_64.len() == 8,
        machine_id.len() == 3,
    ensures
        narrowed_96_to_64(widened_64_to_96(short_64, machine_id)) == Ok::<Seq<u8>, Error>(
            short_64,
        ),
{
    let narrow = fields_64(be_value(short_64));
    lemma_widen_64_keeps_fields(short_64, machine_id);
    lemma_fields_fit(be_value(short_64));
    let wide = fields_96(be_value(widened_64_to_96(short_64, machine_id)));
    assert(narrow_96_to_64(wide) == Ok::<Fields, Error>(narrow));
    lemma_be_value_bound(short_64);
    lemma_pow256_values();
    lemma_repack_64(be_value(short_64));
    lemma_be_bytes_of_value(short_64);
}

/// A tick that is turned into a short timestamp and restored is moved back
/// to the start of its step.
pub proof fn lemma_restored_start(tick: u64, epoch: u64)
    requires
        tick < 0x1000_0000_0000_0000,
        tick >= UUID_TICKS_BETWEEN_EPOCHS + epoch,
    ensures
        restored_tick(epoch_relative(tick, epoch).unwrap(), epoch) == tick - (tick
            - UUID_TICKS_BETWEEN_EPOCHS - epoch) % (TICKS_PER_STEP as int),
{
    let since = tick - UUID_TICKS_BETWEEN_EPOCHS - epoch;
    let steps = since / 8192;
    assert(steps * 8192 + since % 8192 == since);
    let start = steps * 8192 + epoch + UUID_TICKS_BETWEEN_EPOCHS;
    assert(start == tick - since % 8192);
    assert(0 <= start < 0x1000_0000_0000_0000);
    assert(start % 0x1000_0000_0000_0000 == start);
}

/// What the fields of a 128-bit identifier are after narrowing and
/// widening again with a top byte of zero.
pub proof fn lemma_widen_narrow_fields(was: Fields, epoch: u64)
    requires
        was.fits_128(),
        narrow_128_to_96(was, epoch) is Ok,
        epoch_relative(was.timestamp, epoch).unwrap() < 0x400_0000_0000,
    ensures
        ({
            let kept = narrow_128_to_96(was, epoch).unwrap();
            let wide = widen_96_to_128(kept, epoch, 0);
            &&& kept.fits_96()
            &&& wide.fits_128()
            &&& wide.sequence == was.sequence
            &&& wide.worker_id == was.worker_id
            &&& wide.timestamp == was.timestamp - (was.timestamp - UUID_TICKS_BETWEEN_EPOCHS
                - epoch) % (TICKS_PER_STEP as int)
            &&& wide.machine_id == was.machine_id % 0x100_0000
        }),
{
    lemma_restored_start(was.timestamp, epoch);
}

/// Widening what was narrowed from 128 bits, with a top byte of zero. The
/// sequence number and the worker identity are those of the identifier that
/// was narrowed; the tick is its tick moved back to the start of its step;
/// of the machine identity the top byte is zero. It holds where the steps
/// since the epoch fit the 42 bits that the 96-bit format has for them.
pub proof fn lemma_widen_after_narrow_128(short_128: Seq<u8>, epoch: u64)
    requires
        narrowed_128_to_96(short_128, epoch) is Ok,
        epoch_relative(fields_128(be_value(short_128)).timestamp, epoch).unwrap()
            < 0x400_0000_0000,
    ensures
        ({
            let was = fields_128(be_value(short_128));
            let narrow = narrowed_128_to_96(short_128, epoch).unwrap();
            let wide = fields_128(be_value(widened_96_to_128(narrow, epoch, 0)));
            &&& wide.sequence == was.sequence
            &&& wide.worker_id == was.worker_id
            &&& wide.timestamp == was.timestamp - (was.timestamp - UUID_TICKS_BETWEEN_EPOCHS
                - epoch) % (TICKS_PER_STEP as int)
            &&& wide.machine_id == was.machine_id % 0x100_0000
        }),
{
    let was = fields_128(be_value(short_128));
    let kept = narrow_128_to_96(was, epoch).unwrap();
    let narrow = narrowed_128_to_96(short_128, epoch).unwrap();
    assert(was.fits_128()) by {
        lemma_fields_fit(be_value(short_128));
    }
    lemma_widen_narrow_fields(was, epoch);
    assert(fields_96(be_value(narrow)) == kept) by {
        lemma_round_trip_bytes(kept);
    }
    let wide = widen_96_to_128(kept, epoch, 0);
    assert(fields_128(be_value(widened_96_to_128(narrow, epoch, 0))) == wide) by {
        lemma_round_trip_bytes(wide);
    }
}

/// Widening what was narrowed from 96 bits, with a machine identity of
/// zeros. Timestamp, sequence number and worker identity are those of the
/// identifier that was narrowed, and the machine identity is zero.
pub proof fn lemma_widen_after_narrow_96(short_96: Seq<u8>)
    requires
        narrowed_96_to_64(short_96) is Ok,
    ensures
        ({
            let was = fields_96(be_value(short_96));
            let narrow = narrowed_96_to_64(short_96).unwrap();
            let wide = fields_96(be_value(widened_64_to_96(narrow, seq![0u8, 0u8, 0u8])));
            &&& wide.timestamp == was.timestamp
            &&& wide.sequence == was.sequence
            &&& wide.worker_id == was.worker_id
            &&& wide.machine_id == 0
        }),
{
    let was = fields_96(be_value(short_96));
    lemma_fields_fit(be_value(short_96));
    let kept = narrow_96_to_64(was).unwrap();
    lemma_round_trip_bytes(kept);
    let narrow = narrowed_96_to_64(short_96).unwrap();
    assert(fields_64(be_value(narrow)) == kept);
    let zeros = seq![0u8, 0u8, 0u8];
    lemma_widen_64_keeps_fields(narrow, zeros);
    assert(be_value(zeros) == 0) by {
        reveal_with_fuel(be_value, 4);
    }
}

} // verus!
