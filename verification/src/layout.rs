//! The three bit layouts, and packing fields into them and back.
//!
//! An identifier is a big-endian number. Each layout is stated as the sum
//! that gives that number from the fields; a field wider than its place in
//! the layout is stored modulo the width of the place.
//!
//! | width | fields, most significant first |
//! |---|---|
//! | 128 | time-low 32, time-mid 16, version 4 (`0001`), time-high 12, variant 2 (`10`), sequence 14, worker 16, machine 32 |
//! | 96 | timestamp 42, sequence 14, worker 16, machine 24 |
//! | 64 | timestamp 42, sequence 14, worker 8 |

use crate::bytes::{
    be_bytes, be_value, from_be, lemma_be_value_of_bytes_exact, lemma_pow256_values, to_be,
};
use vstd::arithmetic::div_mod::lemma_div_denominator;
use vstd::prelude::*;

verus! {

/// The version nibble of a time-based UUID.
pub const UUID_VERSION: u8 = 1;

/// The two variant bits `10` of RFC 4122.
pub const UUID_VARIANT: u8 = 2;

/// What an identifier is made of. `timestamp` is the timestamp field as the
/// format stores it: the whole tick in the 128-bit format, the tick relative
/// to an epoch and shifted down in the two short ones.
#[derive(Debug, Clone, Copy, PartialEq, Eq, Structural)]
pub struct Fields {
    pub timestamp: u64,
    pub sequence: u16,
    pub worker_id: u16,
    pub machine_id: u32,
}

impl Fields {
    /// Every field fits its place in the 128-bit layout: 60 bits of
    /// timestamp, 14 of sequence.
    pub open spec fn fits_128(self) -> bool {
        self.timestamp < 0x1000_0000_0000_0000 && self.sequence < 0x4000
    }

    /// Every field fits its place in the 96-bit layout: 42 bits of
    /// timestamp, 14 of sequence, 24 of machine identity.
    pub open spec fn fits_96(self) -> bool {
        self.timestamp < 0x400_0000_0000 && self.sequence < 0x4000 && self.machine_id < 0x100_0000
    }

    /// Every field fits its place in the 64-bit layout: 42 bits of
    /// timestamp, 14 of sequence, 8 of worker identity, no machine identity.
    pub open spec fn fits_64(self) -> bool {
        self.timestamp < 0x400_0000_0000 && self.sequence < 0x4000 && self.worker_id < 0x100
            && self.machine_id == 0
    }
}

/// The machine identity that the bytes spell, as the field that holds it.
pub open spec fn machine_of(machine_id: Seq<u8>) -> u32 {
    be_value(machine_id) as u32
}

/// The field of `width` values that stands in `v` above a place of `weight`.
pub open spec fn field(v: int, weight: int, width: int) -> int {
    (v / weight) % width
}

/// The number that a version-1 UUID spells, from its 60-bit timestamp, its
/// 14-bit clock sequence and its 48-bit node.
pub open spec fn uuid_layout(timestamp: int, sequence: int, node: int) -> nat {
    (field(timestamp, 1, 0x1_0000_0000) * 0x1_0000_0000_0000_0000_0000_0000  // time-low, 2^96
     + field(timestamp, 0x1_0000_0000, 0x1_0000) * 0x1_0000_0000_0000_0000_0000  // time-mid, 2^80
     + UUID_VERSION * 0x1000_0000_0000_0000_0000  // version, 2^76
     + field(timestamp, 0x1_0000_0000_0000, 0x1000) * 0x1_0000_0000_0000_0000  // time-high, 2^64
     + UUID_VARIANT * 0x4000_0000_0000_0000  // variant, 2^62
     + field(sequence, 1, 0x4000) * 0x1_0000_0000_0000  // sequence, 2^48
     + field(node, 1, 0x1_0000_0000_0000)) as nat
}

/// The 128-bit layout: a version-1 UUID whose node is the worker identity
/// followed by the machine identity.
pub open spec fn layout_128(f: Fields) -> nat {
    uuid_layout(f.timestamp as int, f.sequence as int, f.worker_id * 0x1_0000_0000 + f.machine_id)
}

/// The 96-bit layout.
pub open spec fn layout_96(f: Fields) -> nat {
    (field(f.timestamp as int, 1, 0x400_0000_0000) * 0x40_0000_0000_0000  // 2^54
     + field(f.sequence as int, 1, 0x4000) * 0x100_0000_0000  // 2^40
     + f.worker_id * 0x100_0000  // 2^24
     + field(f.machine_id as int, 1, 0x100_0000)) as nat
}

/// The 64-bit layout.
pub open spec fn layout_64(f: Fields) -> nat {
    (field(f.timestamp as int, 1, 0x400_0000_0000) * 0x40_0000  // 2^22
     + field(f.sequence as int, 1, 0x4000) * 0x100  // 2^8
     + field(f.worker_id as int, 1, 0x100)) as nat
}

/// The version nibble of the 128-bit number `v`.
pub open spec fn version_of(v: nat) -> int {
    field(v as int, 0x1000_0000_0000_0000_0000, 16)
}

/// The two variant bits of the 128-bit number `v`.
pub open spec fn variant_of(v: nat) -> int {
    field(v as int, 0x4000_0000_0000_0000, 4)
}

/// The fields that the 128-bit number `v` holds. The version and variant bits
/// are passed over.
pub open spec fn fields_128(v: nat) -> Fields {
    let v = v as int;
    Fields {
        timestamp: (field(v, 0x1_0000_0000_0000_0000, 0x1000) * 0x1_0000_0000_0000 + field(
            v,
            0x1_0000_0000_0000_0000_0000,
            0x1_0000,
        ) * 0x1_0000_0000 + field(v, 0x1_0000_0000_0000_0000_0000_0000, 0x1_0000_0000)) as u64,
        sequence: field(v, 0x1_0000_0000_0000, 0x4000) as u16,
        worker_id: field(v, 0x1_0000_0000, 0x1_0000) as u16,
        machine_id: field(v, 1, 0x1_0000_0000) as u32,
    }
}

/// The fields that the 96-bit number `v` holds.
pub open spec fn fields_96(v: nat) -> Fields {
    let v = v as int;
    Fields {
        timestamp: field(v, 0x40_0000_0000_0000, 0x400_0000_0000) as u64,
        sequence: field(v, 0x100_0000_0000, 0x4000) as u16,
        worker_id: field(v, 0x100_0000, 0x1_0000) as u16,
        machine_id: field(v, 1, 0x100_0000) as u32,
    }
}

/// The fields that the 64-bit number `v` holds.
pub open spec fn fields_64(v: nat) -> Fields {
    let v = v as int;
    Fields {
        timestamp: field(v, 0x40_0000, 0x400_0000_0000) as u64,
        sequence: field(v, 0x100, 0x4000) as u16,
        worker_id: field(v, 1, 0x100) as u16,
        machine_id: 0,
    }
}

/// A number made of a high part and a low part below `d` splits back into
/// the two.
pub proof fn lemma_split(d: int, q: int, r: int)
    requires
        0 < d,
        0 <= r < d,
    ensures
        (q * d + r) / d == q,
        (q * d + r) % d == r,
{
    vstd::arithmetic::div_mod::lemma_fundamental_div_mod_converse(q * d + r, d, q, r);
}

/// The number of a 128-bit layout is below 2^128 and carries version 1 and
/// the RFC 4122 variant, whatever the fields are.
pub proof fn lemma_uuid_layout_marks(timestamp: int, sequence: int, node: int)
    requires
        0 <= timestamp,
        0 <= sequence,
        0 <= node,
    ensures
        uuid_layout(timestamp, sequence, node) < 0x1_0000_0000_0000_0000_0000_0000_0000_0000,
        version_of(uuid_layout(timestamp, sequence, node)) == UUID_VERSION,
        variant_of(uuid_layout(timestamp, sequence, node)) == UUID_VARIANT,
{
    let tl = field(timestamp, 1, 0x1_0000_0000);
    let tm = field(timestamp, 0x1_0000_0000, 0x1_0000);
    let th = field(timestamp, 0x1_0000_0000_0000, 0x1000);
    let sq = field(sequence, 1, 0x4000);
    let nd = field(node, 1, 0x1_0000_0000_0000);
    let v = uuid_layout(timestamp, sequence, node) as int;
    // above the version nibble: time-low and time-mid
    let hi76 = tl * 0x1_0000 + tm;
    let lo76 = th * 0x1_0000_0000_0000_0000 + 2 * 0x4000_0000_0000_0000 + sq * 0x1_0000_0000_0000
        + nd;
    assert(v == (hi76 * 16 + 1) * 0x1000_0000_0000_0000_0000 + lo76);
    lemma_split(0x1000_0000_0000_0000_0000, hi76 * 16 + 1, lo76);
    lemma_split(16, hi76, 1);
    // above the variant bits: everything down to time-high
    let hi62 = (hi76 * 16 + 1) * 0x1000 + th;
    let lo62 = sq * 0x1_0000_0000_0000 + nd;
    assert(v == (hi62 * 4 + 2) * 0x4000_0000_0000_0000 + lo62);
    lemma_split(0x4000_0000_0000_0000, hi62 * 4 + 2, lo62);
    lemma_split(4, hi62, 2);
}

/// The timestamp of a UUID is put together again from its three parts.
pub proof fn lemma_timestamp_parts(timestamp: int)
    requires
        0 <= timestamp < 0x1000_0000_0000_0000,
    ensures
        field(timestamp, 0x1_0000_0000_0000, 0x1000) * 0x1_0000_0000_0000 + field(
            timestamp,
            0x1_0000_0000,
            0x1_0000,
        ) * 0x1_0000_0000 + field(timestamp, 1, 0x1_0000_0000) == timestamp,
{
}

/// Unpacking a packed 128-bit identifier gives back the fields that fit it.
pub proof fn lemma_round_trip_128(f: Fields)
    requires
        f.fits_128(),
    ensures
        fields_128(layout_128(f)) == f,
{
    let t = f.timestamp as int;
    let tl = field(t, 1, 0x1_0000_0000);
    let tm = field(t, 0x1_0000_0000, 0x1_0000);
    let th = field(t, 0x1_0000_0000_0000, 0x1000);
    let sq = f.sequence as int;
    let w = f.worker_id as int;
    let m = f.machine_id as int;
    let v = layout_128(f) as int;
    lemma_split(0x1_0000_0000_0000, w, m);
    lemma_split(0x4000, 0, sq);
    assert(field(w * 0x1_0000_0000 + m, 1, 0x1_0000_0000_0000) == w * 0x1_0000_0000 + m);
    // the parts above each field, from the top down
    let a96 = tl;
    let a80 = a96 * 0x1_0000 + tm;
    let a64 = (a80 * 16 + 1) * 0x1000 + th;
    let a48 = (a64 * 4 + 2) * 0x4000 + sq;
    let a32 = a48 * 0x1_0000 + w;
    assert(v == a32 * 0x1_0000_0000 + m);
    lemma_split(0x1_0000_0000, a32, m);
    lemma_split(0x1_0000, a48, w);
    assert(v == a48 * 0x1_0000_0000_0000 + (w * 0x1_0000_0000 + m));
    lemma_split(0x1_0000_0000_0000, a48, w * 0x1_0000_0000 + m);
    lemma_split(0x4000, a64 * 4 + 2, sq);
    let l64 = 2 * 0x4000_0000_0000_0000 + sq * 0x1_0000_0000_0000 + w * 0x1_0000_0000 + m;
    assert(v == a64 * 0x1_0000_0000_0000_0000 + l64);
    lemma_split(0x1_0000_0000_0000_0000, a64, l64);
    lemma_split(0x1000, a80 * 16 + 1, th);
    let l80 = 0x1000_0000_0000_0000_0000 + th * 0x1_0000_0000_0000_0000 + l64;
    assert(v == a80 * 0x1_0000_0000_0000_0000_0000 + l80);
    lemma_split(0x1_0000_0000_0000_0000_0000, a80, l80);
    lemma_split(0x1_0000, a96, tm);
    let l96 = tm * 0x1_0000_0000_0000_0000_0000 + l80;
    assert(v == a96 * 0x1_0000_0000_0000_0000_0000_0000 + l96);
    lemma_split(0x1_0000_0000_0000_0000_0000_0000, a96, l96);
    lemma_split(0x1_0000_0000, 0, tl);
    lemma_timestamp_parts(t);
}

/// Unpacking a packed 96-bit identifier gives back the fields that fit it.
pub proof fn lemma_round_trip_96(f: Fields)
    requires
        f.fits_96(),
    ensures
        layout_96(f) < 0x1_0000_0000_0000_0000_0000_0000,
        fields_96(layout_96(f)) == f,
{
    let t = f.timestamp as int;
    let sq = f.sequence as int;
    let w = f.worker_id as int;
    let m = f.machine_id as int;
    let v = layout_96(f) as int;
    lemma_split(0x400_0000_0000, 0, t);
    lemma_split(0x4000, 0, sq);
    lemma_split(0x100_0000, 0, m);
    let a40 = t * 0x4000 + sq;
    let a24 = a40 * 0x1_0000 + w;
    assert(v == a24 * 0x100_0000 + m);
    lemma_split(0x100_0000, a24, m);
    lemma_split(0x1_0000, a40, w);
    assert(v == a40 * 0x100_0000_0000 + (w * 0x100_0000 + m));
    lemma_split(0x100_0000_0000, a40, w * 0x100_0000 + m);
    lemma_split(0x4000, t, sq);
    let l54 = sq * 0x100_0000_0000 + w * 0x100_0000 + m;
    assert(v == t * 0x40_0000_0000_0000 + l54);
    lemma_split(0x40_0000_0000_0000, t, l54);
}

/// Unpacking a packed 64-bit identifier gives back the fields that fit it.
pub proof fn lemma_round_trip_64(f: Fields)
    requires
        f.fits_64(),
    ensures
        layout_64(f) < 0x1_0000_0000_0000_0000,
        fields_64(layout_64(f)) == f,
{
    let t = f.timestamp as int;
    let sq = f.sequence as int;
    let w = f.worker_id as int;
    let v = layout_64(f) as int;
    lemma_split(0x400_0000_0000, 0, t);
    lemma_split(0x4000, 0, sq);
    lemma_split(0x100, 0, w);
    let a8 = t * 0x4000 + sq;
    assert(v == a8 * 0x100 + w);
    lemma_split(0x100, a8, w);
    lemma_split(0x4000, t, sq);
    assert(v == t * 0x40_0000 + (sq * 0x100 + w));
    lemma_split(0x40_0000, t, sq * 0x100 + w);
}

/// Every 128-bit identifier is a version-1 UUID of the RFC 4122 variant:
/// whatever timestamp, sequence and node it is packed from, its bytes carry
/// the version nibble `0001` and the variant bits `10`.
pub proof fn lemma_uuid_compliance(timestamp: u64, sequence: u16, node: u64)
    ensures
        ({
            let id = be_bytes(uuid_layout(timestamp as int, sequence as int, node as int), 16);
            &&& id.len() == 16
            &&& version_of(be_value(id)) == UUID_VERSION
            &&& variant_of(be_value(id)) == UUID_VARIANT
        }),
{
    let v = uuid_layout(timestamp as int, sequence as int, node as int);
    lemma_uuid_layout_marks(timestamp as int, sequence as int, node as int);
    lemma_pow256_values();
    lemma_be_value_of_bytes_exact(v, 16);
    crate::bytes::lemma_be_bytes_len(v, 16);
}

/// What is unpacked from any number fits the layout it was unpacked from.
pub proof fn lemma_fields_fit(v: nat)
    ensures
        fields_128(v).fits_128(),
        fields_96(v).fits_96(),
        fields_64(v).fits_64(),
{
}

/// Packing what was unpacked from a 96-bit number gives the number back.
pub proof fn lemma_repack_96(v: nat)
    requires
        v < 0x1_0000_0000_0000_0000_0000_0000,
    ensures
        layout_96(fields_96(v)) == v,
{
    let v = v as int;
    let a24 = v / 0x100_0000;
    let a40 = a24 / 0x1_0000;
    let a54 = a40 / 0x4000;
    lemma_div_denominator(v, 0x100_0000, 0x1_0000);
    lemma_div_denominator(v, 0x100_0000_0000, 0x4000);
    assert(v / 0x100_0000_0000 == a40);
    assert(v / 0x40_0000_0000_0000 == a54);
    let f = fields_96(v as nat);
    assert(f.machine_id == v % 0x100_0000);
    assert(f.worker_id == a24 % 0x1_0000);
    assert(f.sequence == a40 % 0x4000);
    assert(f.timestamp == a54);
    assert(v == ((a54 * 0x4000 + f.sequence) * 0x1_0000 + f.worker_id) * 0x100_0000
        + f.machine_id);
}

/// Packing what was unpacked from a 64-bit number gives the number back.
pub proof fn lemma_repack_64(v: nat)
    requires
        v < 0x1_0000_0000_0000_0000,
    ensures
        layout_64(fields_64(v)) == v,
{
    let v = v as int;
    let a8 = v / 0x100;
    let a22 = a8 / 0x4000;
    lemma_div_denominator(v, 0x100, 0x4000);
    assert(v / 0x40_0000 == a22);
    let f = fields_64(v as nat);
    assert(f.worker_id == v % 0x100);
    assert(f.sequence == a8 % 0x4000);
    assert(f.timestamp == a22);
    assert(v == (a22 * 0x4000 + f.sequence) * 0x100 + f.worker_id);
}

/// Unpacking the bytes of a packed identifier gives back the fields, in
/// each of the three widths, for fields that fit the width.
pub proof fn lemma_round_trip_bytes(f: Fields)
    ensures
        f.fits_128() ==> fields_128(be_value(be_bytes(layout_128(f), 16))) == f,
        f.fits_96() ==> fields_96(be_value(be_bytes(layout_96(f), 12))) == f,
        f.fits_64() ==> fields_64(be_value(be_bytes(layout_64(f), 8))) == f,
{
    lemma_pow256_values();
    if f.fits_128() {
        lemma_round_trip_128(f);
        lemma_uuid_layout_marks(
            f.timestamp as int,
            f.sequence as int,
            f.worker_id * 0x1_0000_0000 + f.machine_id,
        );
        lemma_be_value_of_bytes_exact(layout_128(f), 16);
    }
    if f.fits_96() {
        lemma_round_trip_96(f);
        lemma_be_value_of_bytes_exact(layout_96(f), 12);
    }
    if f.fits_64() {
        lemma_round_trip_64(f);
        lemma_be_value_of_bytes_exact(layout_64(f), 8);
    }
}

/// Packs a version-1 UUID from its timestamp, clock sequence and node; of
/// each only the bits that the layout has room for are kept.
pub fn encode_uuid(timestamp: u64, sequence: u16, node: u64) -> (id: [u8; 16])
    ensures
        id@ == be_bytes(uuid_layout(timestamp as int, sequence as int, node as int), 16),
        be_value(id@) == uuid_layout(timestamp as int, sequence as int, node as int),
        version_of(be_value(id@)) == UUID_VERSION,
        variant_of(be_value(id@)) == UUID_VARIANT,
{
    let time_low: u128 = (timestamp % 0x1_0000_0000) as u128;
    let time_mid: u128 = ((timestamp / 0x1_0000_0000) % 0x1_0000) as u128;
    let time_high: u128 = ((timestamp / 0x1_0000_0000_0000) % 0x1000) as u128;
    let clock_seq: u128 = (sequence % 0x4000) as u128;
    let node_low: u128 = (node % 0x1_0000_0000_0000) as u128;
    let v: u128 = time_low * 0x1_0000_0000_0000_0000_0000_0000 + time_mid
        * 0x1_0000_0000_0000_0000_0000 + 0x1000_0000_0000_0000_0000 + time_high
        * 0x1_0000_0000_0000_0000 + 0x8000_0000_0000_0000 + clock_seq * 0x1_0000_0000_0000
        + node_low;
    proof {
        lemma_uuid_layout_marks(timestamp as int, sequence as int, node as int);
        lemma_pow256_values();
        lemma_be_value_of_bytes_exact(v as nat, 16);
    }
    to_be::<16>(v)
}

/// Packs the fields into the 128-bit layout.
pub fn encode_128(f: &Fields) -> (id: [u8; 16])
    ensures
        id@ == be_bytes(layout_128(*f), 16),
        be_value(id@) == layout_128(*f),
        version_of(be_value(id@)) == UUID_VERSION,
        variant_of(be_value(id@)) == UUID_VARIANT,
{
    let node: u64 = f.worker_id as u64 * 0x1_0000_0000 + f.machine_id as u64;
    encode_uuid(f.timestamp, f.sequence, node)
}

/// Packs the fields into the 96-bit layout.
pub fn encode_96(f: &Fields) -> (id: [u8; 12])
    ensures
        id@ == be_bytes(layout_96(*f), 12),
        be_value(id@) == layout_96(*f),
{
    let timestamp: u128 = (f.timestamp % 0x400_0000_0000) as u128;
    let sequence: u128 = (f.sequence % 0x4000) as u128;
    let machine: u128 = (f.machine_id % 0x100_0000) as u128;
    let v: u128 = timestamp * 0x40_0000_0000_0000 + sequence * 0x100_0000_0000 + f.worker_id as u128
        * 0x100_0000 + machine;
    proof {
        lemma_pow256_values();
        lemma_be_value_of_bytes_exact(v as nat, 12);
    }
    to_be::<12>(v)
}

/// Packs the fields into the 64-bit layout.
pub fn encode_64(f: &Fields) -> (id: [u8; 8])
    ensures
        id@ == be_bytes(layout_64(*f), 8),
        be_value(id@) == layout_64(*f),
{
    let timestamp: u128 = (f.timestamp % 0x400_0000_0000) as u128;
    let sequence: u128 = (f.sequence % 0x4000) as u128;
    let worker: u128 = (f.worker_id % 0x100) as u128;
    let v: u128 = timestamp * 0x40_0000 + sequence * 0x100 + worker;
    proof {
        lemma_pow256_values();
        lemma_be_value_of_bytes_exact(v as nat, 8);
    }
    to_be::<8>(v)
}

/// Unpacks a 128-bit identifier. The version and variant bits are not
/// looked at: see `uuid_version` and `uuid_variant`.
pub fn decode_128(id: &[u8; 16]) -> (f: Fields)
    ensures
        f == fields_128(be_value(id@)),
        f.fits_128(),
{
    let v: u128 = from_be::<16>(id);
    let time_low: u64 = ((v / 0x1_0000_0000_0000_0000_0000_0000) % 0x1_0000_0000) as u64;
    let time_mid: u64 = ((v / 0x1_0000_0000_0000_0000_0000) % 0x1_0000) as u64;
    let time_high: u64 = ((v / 0x1_0000_0000_0000_0000) % 0x1000) as u64;
    Fields {
        timestamp: time_high * 0x1_0000_0000_0000 + time_mid * 0x1_0000_0000 + time_low,
        sequence: ((v / 0x1_0000_0000_0000) % 0x4000) as u16,
        worker_id: ((v / 0x1_0000_0000) % 0x1_0000) as u16,
        machine_id: (v % 0x1_0000_0000) as u32,
    }
}

/// Unpacks a 96-bit identifier.
pub fn decode_96(id: &[u8; 12]) -> (f: Fields)
    ensures
        f == fields_96(be_value(id@)),
        f.fits_96(),
{
    let v: u128 = from_be::<12>(id);
    Fields {
        timestamp: ((v / 0x40_0000_0000_0000) % 0x400_0000_0000) as u64,
        sequence: ((v / 0x100_0000_0000) % 0x4000) as u16,
        worker_id: ((v / 0x100_0000) % 0x1_0000) as u16,
        machine_id: (v % 0x100_0000) as u32,
    }
}

/// Unpacks a 64-bit identifier.
pub fn decode_64(id: &[u8; 8]) -> (f: Fields)
    ensures
        f == fields_64(be_value(id@)),
        f.fits_64(),
{
    let v: u128 = from_be::<8>(id);
    Fields {
        timestamp: ((v / 0x40_0000) % 0x400_0000_0000) as u64,
        sequence: ((v / 0x100) % 0x4000) as u16,
        worker_id: (v % 0x100) as u16,
        machine_id: 0,
    }
}

/// The version nibble of a 128-bit identifier.
pub fn uuid_version(id: &[u8; 16]) -> (version: u8)
    ensures
        version == version_of(be_value(id@)),
{
    let v: u128 = from_be::<16>(id);
    ((v / 0x1000_0000_0000_0000_0000) % 16) as u8
}

/// The two variant bits of a 128-bit identifier.
pub fn uuid_variant(id: &[u8; 16]) -> (variant: u8)
    ensures
        variant == variant_of(be_value(id@)),
{
    let v: u128 = from_be::<16>(id);
    ((v / 0x4000_0000_0000_0000) % 4) as u8
}

} // verus!
