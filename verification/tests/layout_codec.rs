use shortid::bytes::{from_be, to_be};
use shortid::clock::UUID_TICKS_BETWEEN_EPOCHS;
use shortid::layout::{
    decode_128, decode_64, decode_96, encode_128, encode_64, encode_96, encode_uuid, uuid_variant,
    uuid_version, Fields, UUID_VARIANT, UUID_VERSION,
};

const TICK: u64 = UUID_TICKS_BETWEEN_EPOCHS + 0x0012_3456_789A_BCDE;

#[test]
fn big_endian_bytes_of_a_number() {
    assert_eq!(to_be::<4>(0x0102_0304), [1, 2, 3, 4]);
    assert_eq!(to_be::<2>(0x0102_0304), [3, 4]);
    assert_eq!(to_be::<3>(5), [0, 0, 5]);
    assert_eq!(to_be::<0>(77), []);
    assert_eq!(
        to_be::<16>(u128::MAX - 1),
        [255, 255, 255, 255, 255, 255, 255, 255, 255, 255, 255, 255, 255, 255, 255, 254]
    );
}

#[test]
fn number_of_big_endian_bytes() {
    assert_eq!(from_be::<4>(&[1, 2, 3, 4]), 0x0102_0304);
    assert_eq!(from_be::<0>(&[]), 0);
    assert_eq!(from_be::<1>(&[200]), 200);
    assert_eq!(from_be::<16>(&[255; 16]), u128::MAX);
    assert_eq!(from_be::<8>(&to_be::<8>(0xDEAD_BEEF_0BAD_F00D)), 0xDEAD_BEEF_0BAD_F00D);
}

#[test]
fn encode_128_exact_bytes() {
    let fields = Fields {
        timestamp: TICK,
        sequence: 0x1234,
        worker_id: 0xBEEF,
        machine_id: 0x0102_0304,
    };
    assert_eq!(
        encode_128(&fields),
        [140, 27, 252, 222, 82, 40, 17, 196, 146, 52, 190, 239, 1, 2, 3, 4]
    );
}

#[test]
fn encode_uuid_exact_bytes() {
    assert_eq!(
        encode_uuid(TICK, 0x3FFF, 0x0A0B_0C0D_0E0F),
        [140, 27, 252, 222, 82, 40, 17, 196, 191, 255, 10, 11, 12, 13, 14, 15]
    );
}

#[test]
fn encode_96_exact_bytes() {
    let fields = Fields {
        timestamp: 0x91_A2B3_C4D5,
        sequence: 0x1234,
        worker_id: 0xBEEF,
        machine_id: 0x01_0203,
    };
    assert_eq!(
        encode_96(&fields),
        [36, 104, 172, 241, 53, 82, 52, 190, 239, 1, 2, 3]
    );
}

#[test]
fn encode_64_exact_bytes() {
    let fields = Fields {
        timestamp: 0x91_A2B3_C4D5,
        sequence: 0x1234,
        worker_id: 0xEF,
        machine_id: 0,
    };
    assert_eq!(encode_64(&fields), [36, 104, 172, 241, 53, 82, 52, 239]);
}

#[test]
fn round_trip_128() {
    let cases = [
        Fields { timestamp: 0, sequence: 0, worker_id: 0, machine_id: 0 },
        Fields { timestamp: TICK, sequence: 0x1234, worker_id: 0xBEEF, machine_id: 0x0102_0304 },
        Fields {
            timestamp: 0x0FFF_FFFF_FFFF_FFFF,
            sequence: 0x3FFF,
            worker_id: 0xFFFF,
            machine_id: 0xFFFF_FFFF,
        },
        Fields { timestamp: 0x0000_0001_0000_0000, sequence: 1, worker_id: 256, machine_id: 1 },
    ];
    for fields in cases {
        assert_eq!(decode_128(&encode_128(&fields)), fields);
    }
}

#[test]
fn round_trip_96() {
    let cases = [
        Fields { timestamp: 0, sequence: 0, worker_id: 0, machine_id: 0 },
        Fields { timestamp: 0x91_A2B3_C4D5, sequence: 0x1234, worker_id: 0xBEEF, machine_id: 0x01_0203 },
        Fields {
            timestamp: 0x3FF_FFFF_FFFF,
            sequence: 0x3FFF,
            worker_id: 0xFFFF,
            machine_id: 0xFF_FFFF,
        },
    ];
    for fields in cases {
        assert_eq!(decode_96(&encode_96(&fields)), fields);
    }
}

#[test]
fn round_trip_64() {
    let cases = [
        Fields { timestamp: 0, sequence: 0, worker_id: 0, machine_id: 0 },
        Fields { timestamp: 0x91_A2B3_C4D5, sequence: 0x1234, worker_id: 0xEF, machine_id: 0 },
        Fields { timestamp: 0x3FF_FFFF_FFFF, sequence: 0x3FFF, worker_id: 0xFF, machine_id: 0 },
    ];
    for fields in cases {
        assert_eq!(decode_64(&encode_64(&fields)), fields);
    }
}

#[test]
fn repacking_any_short_identifier_gives_it_back() {
    let id96 = [0xFF, 0x01, 0x80, 0x7F, 0x33, 0xC4, 0x21, 0x9A, 0x00, 0xFE, 0x10, 0x55];
    assert_eq!(encode_96(&decode_96(&id96)), id96);
    let id64 = [0x00, 0xFF, 0x12, 0x80, 0x7F, 0xC4, 0x21, 0x9A];
    assert_eq!(encode_64(&decode_64(&id64)), id64);
}

#[test]
fn a_field_too_wide_is_cut_to_its_place() {
    let wide = Fields { timestamp: 1 << 60, sequence: 0x4001, worker_id: 3, machine_id: 4 };
    let kept = Fields { timestamp: 0, sequence: 1, worker_id: 3, machine_id: 4 };
    assert_eq!(encode_128(&wide), encode_128(&kept));
    let wide = Fields { timestamp: (1 << 42) + 5, sequence: 0x7FFF, worker_id: 3, machine_id: 0x0100_0004 };
    let kept = Fields { timestamp: 5, sequence: 0x3FFF, worker_id: 3, machine_id: 4 };
    assert_eq!(encode_96(&wide), encode_96(&kept));
    let wide = Fields { timestamp: (1 << 42) + 5, sequence: 0x7FFF, worker_id: 0x0103, machine_id: 9 };
    let kept = Fields { timestamp: 5, sequence: 0x3FFF, worker_id: 3, machine_id: 0 };
    assert_eq!(encode_64(&wide), encode_64(&kept));
}

#[test]
fn every_128_bit_identifier_is_a_version_1_uuid() {
    let cases = [
        Fields { timestamp: 0, sequence: 0, worker_id: 0, machine_id: 0 },
        Fields { timestamp: u64::MAX, sequence: u16::MAX, worker_id: u16::MAX, machine_id: u32::MAX },
        Fields { timestamp: TICK, sequence: 7, worker_id: 1, machine_id: 2 },
    ];
    for fields in cases {
        let id = encode_128(&fields);
        assert_eq!(uuid_version(&id), 1);
        assert_eq!(uuid_version(&id), UUID_VERSION);
        assert_eq!(uuid_variant(&id), 2);
        assert_eq!(uuid_variant(&id), UUID_VARIANT);
        assert_eq!(id[6] >> 4, 0b0001);
        assert_eq!(id[8] >> 6, 0b10);
    }
}

#[test]
fn version_and_variant_of_other_bytes() {
    let mut id = [0u8; 16];
    id[6] = 0x4A;
    id[8] = 0xC5;
    assert_eq!(uuid_version(&id), 4);
    assert_eq!(uuid_variant(&id), 3);
    assert_eq!(decode_128(&id).timestamp, 0x0A00_0000_0000_0000);
    assert_eq!(decode_128(&id).sequence, 0x0500);
}
