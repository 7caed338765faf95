use shortid::clock::UUID_TICKS_BETWEEN_EPOCHS;
use shortid::convert::{
    restore_tick, short_128_to_96, short_64_to_128, short_64_to_96, short_96_to_128,
    short_96_to_64,
};
use shortid::error::Error;
use shortid::generator::{
    compose_128, compose_64, compose_96, next_short_128, next_short_64, next_short_96, Generator,
};
use shortid::layout::{decode_128, decode_64, decode_96, uuid_variant, uuid_version, Fields};
use shortid::sequence::{Stamp, SEQUENCE_CEILING};
use shortid::shared::{compose_uuid, uuidv1, SharedGenerator};
use shortid::worker::WorkerRegistry;

const TICK: u64 = UUID_TICKS_BETWEEN_EPOCHS + 0x0012_3456_789A_BCDE;

#[test]
fn compose_128_exact_bytes() {
    let stamp = Stamp { timestamp: TICK, sequence: 0x1234 };
    assert_eq!(
        compose_128(stamp, 0xBEEF, &[1, 2, 3, 4]),
        [140, 27, 252, 222, 82, 40, 17, 196, 146, 52, 190, 239, 1, 2, 3, 4]
    );
}

#[test]
fn compose_96_exact_bytes() {
    let stamp = Stamp { timestamp: TICK, sequence: 0x1234 };
    assert_eq!(
        compose_96(stamp, 0xBEEF, &[1, 2, 3], 1000),
        Ok([36, 104, 172, 241, 53, 82, 52, 190, 239, 1, 2, 3])
    );
}

#[test]
fn compose_64_exact_bytes() {
    let stamp = Stamp { timestamp: TICK, sequence: 0x1234 };
    assert_eq!(
        compose_64(stamp, 0xEF, 1000),
        Ok([36, 104, 172, 241, 53, 82, 52, 239])
    );
}

#[test]
fn compose_uuid_exact_bytes() {
    let stamp = Stamp { timestamp: TICK, sequence: 0x3FFF };
    assert_eq!(
        compose_uuid(stamp, &[10, 11, 12, 13, 14, 15]),
        [140, 27, 252, 222, 82, 40, 17, 196, 191, 255, 10, 11, 12, 13, 14, 15]
    );
}

#[test]
fn epoch_after_the_tick() {
    let stamp = Stamp { timestamp: TICK, sequence: 1 };
    let epoch = 0x0012_3456_789A_BCDE + 1;
    assert_eq!(compose_96(stamp, 0, &[0, 0, 0], epoch), Err(Error::EpochException));
    assert_eq!(compose_64(stamp, 0, epoch), Err(Error::EpochException));
    assert!(compose_96(stamp, 0, &[0, 0, 0], epoch - 1).is_ok());
    let early = Stamp { timestamp: UUID_TICKS_BETWEEN_EPOCHS - 1, sequence: 1 };
    assert_eq!(compose_96(early, 0, &[0, 0, 0], 0), Err(Error::EpochException));
    assert_eq!(compose_64(early, 0, 0), Err(Error::EpochException));
}

#[test]
fn worker_too_wide_for_64_bits() {
    let stamp = Stamp { timestamp: TICK, sequence: 1 };
    assert_eq!(compose_64(stamp, 256, 0), Err(Error::WorkerIDOverflow));
    assert_eq!(compose_64(stamp, 256, u64::MAX), Err(Error::WorkerIDOverflow));
    assert_eq!(compose_64(stamp, 0xFFFF, 0), Err(Error::WorkerIDOverflow));
    assert!(compose_64(stamp, 255, 0).is_ok());
}

#[test]
fn first_context_has_worker_byte_zero() {
    let mut registry = WorkerRegistry::new();
    let mut generator = Generator::start(&mut registry, false).unwrap();
    let id = next_short_64(&mut generator, 0).unwrap();
    assert_eq!(id[7], 0);
    assert_eq!(decode_64(&id).worker_id, 0);
    assert_eq!(decode_64(&id).sequence, 1);
}

#[test]
fn context_257_cannot_issue_64_bits() {
    let mut registry = WorkerRegistry::new();
    for _ in 0..256 {
        registry.assign().unwrap();
    }
    let mut generator = Generator::start(&mut registry, false).unwrap();
    assert_eq!(generator.worker_id(), 256);
    let at = generator.timestamp();
    assert_eq!(next_short_64(&mut generator, 0), Err(Error::WorkerIDOverflow));
    assert_eq!(next_short_64(&mut generator, 12_345), Err(Error::WorkerIDOverflow));
    assert_eq!(next_short_64(&mut generator, u64::MAX), Err(Error::WorkerIDOverflow));
    assert_eq!(generator.seq(), 0);
    assert_eq!(generator.timestamp(), at);
    assert!(next_short_96(&mut generator, [0, 0, 0], 0).is_ok());
    assert!(next_short_128(&mut generator, [0, 0, 0, 0]).is_ok());
}

#[test]
fn next_short_128_packs_the_stamp_it_issued() {
    let mut generator = Generator::new(0xBEEF, TICK, false);
    let id = next_short_128(&mut generator, [1, 2, 3, 4]).unwrap();
    assert_eq!(
        id,
        [140, 27, 252, 222, 82, 40, 17, 196, 128, 1, 190, 239, 1, 2, 3, 4]
    );
    assert_eq!(
        decode_128(&id),
        Fields { timestamp: TICK, sequence: 1, worker_id: 0xBEEF, machine_id: 0x0102_0304 }
    );
    assert_eq!(uuid_version(&id), 1);
    assert_eq!(uuid_variant(&id), 2);
}

#[test]
fn next_short_96_packs_the_stamp_it_issued() {
    let mut generator = Generator::new(0xBEEF, TICK, false);
    let id = next_short_96(&mut generator, [1, 2, 3], 1000).unwrap();
    assert_eq!(
        decode_96(&id),
        Fields {
            timestamp: 0x91_A2B3_C4D5,
            sequence: 1,
            worker_id: 0xBEEF,
            machine_id: 0x01_0203,
        }
    );
    assert_eq!(&id[7..], &[190, 239, 1, 2, 3]);
}

#[test]
fn next_short_64_packs_the_stamp_it_issued() {
    let mut generator = Generator::new(0xEF, TICK, false);
    let id = next_short_64(&mut generator, 1000).unwrap();
    assert_eq!(
        decode_64(&id),
        Fields { timestamp: 0x91_A2B3_C4D5, sequence: 1, worker_id: 0xEF, machine_id: 0 }
    );
}

#[test]
fn an_epoch_in_the_future_spends_the_stamp() {
    let mut generator = Generator::new(1, TICK, false);
    assert_eq!(
        next_short_96(&mut generator, [1, 1, 1], u64::MAX),
        Err(Error::EpochException)
    );
    assert_eq!(generator.seq(), 1);
    assert_eq!(next_short_64(&mut generator, u64::MAX), Err(Error::EpochException));
    assert_eq!(generator.seq(), 2);
    assert_eq!(generator.timestamp(), TICK);
}

#[test]
fn short_formats_step_the_tick_by_8192() {
    let mut generator = Generator::new(1, TICK, false);
    for _ in 1..=SEQUENCE_CEILING {
        next_short_96(&mut generator, [1, 1, 1], 0).unwrap();
    }
    let last = decode_96(&next_short_96(&mut generator, [1, 1, 1], 0).unwrap());
    assert_eq!(generator.timestamp(), TICK + 8192);
    assert_eq!(last.sequence, 0);
    assert_eq!(last.timestamp, ((TICK - UUID_TICKS_BETWEEN_EPOCHS) >> 13) + 1);
    for _ in 1..=SEQUENCE_CEILING {
        next_short_64(&mut generator, 0).unwrap();
    }
    let last = decode_64(&next_short_64(&mut generator, 0).unwrap());
    assert_eq!(generator.timestamp(), TICK + 2 * 8192);
    assert_eq!(last.timestamp, ((TICK - UUID_TICKS_BETWEEN_EPOCHS) >> 13) + 2);
}

#[test]
fn identifiers_of_one_generator_grow() {
    let mut generator = Generator::new(5, TICK, false);
    let mut last128 = next_short_128(&mut generator, [1, 2, 3, 4]).unwrap();
    for _ in 0..40_000 {
        let id = next_short_128(&mut generator, [1, 2, 3, 4]).unwrap();
        assert!(u128::from_be_bytes(id) > u128::from_be_bytes(last128));
        last128 = id;
    }
    let mut generator = Generator::new(5, TICK, false);
    let mut last96 = next_short_96(&mut generator, [1, 2, 3], 7).unwrap();
    for _ in 0..40_000 {
        let id = next_short_96(&mut generator, [1, 2, 3], 7).unwrap();
        assert!(id > last96);
        last96 = id;
    }
    let mut generator = Generator::new(5, TICK, false);
    let mut last64 = next_short_64(&mut generator, 7).unwrap();
    for _ in 0..40_000 {
        let id = next_short_64(&mut generator, 7).unwrap();
        assert!(u64::from_be_bytes(id) > u64::from_be_bytes(last64));
        last64 = id;
    }
}

#[test]
fn uuid_order_breaks_where_the_low_32_bits_wrap() {
    let before = compose_128(
        Stamp { timestamp: 0x0000_0001_FFFF_FFFF, sequence: SEQUENCE_CEILING },
        0,
        &[0, 0, 0, 0],
    );
    let after = compose_128(Stamp { timestamp: 0x0000_0002_0000_0000, sequence: 0 }, 0, &[0, 0, 0, 0]);
    assert!(after < before);
}

#[test]
fn shared_identifiers_grow() {
    let mut shared = SharedGenerator::new();
    let mut last = uuidv1(&mut shared, [1, 2, 3, 4, 5, 6]).unwrap();
    for _ in 0..1_000 {
        let id = uuidv1(&mut shared, [1, 2, 3, 4, 5, 6]).unwrap();
        assert!(id > last);
        last = id;
    }
    assert_eq!(shared.seq(), 1_001);
}

#[test]
fn restore_tick_exact_values() {
    assert_eq!(restore_tick(0, 0), UUID_TICKS_BETWEEN_EPOCHS);
    assert_eq!(restore_tick(1, 0), UUID_TICKS_BETWEEN_EPOCHS + 8192);
    assert_eq!(restore_tick(0x91_A2B3_C4D5, 1000), 127_317_023_576_024_040);
    assert_eq!(restore_tick(0, (1 << 60) - UUID_TICKS_BETWEEN_EPOCHS), 0);
    assert_eq!(restore_tick(u64::MAX, u64::MAX), 0x01B2_1DD2_1381_1FFF);
}

#[test]
fn widen_96_to_128_exact_bytes() {
    let id96 = [36, 104, 172, 241, 53, 82, 52, 190, 239, 1, 2, 3];
    assert_eq!(
        short_96_to_128(id96, 1000, 9),
        [140, 27, 227, 232, 82, 40, 17, 196, 146, 52, 190, 239, 9, 1, 2, 3]
    );
}

#[test]
fn widen_64_to_96_exact_bytes() {
    let id64 = [36, 104, 172, 241, 53, 82, 52, 239];
    assert_eq!(
        short_64_to_96(id64, [7, 8, 9]),
        [36, 104, 172, 241, 53, 82, 52, 0, 239, 7, 8, 9]
    );
}

#[test]
fn widen_64_to_128_exact_bytes() {
    let id64 = [36, 104, 172, 241, 53, 82, 52, 239];
    assert_eq!(
        short_64_to_128(id64, 1000, [6, 7, 8, 9]),
        [140, 27, 227, 232, 82, 40, 17, 196, 146, 52, 0, 239, 6, 7, 8, 9]
    );
    assert_eq!(
        short_64_to_128(id64, 1000, [6, 7, 8, 9]),
        short_96_to_128(short_64_to_96(id64, [7, 8, 9]), 1000, 6)
    );
}

#[test]
fn widening_keeps_the_shared_fields() {
    let id96 = [36, 104, 172, 241, 53, 82, 52, 190, 239, 1, 2, 3];
    let narrow = decode_96(&id96);
    let wide = decode_128(&short_96_to_128(id96, 1000, 0));
    assert_eq!(wide.sequence, narrow.sequence);
    assert_eq!(wide.worker_id, narrow.worker_id);
    assert_eq!(wide.machine_id, narrow.machine_id);
    assert_eq!(wide.timestamp, (narrow.timestamp << 13) + 1000 + UUID_TICKS_BETWEEN_EPOCHS);
    let id64 = [36, 104, 172, 241, 53, 82, 52, 239];
    let narrow = decode_64(&id64);
    let wide = decode_96(&short_64_to_96(id64, [0, 0, 0]));
    assert_eq!(wide, narrow);
}

#[test]
fn narrowing_undoes_widening() {
    let id96 = [36, 104, 172, 241, 53, 82, 52, 190, 239, 1, 2, 3];
    assert_eq!(short_128_to_96(short_96_to_128(id96, 1000, 9), 1000), Ok(id96));
    assert_eq!(short_128_to_96(short_96_to_128(id96, 0, 0), 0), Ok(id96));
    let id64 = [36, 104, 172, 241, 53, 82, 52, 239];
    assert_eq!(short_96_to_64(short_64_to_96(id64, [7, 8, 9])), Ok(id64));
}

#[test]
fn narrowing_drops_what_has_no_room() {
    let id128 = [140, 27, 252, 222, 82, 40, 17, 196, 146, 52, 0, 239, 9, 1, 2, 3];
    let id96 = short_128_to_96(id128, 1000).unwrap();
    assert_eq!(id96, [36, 104, 172, 241, 53, 82, 52, 0, 239, 1, 2, 3]);
    let back = decode_128(&short_96_to_128(id96, 1000, 0));
    let was = decode_128(&id128);
    assert_eq!(back.sequence, was.sequence);
    assert_eq!(back.worker_id, was.worker_id);
    assert_eq!(back.machine_id, 0x01_0203);
    assert_eq!(back.timestamp, was.timestamp - (was.timestamp - UUID_TICKS_BETWEEN_EPOCHS - 1000) % 8192);
    let id64 = short_96_to_64(id96).unwrap();
    assert_eq!(id64, [36, 104, 172, 241, 53, 82, 52, 239]);
    assert_eq!(decode_96(&short_64_to_96(id64, [0, 0, 0])).machine_id, 0);
}

#[test]
fn narrowing_fails_where_it_must() {
    let id128 = [140, 27, 252, 222, 82, 40, 17, 196, 146, 52, 190, 239, 9, 1, 2, 3];
    assert_eq!(short_128_to_96(id128, u64::MAX), Err(Error::EpochException));
    assert_eq!(short_128_to_96([0; 16], 0), Err(Error::EpochException));
    let id96 = short_128_to_96(id128, 1000).unwrap();
    assert_eq!(decode_96(&id96).worker_id, 0xBEEF);
    assert_eq!(short_96_to_64(id96), Err(Error::WorkerIDOverflow));
}
