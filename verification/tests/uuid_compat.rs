use shortid::convert::{short_64_to_128, short_96_to_128};
use shortid::generator::{next_short_128, next_short_64, next_short_96, Generator};
use shortid::shared::{next_short_128_sync, uuidv1, SharedGenerator};
use shortid::worker::WorkerRegistry;
use uuid::{Uuid, Variant};

const TIMESTAMP42SHIFT: u8 = 13;

fn hex_of(id: &[u8]) -> String {
    id.iter().map(|val| format!("{:0>2x}", val)).collect()
}

#[test]
fn test_128() {
    let mut registry = WorkerRegistry::new();
    let mut generator = Generator::start(&mut registry, true).unwrap();
    let id = next_short_128(&mut generator, [1, 1, 1, 1]).unwrap();
    let hex: String = hex_of(&id);
    let my_uuid = Uuid::parse_str(&hex).unwrap();
    let (ticks, counter) = my_uuid.to_timestamp().unwrap().to_rfc4122();
    assert_eq!(ticks, generator.timestamp());
    assert_eq!(counter, generator.seq());
    assert_eq!(my_uuid.get_version_num(), 1usize);
    assert_eq!(my_uuid.get_variant().unwrap(), Variant::RFC4122);
}

#[test]
fn test_96() {
    let mut registry = WorkerRegistry::new();
    let mut generator = Generator::start(&mut registry, true).unwrap();
    let id96 = next_short_96(&mut generator, [1, 1, 1], 0).unwrap();
    let id128 = short_96_to_128(id96, 0, 0);
    let hex: String = hex_of(&id128);
    let my_uuid = Uuid::parse_str(&hex).unwrap();
    let (ticks, counter) = my_uuid.to_timestamp().unwrap().to_rfc4122();
    assert_eq!(
        ticks,
        generator.timestamp() >> TIMESTAMP42SHIFT << TIMESTAMP42SHIFT
    );
    assert_eq!(counter, generator.seq());
    assert_eq!(my_uuid.get_version_num(), 1usize);
    assert_eq!(my_uuid.get_variant().unwrap(), Variant::RFC4122);
}

#[test]
fn test_64() {
    let mut registry = WorkerRegistry::new();
    let mut generator = Generator::start(&mut registry, true).unwrap();
    let id64 = next_short_64(&mut generator, 0).unwrap();
    let id128 = short_64_to_128(id64, 0, [1u8, 1, 1, 1]);
    let hex: String = hex_of(&id128);
    let my_uuid = Uuid::parse_str(&hex).unwrap();
    let (ticks, counter) = my_uuid.to_timestamp().unwrap().to_rfc4122();
    assert_eq!(
        ticks,
        generator.timestamp() >> TIMESTAMP42SHIFT << TIMESTAMP42SHIFT
    );
    assert_eq!(counter, generator.seq());
    assert_eq!(my_uuid.get_version_num(), 1usize);
    assert_eq!(my_uuid.get_variant().unwrap(), Variant::RFC4122);
}

#[test]
fn test_uuidv1() {
    let mut shared = SharedGenerator::new();
    let id128 = next_short_128_sync(&mut shared, [0, 0, 0, 0, 0, 0]).unwrap();
    let hex: String = hex_of(&id128);
    let my_uuid = Uuid::parse_str(&hex).unwrap();
    let (ticks, counter) = my_uuid.to_timestamp().unwrap().to_rfc4122();
    assert_eq!(ticks, shared.timestamp());
    assert_eq!(counter, shared.seq());
    assert_eq!(my_uuid.get_version_num(), 1usize);
    assert_eq!(my_uuid.get_variant().unwrap(), Variant::RFC4122);
}

#[test]
fn uuidv1_keeps_the_node() {
    let mut shared = SharedGenerator::new();
    let id = uuidv1(&mut shared, [1, 2, 3, 4, 5, 6]).unwrap();
    let parsed = Uuid::from_bytes(id);
    assert_eq!(&parsed.as_bytes()[10..], &[1, 2, 3, 4, 5, 6]);
    assert_eq!(parsed.get_version_num(), 1usize);
    assert_eq!(parsed.get_variant().unwrap(), Variant::RFC4122);
    let (ticks, counter) = parsed.to_timestamp().unwrap().to_rfc4122();
    assert_eq!(ticks, shared.timestamp());
    assert_eq!(counter, 1);
}

#[test]
fn a_run_of_identifiers_reads_back_as_issued() {
    let mut registry = WorkerRegistry::new();
    let mut generator = Generator::start(&mut registry, false).unwrap();
    for expected in 1..=40u16 {
        let id = next_short_128(&mut generator, [9, 8, 7, 6]).unwrap();
        let parsed = Uuid::from_bytes(id);
        let (ticks, counter) = parsed.to_timestamp().unwrap().to_rfc4122();
        assert_eq!(ticks, generator.timestamp());
        assert_eq!(counter, expected);
        assert_eq!(parsed.get_variant().unwrap(), Variant::RFC4122);
    }
}
