use flcq::eeprom::{
    is_plausible_c0l0, is_plausible_cref, EepromAction, EepromUpdate, NewValue, TEeprom, C0_ADDRESS, CALIBRATION_COUNT_ADDRESS,
    CALIBRATION_TEMPERATURE_ADDRESS, CL_SAMPLES_ADDRESS, CREF1_ADDRESS, CREF1_SAMPLES_ADDRESS,
    CREF2_ADDRESS, CREF2_SAMPLES_ADDRESS, L0_ADDRESS, PERIOD_ADDRESS, WINDOW_COUNT_ADDRESS,
};
use flcq::protocol::{decode_eeprom_read_reply, eeprom_read_request, eeprom_write_acknowledged};
use flcq::encoding::{value_addresses, value_from_le_bytes, value_to_le_bytes, value_write_requests};

#[test]
fn value_bytes_least_significant_first() {
    assert_eq!(value_to_le_bytes(0x0807060504030201), vec![1, 2, 3, 4, 5, 6, 7, 8]);
    assert_eq!(value_from_le_bytes(&[1, 2, 3, 4, 5, 6, 7, 8]), 0x0807060504030201);
}

#[test]
fn float_value_roundtrip() {
    for x in [0.0f64, 1.0, -2.5, 1000.0, 123.456, f64::MAX, f64::MIN_POSITIVE] {
        let bytes = value_to_le_bytes(x.to_bits());
        assert_eq!(bytes, x.to_le_bytes().to_vec());
        assert_eq!(f64::from_bits(value_from_le_bytes(&bytes)), x);
    }
}

#[test]
fn value_cells() {
    assert_eq!(value_addresses(42), vec![42, 43, 44, 45, 46, 47, 48, 49]);
    assert_eq!(value_addresses(248), vec![248, 249, 250, 251, 252, 253, 254, 255]);
    let frames = value_write_requests(9, 0x0807060504030201);
    assert_eq!(frames.len(), 8);
    for (i, f) in frames.iter().enumerate() {
        assert_eq!(f, &vec![0x03, i as u8 + 1, 9 + i as u8, 0xFF, 0xFF]);
    }
}

#[test]
fn eeprom_map_regions_do_not_overlap() {
    // (start, length) of each cell
    let cells = [
        (WINDOW_COUNT_ADDRESS, 1u8),
        (CALIBRATION_COUNT_ADDRESS, 8),
        (PERIOD_ADDRESS, 8),
        (CALIBRATION_TEMPERATURE_ADDRESS, 8),
        (C0_ADDRESS, 8),
        (L0_ADDRESS, 8),
        (CL_SAMPLES_ADDRESS, 1),
        (CREF1_ADDRESS, 8),
        (CREF1_SAMPLES_ADDRESS, 1),
        (CREF2_ADDRESS, 8),
        (CREF2_SAMPLES_ADDRESS, 1),
    ];
    for (i, a) in cells.iter().enumerate() {
        for b in cells.iter().skip(i + 1) {
            assert!(a.0 + a.1 <= b.0, "{:?} overlaps {:?}", a, b);
        }
    }
    assert_eq!(CREF2_SAMPLES_ADDRESS, 59);
}

/// Runs the write steps of an exchange and collects the updates handed out.
fn drain_writes(e: &mut TEeprom) -> Vec<EepromUpdate> {
    let mut out = Vec::new();
    while let EepromAction::Write(u) = e.next_action() {
        out.push(u);
    }
    out
}

fn single(u: &EepromUpdate) -> (u8, u8, u8, NewValueTag) {
    assert!(u.second.is_none());
    (u.samples_address, u.samples, u.first.address, tag(&u.first.value))
}

#[derive(Debug, PartialEq)]
enum NewValueTag {
    Sample(u64),
    Mean(u64, u8, u64),
}

fn tag(v: &NewValue) -> NewValueTag {
    match *v {
        NewValue::Sample(s) => NewValueTag::Sample(s),
        NewValue::RunningMean { mean, samples, sample } => NewValueTag::Mean(mean, samples, sample),
    }
}

#[test]
fn fresh_cache_has_nothing() {
    let e = TEeprom::new();
    assert!(e.cref1_unread() && e.cref2_unread() && e.c0l0_unread());
    assert_eq!(e.c0(), None);
    assert_eq!(e.c0_show(), None);
    assert_eq!(e.cref1_show(), None);
    assert_eq!(e.cref2_show(), None);
    let mut d = TEeprom::default();
    assert!(drain_writes(&mut d).is_empty());
}

#[test]
fn loading_keeps_plausible_values_once() {
    let mut e = TEeprom::new();
    e.load_cref1(1000.5f64.to_bits(), 3);
    assert_eq!(e.cref1_show(), Some((1000.5f64.to_bits(), 3)));
    assert!(!e.cref1_unread());
    // a second load does not replace it
    e.load_cref1(7.0f64.to_bits(), 9);
    assert_eq!(e.cref1_show(), Some((1000.5f64.to_bits(), 3)));

    // implausible value
    e.load_cref2(1.0f64.to_bits(), 3);
    assert_eq!(e.cref2_show(), None);
    assert!(!e.cref2_unread());
    // erased EEPROM: 0xFF samples
    let mut f = TEeprom::new();
    f.load_cref2(100.0f64.to_bits(), 0xFF);
    assert_eq!(f.cref2_show(), None);
    // no samples
    f.load_c0l0(1.0f64.to_bits(), 2.0f64.to_bits(), 0);
    assert_eq!(f.c0_show(), None);
    let mut g = TEeprom::new();
    g.load_c0l0(12.0f64.to_bits(), 3.5f64.to_bits(), 254);
    assert_eq!(g.c0(), Some(12.0f64.to_bits()));
    assert_eq!(g.c0_show(), Some((12.0f64.to_bits(), 3.5f64.to_bits(), 254)));
}

#[test]
fn saving_before_reading_queues_nothing() {
    let mut e = TEeprom::new();
    e.save_cref1(5.0f64.to_bits());
    e.save_cl((1, 2));
    assert!(drain_writes(&mut e).is_empty());
}

#[test]
fn saving_into_invalid_value_starts_a_new_mean() {
    let mut e = TEeprom::new();
    e.load_cref1(0, 0);
    let s = 470.0f64.to_bits();
    e.save_cref1(s);
    assert!(e.cref1_unread());
    let u = drain_writes(&mut e);
    assert_eq!(u.len(), 1);
    assert_eq!(single(&u[0]), (CREF1_SAMPLES_ADDRESS, 1, CREF1_ADDRESS, NewValueTag::Sample(s)));
    assert!(drain_writes(&mut e).is_empty());
}

#[test]
fn saving_extends_the_running_mean() {
    let mut e = TEeprom::new();
    let m = 100.0f64.to_bits();
    let s = 104.0f64.to_bits();
    e.load_cref2(m, 4);
    e.save_cref2(s);
    assert!(e.cref2_unread());
    let u = drain_writes(&mut e);
    assert_eq!(single(&u[0]), (CREF2_SAMPLES_ADDRESS, 5, CREF2_ADDRESS, NewValueTag::Mean(m, 4, s)));
    // the meter now holds 5 samples; reading them back
    e.load_cref2(100.8f64.to_bits(), 5);
    assert_eq!(e.cref2_show(), Some((100.8f64.to_bits(), 5)));
}

#[test]
fn the_255th_sample_reads_back_invalid() {
    let mut e = TEeprom::new();
    e.load_cref1(10.0f64.to_bits(), 254);
    e.save_cref1(10.0f64.to_bits());
    let u = drain_writes(&mut e);
    assert_eq!(u[0].samples, 255);
    e.load_cref1(10.0f64.to_bits(), u[0].samples);
    assert_eq!(e.cref1_show(), None);
}

#[test]
fn saving_c0_l0_updates_both_and_rereads_second_reference() {
    let (c0, l0, c, l) = (20.0f64.to_bits(), 3.0f64.to_bits(), 21.0f64.to_bits(), 3.1f64.to_bits());
    let mut e = TEeprom::new();
    e.load_c0l0(c0, l0, 2);
    e.load_cref2(400.0f64.to_bits(), 2);
    e.load_cref1(500.0f64.to_bits(), 2);
    e.save_cl((c, l));
    let u = drain_writes(&mut e);
    assert_eq!(u.len(), 1);
    assert_eq!(u[0].samples_address, CL_SAMPLES_ADDRESS);
    assert_eq!(u[0].samples, 3);
    assert_eq!(u[0].first.address, C0_ADDRESS);
    assert_eq!(tag(&u[0].first.value), NewValueTag::Mean(c0, 2, c));
    let second = u[0].second.unwrap();
    assert_eq!(second.address, L0_ADDRESS);
    assert_eq!(tag(&second.value), NewValueTag::Mean(l0, 2, l));
    assert!(e.cref2_unread());
    assert!(!e.c0l0_unread());
    assert_eq!(e.c0(), Some(c0));
    assert_eq!(e.cref1_show(), Some((500.0f64.to_bits(), 2)));
}

#[test]
fn saving_c0_l0_into_invalid_pair() {
    let mut e = TEeprom::new();
    e.load_c0l0(20, 30, 2);
    e.save_cl((21, 31));
    let u = drain_writes(&mut e);
    assert_eq!(u[0].samples, 1);
    assert_eq!(tag(&u[0].first.value), NewValueTag::Sample(21));
    assert_eq!(tag(&u[0].second.unwrap().value), NewValueTag::Sample(31));
}

#[test]
fn pending_updates_come_out_in_order() {
    let mut e = TEeprom::new();
    e.load_cref1(100.0f64.to_bits(), 1);
    e.load_cref2(2, 1);
    e.save_cref1(3);
    e.save_cref2(4);
    let u = drain_writes(&mut e);
    assert_eq!(u.len(), 2);
    assert_eq!(u[0].samples_address, CREF1_SAMPLES_ADDRESS);
    assert_eq!(u[1].samples_address, CREF2_SAMPLES_ADDRESS);
}

#[test]
fn written_value_reads_back_from_device_memory() {
    // a stand-in for the meter's EEPROM that follows the frames
    let mut memory = [0xFFu8; 256];
    let v = (-273.15f64).to_bits();
    for frame in value_write_requests(CREF1_ADDRESS, v) {
        assert_eq!(frame[0], 0x03);
        memory[frame[2] as usize] = frame[1];
    }
    let mut bytes = Vec::new();
    for a in value_addresses(CREF1_ADDRESS) {
        let request = eeprom_read_request(a);
        let address = request[1];
        let reply = [0x04, memory[address as usize], address, 0xFF, 0xFF];
        bytes.push(decode_eeprom_read_reply(&reply, a).unwrap());
    }
    assert_eq!(f64::from_bits(value_from_le_bytes(&bytes)), -273.15);
    // the neighbouring cells are untouched
    assert_eq!(memory[CREF1_ADDRESS as usize - 1], 0xFF);
    assert_eq!(memory[CREF1_ADDRESS as usize + 8], 0xFF);
}

#[test]
fn acknowledgement_is_a_read_reply() {
    let ack = [0x04, 0x2A, 17, 0xFF, 0xFF];
    assert!(eeprom_write_acknowledged(&ack, 17, 0x2A));
    assert_eq!(decode_eeprom_read_reply(&ack, 17), Some(0x2A));
}

#[test]
fn exchange_writes_before_reading_only_unread_values() {
    let mut e = TEeprom::new();
    // nothing read yet: the reads come in a fixed order
    assert!(matches!(e.next_action(), EepromAction::ReadCref1));
    e.load_cref1(100.0f64.to_bits(), 2);
    assert!(matches!(e.next_action(), EepromAction::ReadCref2));
    e.load_cref2(200.0f64.to_bits(), 2);
    assert!(matches!(e.next_action(), EepromAction::ReadC0L0));
    e.load_c0l0(20.0f64.to_bits(), 3.0f64.to_bits(), 2);
    assert!(matches!(e.next_action(), EepromAction::Done));
    // two saves: both writes come out, oldest first, before the re-reads
    e.save_cref2(210.0f64.to_bits());
    e.save_cref1(110.0f64.to_bits());
    match e.next_action() {
        EepromAction::Write(u) => assert_eq!(u.samples_address, CREF2_SAMPLES_ADDRESS),
        _ => panic!("expected a write"),
    }
    match e.next_action() {
        EepromAction::Write(u) => assert_eq!(u.samples_address, CREF1_SAMPLES_ADDRESS),
        _ => panic!("expected a write"),
    }
    assert!(matches!(e.next_action(), EepromAction::ReadCref1));
    e.load_cref1(105.0f64.to_bits(), 3);
    assert!(matches!(e.next_action(), EepromAction::ReadCref2));
    e.load_cref2(205.0f64.to_bits(), 3);
    // the C0 / L0 pair was not marked unread: it is not read again
    assert!(matches!(e.next_action(), EepromAction::Done));
    assert_eq!(e.cref1_show(), Some((105.0f64.to_bits(), 3)));
}

#[test]
fn plausible_ranges_match_floating_point_comparisons() {
    let samples = [
        -1.0f64, -0.0, 0.0, 1e-320, 0.05, 0.1, 0.1000001, 4.99, 5.0, 5.0000001, 99.99, 100.0,
        100.01, 1000.0, 10000.99, 10001.0, 10001.01, 1e300, f64::INFINITY, f64::NEG_INFINITY,
        f64::NAN, -f64::NAN,
    ];
    for &x in samples.iter() {
        assert_eq!(is_plausible_cref(x.to_bits()), 5.0 < x && x < 10001.0, "cref {}", x);
        for &y in samples.iter() {
            let expected = (0.0 < x) && (x < 10001.0) && (0.1 < y) && (y < 100.0);
            assert_eq!(is_plausible_c0l0(x.to_bits(), y.to_bits()), expected, "c0 {} l0 {}", x, y);
        }
    }
}

#[test]
fn implausible_means_are_not_kept() {
    let mut e = TEeprom::new();
    e.load_cref1(4.0f64.to_bits(), 3);
    e.load_cref2(f64::NAN.to_bits(), 3);
    e.load_c0l0(20.0f64.to_bits(), 150.0f64.to_bits(), 3);
    assert_eq!(e.cref1_show(), None);
    assert_eq!(e.cref2_show(), None);
    assert_eq!(e.c0_show(), None);
    assert!(matches!(e.next_action(), EepromAction::Done));
}
