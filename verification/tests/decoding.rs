use sensor_tags::fifo::{decode_entries, group_samples, raw_entries, AccelSample};
use sensor_tags::registers::{register_bytes, Register};
use sensor_tags::calibration::CalibrationPair;
use sensor_tags::codec::{
    decode_word, encode_signed, encode_word, reinterpret_signed, reinterpret_unsigned,
    sign_extend5,
};
use sensor_tags::link::ProtocolError;
use sensor_tags::temperature::{decode, Temperature};

fn celsius(t: Temperature) -> f32 {
    t.quarters as f32 * 0.25
}

#[test]
fn process_temp_test() {
    assert_eq!(celsius(decode(0b1_0000_0001)), -63.75);
    assert_eq!(celsius(decode(0b0_0000_0000)), 0.00);
    assert_eq!(celsius(decode(0b0_1111_1111)), 63.75);
}

#[test]
fn decode_counts_quarter_degrees() {
    assert_eq!(decode(0).quarters, 0);
    assert_eq!(decode(1).quarters, 1);
    assert_eq!(decode(0x0FF).quarters, 255);
    assert_eq!(decode(0x100).quarters, -256);
    assert_eq!(decode(0x101).quarters, -255);
    assert_eq!(decode(0x1FF).quarters, -1);
    assert_eq!(decode(100).quarters, 100);
    assert_eq!(celsius(decode(100)), 25.0);
}

#[test]
fn decode_ignores_bits_above_the_ninth() {
    assert_eq!(decode(0xFE00), decode(0));
    assert_eq!(decode(0xFFFF).quarters, -1);
    assert_eq!(decode(0x0201).quarters, 1);
    assert_eq!(decode(0xFFF5).quarters, -11);
}

#[test]
fn temperature_in_hundredths() {
    assert_eq!(decode(0x101).hundredths(), -6375);
    assert_eq!(decode(0x0FF).hundredths(), 6375);
    assert_eq!(decode(0).hundredths(), 0);
    assert!(decode(0x101).is_negative());
    assert!(!decode(0x0FF).is_negative());
    assert!(!decode(0).is_negative());
}

#[test]
fn words_go_most_significant_byte_first() {
    assert_eq!(encode_word(0xE600), [0xE6, 0x00]);
    assert_eq!(encode_word(0x2001), [0x20, 0x01]);
    assert_eq!(encode_word(0x0001), [0x00, 0x01]);
    assert_eq!(encode_word(0), [0, 0]);
    assert_eq!(encode_word(0xFFFF), [0xFF, 0xFF]);
    assert_eq!(decode_word([0x03, 0xA5]), 0x03A5);
    assert_eq!(decode_word([0x00, 0x01]), 1);
    assert_eq!(decode_word([0x01, 0x00]), 256);
}

#[test]
fn every_word_survives_encoding() {
    for value in 0..=u16::MAX {
        assert_eq!(decode_word(encode_word(value)), value);
        assert_eq!(encode_word(value), value.to_be_bytes());
    }
}

#[test]
fn signed_words_are_twos_complement() {
    assert_eq!(encode_signed(-1), [0xFF, 0xFF]);
    assert_eq!(encode_signed(-11), [0xFF, 0xF5]);
    assert_eq!(encode_signed(1), [0x00, 0x01]);
    assert_eq!(encode_signed(i16::MIN), [0x80, 0x00]);
    assert_eq!(encode_signed(i16::MAX), [0x7F, 0xFF]);
    assert_eq!(reinterpret_signed(0xFFFF), -1);
    assert_eq!(reinterpret_signed(0x8000), i16::MIN);
    assert_eq!(reinterpret_signed(0x7FFF), i16::MAX);
    assert_eq!(reinterpret_unsigned(-2), 0xFFFE);
    for value in i16::MIN..=i16::MAX {
        assert_eq!(reinterpret_signed(reinterpret_unsigned(value)), value);
        assert_eq!(encode_signed(value), value.to_be_bytes());
    }
}

#[test]
fn sign_extend5_covers_the_trim_range() {
    assert_eq!(sign_extend5(0), 0);
    assert_eq!(sign_extend5(1), 1);
    assert_eq!(sign_extend5(15), 15);
    assert_eq!(sign_extend5(16), -16);
    assert_eq!(sign_extend5(0x15), -11);
    assert_eq!(sign_extend5(31), -1);
    for v in 0..32u16 {
        let trim = sign_extend5(v);
        assert!((-16..=15).contains(&trim));
        assert_eq!(trim < 0, v & 0x10 != 0);
        let decoded = decode(reinterpret_unsigned(trim));
        assert_eq!(decoded.quarters, trim);
        assert_eq!(decoded.is_negative(), v & 0x10 != 0);
    }
}

#[test]
fn sign_extend5_reads_only_the_low_five_bits() {
    assert_eq!(sign_extend5(0x03A5), 5);
    assert_eq!(sign_extend5(0x03B5), -11);
    assert_eq!(sign_extend5(0xFFE0), 0);
    assert_eq!(sign_extend5(0xFFFF), -1);
    for raw in 0..=u16::MAX {
        assert_eq!(sign_extend5(raw), sign_extend5(raw & 0x1F));
    }
}

#[test]
fn calibration_in_sync_reports_its_trim() {
    let pair = CalibrationPair { factory: 0x03A0, active: 0x03A5 };
    assert!(pair.is_in_sync());
    let trim = pair.fine_trim().unwrap();
    assert_eq!(trim, decode(reinterpret_unsigned(sign_extend5(0x03A5 & 0x1F))));
    assert_eq!(trim.quarters, 5);
    assert_eq!(celsius(trim), 1.25);
}

#[test]
fn calibration_with_negative_trim() {
    let pair = CalibrationPair { factory: 0x03A0, active: 0x03B5 };
    assert!(pair.is_in_sync());
    assert_eq!(pair.fine_trim(), Ok(Temperature { quarters: -11 }));
    assert_eq!(celsius(pair.fine_trim().unwrap()), -2.75);
}

#[test]
fn calibration_that_drifted_has_no_trim() {
    let pair = CalibrationPair { factory: 0x03A0, active: 0x03C5 };
    assert!(!pair.is_in_sync());
    assert_eq!(pair.fine_trim(), Err(ProtocolError::CalibrationMismatch));
    let pair = CalibrationPair { factory: 0x83A0, active: 0x03A0 };
    assert!(!pair.is_in_sync());
    assert_eq!(pair.fine_trim(), Err(ProtocolError::CalibrationMismatch));
    let pair = CalibrationPair { factory: 0x0020, active: 0x001F };
    assert!(!pair.is_in_sync());
}

#[test]
fn register_addresses() {
    assert_eq!(Register::DevIdAd.address(), 0x00);
    assert_eq!(Register::DevIdMst.address(), 0x01);
    assert_eq!(Register::PartId.address(), 0x02);
    assert_eq!(Register::FifoEntriesL.address(), 0x0C);
    assert_eq!(Register::FifoEntriesH.address(), 0x0D);
    assert_eq!(Register::XDataL.address(), 0x0E);
    assert_eq!(Register::TimeInactL.address(), 0x25);
    assert_eq!(Register::FifoControl.address(), 0x28);
    assert_eq!(Register::FilterCtl.address(), 0x2C);
    assert_eq!(Register::PowerCtl.address(), 0x2D);
    assert_eq!(Register::SelfTest.address(), 0x2E);
}

#[test]
fn register_bytes_are_the_low_halves() {
    assert_eq!(register_bytes(&vec![0x00, 0xAD, 0x00, 0x1D, 0x00, 0xF3]), vec![0xAD, 0x1D, 0xF3]);
    assert_eq!(register_bytes(&vec![0x77, 0x12, 0x88, 0x34]), vec![0x12, 0x34]);
    assert_eq!(register_bytes(&vec![]), Vec::<u8>::new());
}

#[test]
fn buffer_entries_are_signed_words() {
    let bytes = vec![0x00, 0x01, 0xFF, 0xFF, 0x80, 0x00, 0x7F, 0xFF];
    assert_eq!(raw_entries(&bytes), vec![0x0001, 0xFFFF, 0x8000, 0x7FFF]);
    assert_eq!(decode_entries(&bytes), vec![1, -1, i16::MIN, i16::MAX]);
    assert_eq!(decode_entries(&vec![]), Vec::<i16>::new());
}

#[test]
fn samples_are_triplets_one_interval_apart() {
    let readings = vec![1, 2, 3, -4, -5, -6, 7, 8, 9];
    let samples = group_samples(&readings, 1_000).unwrap();
    assert_eq!(
        samples,
        vec![
            AccelSample { x: 1, y: 2, z: 3, timestamp_ms: 1_080 },
            AccelSample { x: -4, y: -5, z: -6, timestamp_ms: 1_160 },
            AccelSample { x: 7, y: 8, z: 9, timestamp_ms: 1_240 },
        ]
    );
}

#[test]
fn no_readings_make_no_samples() {
    assert_eq!(group_samples(&vec![], 5), Ok(vec![]));
}

#[test]
fn a_partial_triplet_is_a_corrupt_buffer() {
    assert_eq!(group_samples(&vec![1], 0), Err(ProtocolError::CorruptFifo));
    assert_eq!(group_samples(&vec![1, 2], 0), Err(ProtocolError::CorruptFifo));
    assert_eq!(group_samples(&vec![1, 2, 3, 4], 0), Err(ProtocolError::CorruptFifo));
    assert_eq!(group_samples(&vec![1, 2, 3, 4, 5], 0), Err(ProtocolError::CorruptFifo));
    for len in 0..40usize {
        let readings: Vec<i16> = (0..len as i16).collect();
        let grouped = group_samples(&readings, 0);
        if len % 3 == 0 {
            assert_eq!(grouped.unwrap().len() * 3, len);
        } else {
            assert_eq!(grouped, Err(ProtocolError::CorruptFifo));
        }
    }
}

#[test]
fn sample_times_before_the_epoch() {
    let samples = group_samples(&vec![0, 0, 0, 0, 0, 0], -100).unwrap();
    assert_eq!(samples[0].timestamp_ms, -20);
    assert_eq!(samples[1].timestamp_ms, 60);
}

fn hex(text: &str) -> Option<String> {
    sensor_tags::hex::numbers_to_hex(text).map(|digits| String::from_utf8(digits).unwrap())
}

#[test]
fn numbers_are_rewritten_in_upper_case_hexadecimal() {
    assert_eq!(hex("0"), Some("0".to_string()));
    assert_eq!(hex("9"), Some("9".to_string()));
    assert_eq!(hex("10"), Some("A".to_string()));
    assert_eq!(hex("15"), Some("F".to_string()));
    assert_eq!(hex("16"), Some("10".to_string()));
    assert_eq!(hex("255"), Some("FF".to_string()));
    assert_eq!(hex("48879"), Some("BEEF".to_string()));
    assert_eq!(hex("0007"), Some("7".to_string()));
    assert_eq!(hex("+26"), Some("1A".to_string()));
    assert_eq!(hex("18446744073709551615"), Some("FFFFFFFFFFFFFFFF".to_string()));
}

#[test]
fn text_that_is_no_number_has_no_hexadecimal() {
    for text in [
        "", "+", "-", "-1", "+-1", "++1", "12a", "a12", " 12", "12 ", "1 2", "0x10", "1.5",
        "18446744073709551616", "99999999999999999999", "184467440737095516150", "\u{0661}",
    ] {
        assert_eq!(hex(text), None);
        assert!(text.parse::<u64>().is_err());
    }
}

#[test]
fn hexadecimal_agrees_with_the_formatter() {
    let mut number: u64 = 1;
    for step in 0..200u64 {
        for n in [number, number - 1, number.wrapping_add(step)] {
            assert_eq!(hex(&n.to_string()), Some(format!("{:X}", n)));
            assert_eq!(sensor_tags::hex::parse_decimal(n.to_string().as_bytes()), Some(n));
        }
        number = number.wrapping_mul(3).wrapping_add(step) | 1;
    }
    for n in 0..5000u64 {
        assert_eq!(hex(&n.to_string()), Some(format!("{:X}", n)));
    }
}

#[test]
fn a_snapshot_drops_what_the_reset_left() {
    let snapshot = sensor_tags::fifo::FifoSnapshot {
        entries: vec![0x7777, 0x7777, 0x7777, 1, 0xFFFE, 3, 0x8000, 5, 6],
    };
    assert_eq!(
        snapshot.samples(500),
        Ok(vec![
            AccelSample { x: 1, y: -2, z: 3, timestamp_ms: 580 },
            AccelSample { x: i16::MIN, y: 5, z: 6, timestamp_ms: 660 },
        ])
    );
    let only_the_reset = sensor_tags::fifo::FifoSnapshot { entries: vec![9, 9, 9] };
    assert_eq!(only_the_reset.samples(500), Ok(vec![]));
}

#[test]
fn a_snapshot_with_a_partial_sample_is_corrupt() {
    for len in 0..40usize {
        let snapshot = sensor_tags::fifo::FifoSnapshot { entries: vec![0; len] };
        let samples = snapshot.samples(0);
        if len >= 3 && (len - 3) % 3 == 0 {
            assert_eq!(samples.unwrap().len(), (len - 3) / 3);
        } else {
            assert_eq!(samples, Err(ProtocolError::CorruptFifo));
        }
    }
}
