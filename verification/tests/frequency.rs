use phistar_radio::frequency::{split_word, BAND_CEILING, BAND_FLOOR};
use phistar_radio::{Frequency, RadioOptions};

fn mhz(value: f32) -> Frequency {
    Frequency { bits: value.to_bits() }
}

#[test]
fn band_limits_are_the_bits_of_868_and_915() {
    assert_eq!(BAND_FLOOR, 868.0f32.to_bits());
    assert_eq!(BAND_CEILING, 915.0f32.to_bits());
}

#[test]
fn word_of_910_mhz() {
    let frequency = mhz(910.0);
    assert!(RadioOptions::verify_frequency_value(&frequency));
    let word = frequency.synthesizer_word();
    // 910 * 524288 / 32
    assert_eq!(word, 14_909_440);
    assert_eq!(word, 0xe3_8000);
    assert_eq!(split_word(word), (0xe3, 0x80, 0x00));
}

#[test]
fn word_of_the_lowest_frequency() {
    let word = mhz(868.0).synthesizer_word();
    assert_eq!(word, 868 * 16_384);
    assert_eq!(split_word(word), (0xd9, 0x00, 0x00));
}

#[test]
fn word_of_a_frequency_with_a_fraction() {
    // 868.1 is not a single-precision number; the nearest one is taken
    let value = 868.1f32;
    let word = mhz(value).synthesizer_word();
    assert_eq!(word, ((value * 524_288.0) / 32.0) as u32);
    assert_eq!(word as f64, (value as f64 * 524_288.0 / 32.0).round());
    let bytes = split_word(word);
    assert_eq!(
        (bytes.0 as u32) << 16 | (bytes.1 as u32) << 8 | bytes.2 as u32,
        word
    );
}

#[test]
fn word_agrees_with_the_formula_across_the_band() {
    let mut bits = BAND_FLOOR;
    let mut checked = 0u32;
    while bits < BAND_CEILING {
        let value = f32::from_bits(bits);
        let word = Frequency { bits }.synthesizer_word();
        assert_eq!(word as f64, (value as f64 * 524_288.0 / 32.0).round());
        assert_eq!(word, ((value * 524_288.0) / 32.0) as u32);
        assert!(word < 1 << 24);
        bits += 977;
        checked += 1;
    }
    assert!(checked > 700);
}

#[test]
fn split_word_is_most_significant_byte_first() {
    assert_eq!(split_word(0x00_0000), (0x00, 0x00, 0x00));
    assert_eq!(split_word(0x12_3456), (0x12, 0x34, 0x56));
    assert_eq!(split_word(0xff_ffff), (0xff, 0xff, 0xff));
    // bits above the 24th do not count
    assert_eq!(split_word(0xab12_3456), (0x12, 0x34, 0x56));
}

#[test]
fn frequency_boundaries() {
    assert!(!RadioOptions::verify_frequency_value(&mhz(867.9)));
    assert!(RadioOptions::verify_frequency_value(&mhz(868.0)));
    assert!(RadioOptions::verify_frequency_value(&mhz(914.9)));
    assert!(!RadioOptions::verify_frequency_value(&mhz(915.0)));
}

#[test]
fn neighbours_of_the_band_limits() {
    // the single-precision numbers next to the limits
    assert!(!RadioOptions::verify_frequency_value(&Frequency { bits: BAND_FLOOR - 1 }));
    assert!(RadioOptions::verify_frequency_value(&Frequency { bits: BAND_FLOOR + 1 }));
    assert!(RadioOptions::verify_frequency_value(&Frequency { bits: BAND_CEILING - 1 }));
    assert!(!RadioOptions::verify_frequency_value(&Frequency { bits: BAND_CEILING + 1 }));
}

#[test]
fn band_check_agrees_with_the_range_of_floats() {
    let samples = [
        0.0f32,
        -0.0,
        1.0e-40,
        1.0,
        433.0,
        511.999,
        512.0,
        867.999_94,
        868.0,
        868.000_06,
        900.5,
        914.999_94,
        915.0,
        1023.9,
        1024.0,
        2400.0,
        -868.0,
        -910.0,
        f32::MAX,
        f32::MIN,
        f32::MIN_POSITIVE,
        f32::INFINITY,
        f32::NEG_INFINITY,
        f32::NAN,
        -f32::NAN,
    ];
    for value in samples {
        assert_eq!(
            RadioOptions::verify_frequency_value(&mhz(value)),
            (868.0..915.0).contains(&value)
        );
    }
}
