use phistar_radio::{BandwithOptions, RadioMode};

#[test]
fn mode_codes_are_the_hardware_codes() {
    assert_eq!(u8::from(RadioMode::SLEEP), 0b000);
    assert_eq!(u8::from(RadioMode::STDBY), 0b010);
    assert_eq!(u8::from(RadioMode::FSTX), 0b010);
    assert_eq!(u8::from(RadioMode::TX), 0b011);
    assert_eq!(u8::from(RadioMode::FSRX), 0b100);
    assert_eq!(u8::from(RadioMode::RXCONTINUOUS), 0b101);
    assert_eq!(u8::from(RadioMode::RXSINGLE), 0b110);
    assert_eq!(u8::from(RadioMode::CAD), 0b111);
}

#[test]
fn standby_and_fstx_share_their_code() {
    let standby: u8 = RadioMode::STDBY.into();
    let fstx: u8 = RadioMode::FSTX.into();
    assert_eq!(standby, 0b010);
    assert_eq!(fstx, 0b010);
    assert_ne!(RadioMode::STDBY, RadioMode::FSTX);
}

#[test]
fn mode_codes_fit_three_bits_and_only_one_pair_collides() {
    let modes = [
        RadioMode::SLEEP,
        RadioMode::STDBY,
        RadioMode::FSTX,
        RadioMode::TX,
        RadioMode::FSRX,
        RadioMode::RXCONTINUOUS,
        RadioMode::RXSINGLE,
        RadioMode::CAD,
    ];
    for a in modes {
        assert!(u8::from(a) < 8);
        for b in modes {
            let pair = (a == RadioMode::STDBY && b == RadioMode::FSTX)
                || (a == RadioMode::FSTX && b == RadioMode::STDBY);
            assert_eq!(u8::from(a) == u8::from(b), a == b || pair);
        }
    }
}

#[test]
fn bandwidth_codes_count_up_with_the_bandwidth() {
    let ascending = [
        BandwithOptions::Bw007_8,
        BandwithOptions::Bw010_4,
        BandwithOptions::Bw015_6,
        BandwithOptions::Bw020_8,
        BandwithOptions::Bw031_25,
        BandwithOptions::Bw041_7,
        BandwithOptions::Bw062_5,
        BandwithOptions::Bw125_0,
        BandwithOptions::Bw250_0,
        BandwithOptions::Bw500_0,
    ];
    let mut position: u8 = 0;
    for bandwith in ascending {
        let code: u8 = bandwith.into();
        assert_eq!(code, position);
        position += 1;
    }
    assert_eq!(position, 10);
}

#[test]
fn first_and_last_bandwidth_codes() {
    assert_eq!(u8::from(BandwithOptions::Bw007_8), 0);
    assert_eq!(u8::from(BandwithOptions::Bw020_8), 0b0011);
    assert_eq!(u8::from(BandwithOptions::Bw500_0), 9);
}
