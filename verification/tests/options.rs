use phistar_radio::{BandwithOptions, Frequency, OptionsBuilder, RadioOptions};

fn mhz(value: f32) -> Frequency {
    Frequency { bits: value.to_bits() }
}

#[test]
fn power_boundaries() {
    assert!(!RadioOptions::verify_power_value(&1));
    assert!(RadioOptions::verify_power_value(&2));
    assert!(RadioOptions::verify_power_value(&16));
    assert!(!RadioOptions::verify_power_value(&17));
    assert!(!RadioOptions::verify_power_value(&0));
    assert!(!RadioOptions::verify_power_value(&255));
}

#[test]
fn gain_boundaries() {
    assert!(!RadioOptions::verify_gain_value(&0));
    assert!(RadioOptions::verify_gain_value(&1));
    assert!(RadioOptions::verify_gain_value(&5));
    assert!(!RadioOptions::verify_gain_value(&6));
    assert!(!RadioOptions::verify_gain_value(&255));
}

#[test]
fn default_options() {
    let options = RadioOptions::default();
    assert_eq!(options.power(), 10);
    assert_eq!(options.gain(), 4);
    assert_eq!(options.frequency(), mhz(910.0));
    assert_eq!(options.bandwith(), BandwithOptions::Bw020_8);
    assert!(options.verify());
}

#[test]
fn builder_starts_from_the_default() {
    let built = RadioOptions::builder().build();
    assert_eq!(built, Some(RadioOptions::default()));
    let built = OptionsBuilder::default().build();
    assert_eq!(built, Some(RadioOptions::default()));
}

#[test]
fn builder_collects_every_field() {
    let options = RadioOptions::builder()
        .power(2)
        .gain(4)
        .frequency(mhz(910.0))
        .bandwith(BandwithOptions::Bw062_5)
        .build()
        .expect("every field is in range");
    assert_eq!(options.power(), 2);
    assert_eq!(options.gain(), 4);
    assert_eq!(options.frequency(), mhz(910.0));
    assert_eq!(options.bandwith(), BandwithOptions::Bw062_5);
    assert!(options.verify());
}

#[test]
fn builder_setter_leaves_the_builder_it_was_called_on() {
    let base = RadioOptions::builder().power(5);
    let changed = base.power(7).gain(2);
    assert_eq!(base.build().map(|o| (o.power(), o.gain())), Some((5, 4)));
    assert_eq!(changed.build().map(|o| (o.power(), o.gain())), Some((7, 2)));
}

#[test]
fn builder_last_value_of_a_field_counts() {
    let options = RadioOptions::builder().power(17).power(16).build();
    assert_eq!(options.map(|o| o.power()), Some(16));
}

#[test]
fn builder_accepts_the_boundaries() {
    assert!(RadioOptions::builder().power(2).build().is_some());
    assert!(RadioOptions::builder().power(16).build().is_some());
    assert!(RadioOptions::builder().gain(1).build().is_some());
    assert!(RadioOptions::builder().gain(5).build().is_some());
    assert!(RadioOptions::builder().frequency(mhz(868.0)).build().is_some());
    assert!(RadioOptions::builder().frequency(mhz(914.9)).build().is_some());
}

#[test]
fn builder_yields_nothing_when_a_field_is_out_of_range() {
    assert!(RadioOptions::builder().power(1).build().is_none());
    assert!(RadioOptions::builder().power(17).build().is_none());
    assert!(RadioOptions::builder().gain(0).build().is_none());
    assert!(RadioOptions::builder().gain(6).build().is_none());
    assert!(RadioOptions::builder().frequency(mhz(867.9)).build().is_none());
    assert!(RadioOptions::builder().frequency(mhz(915.0)).build().is_none());
    assert!(RadioOptions::builder().frequency(mhz(f32::NAN)).build().is_none());
    // one bad field is enough, whatever the others are
    assert!(RadioOptions::builder()
        .power(2)
        .gain(6)
        .frequency(mhz(900.0))
        .bandwith(BandwithOptions::Bw500_0)
        .build()
        .is_none());
}

#[test]
fn every_bandwidth_is_accepted() {
    let all = [
        BandwithOptions::Bw007_8,
        BandwithOptions::Bw010_4,
        BandwithOptions::Bw015_6,
        BandwithOptions::Bw020_8,
        BandwithOptions::Bw031_25,
        BandwithOptions::Bw041_7,
        BandwithOptions::Bw062_5,
        BandwithOptions::Bw125_0,
        BandwithOptions::Bw250_0,
        BandwithOptions::Bw500_0,
    ];
    for bandwith in all {
        let options = RadioOptions::builder().bandwith(bandwith).build();
        assert_eq!(options.map(|o| o.bandwith()), Some(bandwith));
    }
}
