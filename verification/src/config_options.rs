//! Operating modes and channel bandwidths with their register codes, and the
//! set of parameters that a device is configured with.

use crate::frequency::{lemma_band_bits, Frequency, BAND_CEILING, BAND_FLOOR};
use vstd::prelude::*;
use vstd::std_specs::convert::FromSpecImpl;

verus! {

/// The eight operating modes of the transceiver.
#[derive(Clone, Copy, Debug, PartialEq, Eq, Structural)]
pub enum RadioMode {
    SLEEP,
    STDBY,
    FSTX,
    TX,
    FSRX,
    RXCONTINUOUS,
    RXSINGLE,
    CAD,
}

impl RadioMode {
    /// The three-bit code that selects the mode in the mode-control register.
    /// Stand-by and FSTX share `0b010`: that is how the hardware is driven.
    pub open spec fn code(self) -> u8 {
        match self {
            RadioMode::SLEEP => 0b000,
            RadioMode::STDBY => 0b010,
            RadioMode::FSTX => 0b010,
            RadioMode::TX => 0b011,
            RadioMode::FSRX => 0b100,
            RadioMode::RXCONTINUOUS => 0b101,
            RadioMode::RXSINGLE => 0b110,
            RadioMode::CAD => 0b111,
        }
    }
}

impl From<RadioMode> for u8 {
    fn from(mode: RadioMode) -> (code: u8) {
        match mode {
            RadioMode::SLEEP => 0b000,
            RadioMode::STDBY => 0b010,
            RadioMode::FSTX => 0b010,
            RadioMode::TX => 0b011,
            RadioMode::FSRX => 0b100,
            RadioMode::RXCONTINUOUS => 0b101,
            RadioMode::RXSINGLE => 0b110,
            RadioMode::CAD => 0b111,
        }
    }
}

impl FromSpecImpl<RadioMode> for u8 {
    open spec fn obeys_from_spec() -> bool {
        true
    }

    open spec fn from_spec(mode: RadioMode) -> u8 {
        mode.code()
    }
}

/// The ten channel bandwidths, from 7.8 kHz to 500 kHz.
#[derive(Clone, Copy, Debug, PartialEq, Eq, Structural)]
pub enum BandwithOptions {
    Bw007_8,
    Bw010_4,
    Bw015_6,
    Bw020_8,
    Bw031_25,
    Bw041_7,
    Bw062_5,
    Bw125_0,
    Bw250_0,
    Bw500_0,
}

impl BandwithOptions {
    /// The width of the channel in hertz.
    pub open spec fn hertz(self) -> nat {
        match self {
            BandwithOptions::Bw007_8 => 7_800,
            BandwithOptions::Bw010_4 => 10_400,
            BandwithOptions::Bw015_6 => 15_600,
            BandwithOptions::Bw020_8 => 20_800,
            BandwithOptions::Bw031_25 => 31_250,
            BandwithOptions::Bw041_7 => 41_700,
            BandwithOptions::Bw062_5 => 62_500,
            BandwithOptions::Bw125_0 => 125_000,
            BandwithOptions::Bw250_0 => 250_000,
            BandwithOptions::Bw500_0 => 500_000,
        }
    }

    /// The four-bit code of the bandwidth field of the first modem
    /// configuration register.
    pub open spec fn code(self) -> u8 {
        match self {
            BandwithOptions::Bw007_8 => 0b0000,
            BandwithOptions::Bw010_4 => 0b0001,
            BandwithOptions::Bw015_6 => 0b0010,
            BandwithOptions::Bw020_8 => 0b0011,
            BandwithOptions::Bw031_25 => 0b0100,
            BandwithOptions::Bw041_7 => 0b0101,
            BandwithOptions::Bw062_5 => 0b0110,
            BandwithOptions::Bw125_0 => 0b0111,
            BandwithOptions::Bw250_0 => 0b1000,
            BandwithOptions::Bw500_0 => 0b1001,
        }
    }
}

impl From<BandwithOptions> for u8 {
    fn from(bandwith: BandwithOptions) -> (code: u8) {
        match bandwith {
            BandwithOptions::Bw007_8 => 0b0000,
            BandwithOptions::Bw010_4 => 0b0001,
            BandwithOptions::Bw015_6 => 0b0010,
            BandwithOptions::Bw020_8 => 0b0011,
            BandwithOptions::Bw031_25 => 0b0100,
            BandwithOptions::Bw041_7 => 0b0101,
            BandwithOptions::Bw062_5 => 0b0110,
            BandwithOptions::Bw125_0 => 0b0111,
            BandwithOptions::Bw250_0 => 0b1000,
            BandwithOptions::Bw500_0 => 0b1001,
        }
    }
}

impl FromSpecImpl<BandwithOptions> for u8 {
    open spec fn obeys_from_spec() -> bool {
        true
    }

    open spec fn from_spec(bandwith: BandwithOptions) -> u8 {
        bandwith.code()
    }
}

/// Every mode code fits the three-bit mode field, and two modes share a code
/// exactly when they are the same mode or the pair of stand-by and FSTX.
pub proof fn lemma_mode_codes(a: RadioMode, b: RadioMode)
    ensures
        a.code() < 8,
        a.code() == b.code() <==> a == b || (a == RadioMode::STDBY && b == RadioMode::FSTX) || (a
            == RadioMode::FSTX && b == RadioMode::STDBY),
{
}

/// The code of a bandwidth is its rank among the ten: codes run from 0 to 9
/// and grow exactly as the bandwidths do.
pub proof fn lemma_bandwith_codes_follow_width(a: BandwithOptions, b: BandwithOptions)
    ensures
        a.code() < 10,
        a.code() < b.code() <==> a.hertz() < b.hertz(),
        a.code() == b.code() <==> a == b,
{
}

/// Whether a transmit power in dBm can be set: 2 <= power < 17.
pub open spec fn power_in_range(power: u8) -> bool {
    2 <= power < 17
}

/// Whether a gain code of the low-noise amplifier can be set: 1 <= gain < 6.
pub open spec fn gain_in_range(gain: u8) -> bool {
    1 <= gain < 6
}

/// The bits of 910.0, the frequency of the default parameters.
pub const DEFAULT_FREQUENCY: u32 = 0x4463_8000;

/// What a set of parameters holds.
pub struct OptionsView {
    pub power: u8,
    pub gain: u8,
    pub frequency: Frequency,
    pub bandwith: BandwithOptions,
}

impl OptionsView {
    /// Whether every parameter lies in its range. A bandwidth always does.
    pub open spec fn valid(self) -> bool {
        &&& power_in_range(self.power)
        &&& gain_in_range(self.gain)
        &&& self.frequency.in_band()
    }

    /// The default parameters: 10 dBm, gain 4, 910 MHz, 20.8 kHz.
    pub open spec fn standard() -> OptionsView {
        OptionsView {
            power: 10,
            gain: 4,
            frequency: Frequency { bits: DEFAULT_FREQUENCY },
            bandwith: BandwithOptions::Bw020_8,
        }
    }

    /// The parameters with one of them replaced.
    pub open spec fn with(self, setting: Setting) -> OptionsView {
        match setting {
            Setting::Power(power) => OptionsView { power, ..self },
            Setting::Gain(gain) => OptionsView { gain, ..self },
            Setting::Frequency(frequency) => OptionsView { frequency, ..self },
            Setting::Bandwith(bandwith) => OptionsView { bandwith, ..self },
        }
    }
}

/// One parameter with its value.
#[derive(Clone, Copy, Debug, PartialEq, Eq, Structural)]
pub enum Setting {
    Power(u8),
    Gain(u8),
    Frequency(Frequency),
    Bandwith(BandwithOptions),
}

/// The parameters of a device. A value comes from [`RadioOptions::default`]
/// or from a builder, which hands it out only when every parameter is in
/// range.
#[derive(Clone, Copy, Debug, PartialEq, Eq, Structural)]
pub struct RadioOptions {
    /// Transmit power in dBm: 2 and up, below 17.
    power: u8,
    /// Gain code of the low-noise amplifier: 1 and up, below 6.
    gain: u8,
    /// Carrier frequency in MHz: 868 and up, below 915.
    frequency: Frequency,
    /// Channel bandwidth.
    bandwith: BandwithOptions,
}

impl View for RadioOptions {
    type V = OptionsView;

    closed spec fn view(&self) -> OptionsView {
        OptionsView {
            power: self.power,
            gain: self.gain,
            frequency: self.frequency,
            bandwith: self.bandwith,
        }
    }
}

impl Default for RadioOptions {
    fn default() -> (options: Self)
        ensures
            options@ == OptionsView::standard(),
            options@.valid(),
    {
        proof {
            lemma_band_bits(Frequency { bits: DEFAULT_FREQUENCY });
        }
        Self {
            power: 10,
            gain: 4,
            frequency: Frequency { bits: DEFAULT_FREQUENCY },
            bandwith: BandwithOptions::Bw020_8,
        }
    }
}

impl RadioOptions {
    /// A builder that starts from the default parameters.
    pub fn builder() -> (builder: OptionsBuilder)
        ensures
            builder@ == OptionsView::standard(),
    {
        OptionsBuilder::default()
    }

    /// Whether every parameter lies in its range.
    pub fn verify(&self) -> (ok: bool)
        ensures
            ok == self@.valid(),
    {
        Self::verify_power_value(&self.power) && Self::verify_gain_value(&self.gain)
            && Self::verify_frequency_value(&self.frequency)
    }

    /// Whether a transmit power can be set.
    pub fn verify_power_value(power: &u8) -> (ok: bool)
        ensures
            ok == power_in_range(*power),
    {
        2 <= *power && *power < 17
    }

    /// Whether a gain code can be set.
    pub fn verify_gain_value(gain: &u8) -> (ok: bool)
        ensures
            ok == gain_in_range(*gain),
    {
        1 <= *gain && *gain < 6
    }

    /// Whether a frequency lies in the band.
    pub fn verify_frequency_value(frequency: &Frequency) -> (ok: bool)
        ensures
            ok == frequency.in_band(),
    {
        proof {
            lemma_band_bits(*frequency);
        }
        BAND_FLOOR <= frequency.bits && frequency.bits < BAND_CEILING
    }

    /// The transmit power in dBm.
    pub fn power(&self) -> (power: u8)
        ensures
            power == self@.power,
    {
        self.power
    }

    /// The gain code of the low-noise amplifier.
    pub fn gain(&self) -> (gain: u8)
        ensures
            gain == self@.gain,
    {
        self.gain
    }

    /// The frequency.
    pub fn frequency(&self) -> (frequency: Frequency)
        ensures
            frequency == self@.frequency,
    {
        self.frequency
    }

    /// The bandwidth.
    pub fn bandwith(&self) -> (bandwith: BandwithOptions)
        ensures
            bandwith == self@.bandwith,
    {
        self.bandwith
    }

    /// The parameters with one of them replaced. Nothing is checked here.
    pub(crate) fn with(self, setting: Setting) -> (options: Self)
        ensures
            options@ == self@.with(setting),
    {
        match setting {
            Setting::Power(power) => Self { power, ..self },
            Setting::Gain(gain) => Self { gain, ..self },
            Setting::Frequency(frequency) => Self { frequency, ..self },
            Setting::Bandwith(bandwith) => Self { bandwith, ..self },
        }
    }
}

/// Collects parameters one by one and hands out the set once all of them are
/// in range.
#[derive(Clone, Copy, Debug)]
pub struct OptionsBuilder(RadioOptions);

impl View for OptionsBuilder {
    type V = OptionsView;

    closed spec fn view(&self) -> OptionsView {
        self.0@
    }
}

impl Default for OptionsBuilder {
    fn default() -> (builder: Self)
        ensures
            builder@ == OptionsView::standard(),
    {
        OptionsBuilder(RadioOptions::default())
    }
}

impl OptionsBuilder {
    /// The builder with the transmit power replaced.
    pub fn power(self, value: u8) -> (builder: Self)
        ensures
            builder@ == (OptionsView { power: value, ..self@ }),
    {
        OptionsBuilder(self.0.with(Setting::Power(value)))
    }

    /// The builder with the gain code replaced.
    pub fn gain(self, value: u8) -> (builder: Self)
        ensures
            builder@ == (OptionsView { gain: value, ..self@ }),
    {
        OptionsBuilder(self.0.with(Setting::Gain(value)))
    }

    /// The builder with the frequency replaced.
    pub fn frequency(self, value: Frequency) -> (builder: Self)
        ensures
            builder@ == (OptionsView { frequency: value, ..self@ }),
    {
        OptionsBuilder(self.0.with(Setting::Frequency(value)))
    }

    /// The builder with the bandwidth replaced.
    pub fn bandwith(self, value: BandwithOptions) -> (builder: Self)
        ensures
            builder@ == (OptionsView { bandwith: value, ..self@ }),
    {
        OptionsBuilder(self.0.with(Setting::Bandwith(value)))
    }

    /// The parameters that were collected, if every one of them is in range,
    /// and nothing otherwise.
    pub fn build(self) -> (options: Option<RadioOptions>)
        ensures
            self@.valid() ==> options.is_some() && options.unwrap()@ == self@,
            !self@.valid() ==> options.is_none(),
    {
        if self.0.verify() {
            Some(self.0)
        } else {
            None
        }
    }
}

} // verus!
