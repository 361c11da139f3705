//! Scripts: what an operation of the device does on the bus, stage by stage.
//!
//! Every operation has its script. The stages are carried out in their
//! order, and a stage that stores a parameter in the handle does so when its
//! last transaction has gone through.

use crate::config_options::{BandwithOptions, OptionsView, RadioMode, RadioOptions, Setting};
use crate::frequency::{split_word, word_bytes, Frequency};
use crate::registers::{
    REG_FIFO,
    REG_FIFO_ADDR_PTR,
    REG_FIFO_RX_CURRENT_ADDR,
    REG_FIFO_TX_BASE_ADDR,
    REG_FR_LSB,
    REG_FR_MID,
    REG_FR_MSB,
    REG_LNA,
    REG_MODEM_CONFIG_1,
    REG_OP_MODE,
    REG_PA_CONFIG,
    REG_RX_NB_BYTES,
};
use vstd::prelude::*;

verus! {

/// What a stage does on the bus.
#[derive(Clone, Copy, Debug, PartialEq, Eq)]
pub enum Action {
    /// Read `register`, replace its bits `mask_end ..= mask_start` by the low
    /// bits of `value`, and write the byte back.
    Update { register: u8, value: u8, mask_start: usize, mask_end: usize },
    /// Read `source` and write the byte that it holds to `target`.
    Forward { source: u8, target: u8 },
    /// Read the byte of `register` as a number of bytes.
    Measure { register: u8 },
    /// Read a block of `BUFFER_SIZE` bytes through `register`.
    Drain { register: u8 },
    /// Write the outgoing data of the session through `register`.
    Load { register: u8 },
}

impl Action {
    /// A bit field has its lower end first and lies within a byte.
    pub open spec fn wf(self) -> bool {
        self matches Action::Update { mask_start, mask_end, .. } ==> mask_end <= mask_start < 8
    }

    /// Whether the stage takes a read and then a write that depends on it.
    pub open spec fn reads_then_writes(self) -> bool {
        self is Update || self is Forward
    }

    /// The number of transactions that the stage takes.
    pub open spec fn transactions(self) -> nat {
        if self.reads_then_writes() {
            2
        } else {
            1
        }
    }
}

/// One step of a script: what is done on the bus, and the parameter that is
/// stored in the handle once that is done.
#[derive(Clone, Copy, Debug, PartialEq, Eq)]
pub struct Stage {
    pub action: Action,
    pub commit: Option<Setting>,
}

/// Whether `script` can be the script of an operation: it has a stage, and
/// every bit field that it updates is one.
pub open spec fn sound(script: Seq<Stage>) -> bool {
    &&& script.len() > 0
    &&& forall|i: int| 0 <= i < script.len() ==> (#[trigger] script[i]).action.wf()
}

/// The number of transactions that the stages of `script` from the index
/// `from` on take.
pub open spec fn transactions_from(script: Seq<Stage>, from: int) -> nat
    decreases script.len() - from,
{
    if 0 <= from < script.len() {
        script[from].action.transactions() + transactions_from(script, from + 1)
    } else {
        0
    }
}

/// The stage that sets the output power.
pub open spec fn power_script(power: u8) -> Seq<Stage> {
    seq![
        Stage {
            action: Action::Update { register: REG_PA_CONFIG, value: power, mask_start: 3, mask_end: 0 },
            commit: Some(Setting::Power(power)),
        },
    ]
}

/// The stage that sets the gain of the low-noise amplifier.
pub open spec fn gain_script(gain: u8) -> Seq<Stage> {
    seq![
        Stage {
            action: Action::Update { register: REG_LNA, value: gain, mask_start: 7, mask_end: 5 },
            commit: Some(Setting::Gain(gain)),
        },
    ]
}

/// The stage that sets the bandwidth.
pub open spec fn bandwith_script(bandwith: BandwithOptions) -> Seq<Stage> {
    seq![
        Stage {
            action: Action::Update {
                register: REG_MODEM_CONFIG_1,
                value: bandwith.code(),
                mask_start: 7,
                mask_end: 4,
            },
            commit: Some(Setting::Bandwith(bandwith)),
        },
    ]
}

/// The stages that set the frequency: the three bytes of the synthesizer
/// word, most significant first. The frequency counts as set when the last
/// byte is in.
pub open spec fn frequency_script(frequency: Frequency) -> Seq<Stage> {
    let bytes = word_bytes(frequency.word());
    seq![
        Stage {
            action: Action::Update { register: REG_FR_MSB, value: bytes.0, mask_start: 7, mask_end: 0 },
            commit: None,
        },
        Stage {
            action: Action::Update { register: REG_FR_MID, value: bytes.1, mask_start: 7, mask_end: 0 },
            commit: None,
        },
        Stage {
            action: Action::Update { register: REG_FR_LSB, value: bytes.2, mask_start: 7, mask_end: 0 },
            commit: Some(Setting::Frequency(frequency)),
        },
    ]
}

/// The stages that set all four parameters: power, gain, bandwidth,
/// frequency, in this order.
pub open spec fn options_script(options: OptionsView) -> Seq<Stage> {
    power_script(options.power) + gain_script(options.gain) + bandwith_script(options.bandwith)
        + frequency_script(options.frequency)
}

/// The stage that puts the device into `mode`: the mode's code goes into the
/// low three bits of the mode-control register.
pub open spec fn mode_script(mode: RadioMode) -> Seq<Stage> {
    seq![
        Stage {
            action: Action::Update {
                register: REG_OP_MODE,
                value: mode.code(),
                mask_start: 2,
                mask_end: 0,
            },
            commit: None,
        },
    ]
}

/// The stage that selects the modulation scheme in bit 7 of the mode-control
/// register: 1 for LoRa, 0 for FSK/OOK.
pub open spec fn modulation_script(lora: bool) -> Seq<Stage> {
    seq![
        Stage {
            action: Action::Update {
                register: REG_OP_MODE,
                value: if lora { 1u8 } else { 0u8 },
                mask_start: 7,
                mask_end: 7,
            },
            commit: None,
        },
    ]
}

/// The stages that bring in what was received: point the FIFO at the start
/// of the last packet, read the number of payload bytes, read the FIFO.
pub open spec fn receive_script() -> Seq<Stage> {
    seq![
        Stage {
            action: Action::Forward { source: REG_FIFO_RX_CURRENT_ADDR, target: REG_FIFO_ADDR_PTR },
            commit: None,
        },
        Stage { action: Action::Measure { register: REG_RX_NB_BYTES }, commit: None },
        Stage { action: Action::Drain { register: REG_FIFO }, commit: None },
    ]
}

/// The stages that load data to transmit: point the FIFO at the start of the
/// transmit area, write the data to the FIFO.
pub open spec fn transmit_script() -> Seq<Stage> {
    seq![
        Stage {
            action: Action::Forward { source: REG_FIFO_TX_BASE_ADDR, target: REG_FIFO_ADDR_PTR },
            commit: None,
        },
        Stage { action: Action::Load { register: REG_FIFO }, commit: None },
    ]
}

pub(crate) fn update(register: u8, value: u8, mask_start: usize, mask_end: usize, commit: Option<Setting>) -> (stage:
    Stage)
    ensures
        stage == (Stage {
            action: Action::Update { register, value, mask_start, mask_end },
            commit,
        }),
{
    Stage { action: Action::Update { register, value, mask_start, mask_end }, commit }
}

pub(crate) fn push_power(script: &mut Vec<Stage>, power: u8)
    ensures
        final(script)@ == old(script)@ + power_script(power),
{
    script.push(update(REG_PA_CONFIG, power, 3, 0, Some(Setting::Power(power))));
}

pub(crate) fn push_gain(script: &mut Vec<Stage>, gain: u8)
    ensures
        final(script)@ == old(script)@ + gain_script(gain),
{
    script.push(update(REG_LNA, gain, 7, 5, Some(Setting::Gain(gain))));
}

pub(crate) fn push_bandwith(script: &mut Vec<Stage>, bandwith: BandwithOptions)
    ensures
        final(script)@ == old(script)@ + bandwith_script(bandwith),
{
    script.push(
        update(REG_MODEM_CONFIG_1, u8::from(bandwith), 7, 4, Some(Setting::Bandwith(bandwith))),
    );
}

pub(crate) fn push_frequency(script: &mut Vec<Stage>, frequency: Frequency)
    requires
        frequency.in_band(),
    ensures
        final(script)@ == old(script)@ + frequency_script(frequency),
{
    let word: u32 = frequency.synthesizer_word();
    let bytes: (u8, u8, u8) = split_word(word);
    script.push(update(REG_FR_MSB, bytes.0, 7, 0, None));
    script.push(update(REG_FR_MID, bytes.1, 7, 0, None));
    script.push(update(REG_FR_LSB, bytes.2, 7, 0, Some(Setting::Frequency(frequency))));
}

pub(crate) fn push_options(script: &mut Vec<Stage>, options: &RadioOptions)
    requires
        options@.valid(),
    ensures
        final(script)@ == old(script)@ + options_script(options@),
{
    push_power(script, options.power());
    push_gain(script, options.gain());
    push_bandwith(script, options.bandwith());
    push_frequency(script, options.frequency());
}

} // verus!
