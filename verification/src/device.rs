//! The device handle.
//!
//! A handle stands for the transceiver in one operating mode. Each of its
//! operations takes the handle and gives a [`Progress`]: the operation was
//! turned down, or it waits for a transaction on the bus. The host carries
//! the transaction out and gives its response to the session, which gives
//! the next `Progress`, until the operation is through and the handle comes
//! back.

use crate::config_options::{
    gain_in_range,
    power_in_range,
    BandwithOptions,
    OptionsView,
    RadioMode,
    RadioOptions,
    Setting,
};
use crate::error::RadioError;
use crate::frequency::Frequency;
use crate::registers::{
    BUFFER_SIZE,
    REG_FIFO,
    REG_FIFO_ADDR_PTR,
    REG_FIFO_RX_CURRENT_ADDR,
    REG_FIFO_TX_BASE_ADDR,
    REG_FR_LSB,
    REG_FR_MID,
    REG_FR_MSB,
    REG_LNA,
    REG_MODEM_CONFIG_1,
    REG_OP_MODE,
    REG_PA_CONFIG,
    REG_RX_NB_BYTES,
};
use crate::script::{
    bandwith_script,
    frequency_script,
    gain_script,
    mode_script,
    modulation_script,
    options_script,
    power_script,
    push_bandwith,
    push_frequency,
    push_gain,
    push_options,
    push_power,
    receive_script,
    transmit_script,
    update,
    Action,
    Stage,
};
use crate::session::{Progress, ProgressView, Session, SessionView};
use crate::state::{
    CADState,
    ChangeFrequency,
    FSRXState,
    FSTXState,
    RState,
    RXContinuousState,
    RXSingleState,
    ReadBuffer,
    SleepState,
    StandByState,
    TXState,
    WriteBuffer,
};
use core::marker::PhantomData;
use vstd::prelude::*;
use vstd::slice::slice_to_vec;
use vstd::std_specs::convert::FromSpecImpl;

verus! {

/// A digital output that can be driven high or low.
pub trait PowerPin {
    fn set_high(&mut self) -> Result<(), core::convert::Infallible>;

    fn set_low(&mut self) -> Result<(), core::convert::Infallible>;
}

/// The control lines between the host and the transceiver.
pub struct Rfm95xPins<'a> {
    pub reset: &'a dyn PowerPin,  // RFM_RST
    pub dio5: &'a dyn PowerPin,
    pub dio4: &'a dyn PowerPin,
    pub dio3: &'a dyn PowerPin,
    pub dio2: &'a dyn PowerPin,
    pub dio1: &'a dyn PowerPin,
    pub dio0: &'a dyn PowerPin,
}

/// What a handle holds: its control lines and the parameters that the device
/// was last given.
pub struct DeviceView<'a> {
    pub pins: Rfm95xPins<'a>,
    pub options: OptionsView,
}

impl<'a> DeviceView<'a> {
    /// The handle after one parameter was stored, or after none was.
    pub open spec fn committed(self, commit: Option<Setting>) -> DeviceView<'a> {
        match commit {
            Some(setting) => DeviceView { options: self.options.with(setting), ..self },
            None => self,
        }
    }
}

/// A handle on the transceiver, tagged with the operating mode `S` that the
/// device is in. A change of mode takes the handle and gives one with another
/// tag, so that no handle outlives the mode it stands for.
pub struct RadioDevice<'a, S: RState> {
    pins: Rfm95xPins<'a>,
    options: RadioOptions,
    state: PhantomData<S>,
}

impl<'a, S: RState> View for RadioDevice<'a, S> {
    type V = DeviceView<'a>;

    closed spec fn view(&self) -> DeviceView<'a> {
        DeviceView { pins: self.pins, options: self.options@ }
    }
}

impl<'a, S: RState> From<&RadioDevice<'a, S>> for RadioMode {
    /// The operating mode that the handle is tagged with.
    fn from(device: &RadioDevice<'a, S>) -> (mode: RadioMode) {
        S::mode()
    }
}

impl<'a, S: RState> FromSpecImpl<&RadioDevice<'a, S>> for RadioMode {
    open spec fn obeys_from_spec() -> bool {
        true
    }

    open spec fn from_spec(device: &RadioDevice<'a, S>) -> RadioMode {
        S::spec_mode()
    }
}

impl<'a> RadioDevice<'a, SleepState> {
    /// Starts a handle on a device that is asleep: sets the four parameters
    /// of `options` and selects LoRa modulation. Parameters out of range are
    /// turned down before anything goes to the bus. If the bus fails on the
    /// way, no handle comes back.
    pub fn new(pins: Rfm95xPins<'a>, options: &RadioOptions) -> (progress: Progress<
        'a,
        SleepState,
        SleepState,
    >)
        ensures
            options@.valid() ==> progress@ == SessionView::begin(
                DeviceView { pins, options: options@ },
                options_script(options@) + modulation_script(true),
                Seq::empty(),
                false,
            ),
            !options@.valid() ==> progress@ == ProgressView::Failed(
                None,
                RadioError::InvalidParameters,
            ),
    {
        if !options.verify() {
            return Progress::Failed(None, RadioError::InvalidParameters);
        }
        let device = RadioDevice { pins, options: *options, state: PhantomData };
        let mut script: Vec<Stage> = Vec::new();
        push_options(&mut script, options);
        script.push(update(REG_OP_MODE, 1, 7, 7, None));
        assert(script@ =~= options_script(options@) + modulation_script(true));
        Session::start(device, script, Vec::new(), false)
    }

    /// Selects FSK/OOK modulation: clears bit 7 of the mode-control
    /// register.
    pub fn fsk_ook(self) -> (progress: Progress<'a, SleepState, SleepState>)
        ensures
            progress@ == SessionView::begin(self@, modulation_script(false), Seq::empty(), true),
    {
        let mut script: Vec<Stage> = Vec::new();
        script.push(update(REG_OP_MODE, 0, 7, 7, None));
        Session::start(self, script, Vec::new(), true)
    }

    /// Selects LoRa modulation: sets bit 7 of the mode-control register.
    pub fn lora(self) -> (progress: Progress<'a, SleepState, SleepState>)
        ensures
            progress@ == SessionView::begin(self@, modulation_script(true), Seq::empty(), true),
    {
        let mut script: Vec<Stage> = Vec::new();
        script.push(update(REG_OP_MODE, 1, 7, 7, None));
        Session::start(self, script, Vec::new(), true)
    }
}

impl<'a, S: ReadBuffer> RadioDevice<'a, S> {
    /// Brings in the FIFO as it stands after a reception: 256 bytes, and the
    /// number of them that are payload, counted from the first.
    pub fn read_buffer(self) -> (progress: Progress<'a, S, S>)
        ensures
            progress@ == SessionView::begin(self@, receive_script(), Seq::empty(), true),
    {
        let mut script: Vec<Stage> = Vec::new();
        script.push(
            Stage {
                action: Action::Forward {
                    source: REG_FIFO_RX_CURRENT_ADDR,
                    target: REG_FIFO_ADDR_PTR,
                },
                commit: None,
            },
        );
        script.push(Stage { action: Action::Measure { register: REG_RX_NB_BYTES }, commit: None });
        script.push(Stage { action: Action::Drain { register: REG_FIFO }, commit: None });
        assert(script@ =~= receive_script());
        Session::start(self, script, Vec::new(), true)
    }
}

impl<'a, S: WriteBuffer> RadioDevice<'a, S> {
    /// Loads `data` into the FIFO for transmission. The data must fit the
    /// FIFO; their length is not looked at here and goes to the bus as it is.
    pub fn write_buffer(self, data: &[u8]) -> (progress: Progress<'a, S, S>)
        requires
            data@.len() <= BUFFER_SIZE,
        ensures
            progress@ == SessionView::begin(self@, transmit_script(), data@, true),
    {
        let mut script: Vec<Stage> = Vec::new();
        script.push(
            Stage {
                action: Action::Forward { source: REG_FIFO_TX_BASE_ADDR, target: REG_FIFO_ADDR_PTR },
                commit: None,
            },
        );
        script.push(Stage { action: Action::Load { register: REG_FIFO }, commit: None });
        assert(script@ =~= transmit_script());
        Session::start(self, script, slice_to_vec(data), true)
    }
}

impl<'a, S: RState> RadioDevice<'a, S> {
    /// Sets the output power. A power out of range is turned down before
    /// anything goes to the bus.
    pub fn set_power(self, power: u8) -> (progress: Progress<'a, S, S>)
        ensures
            power_in_range(power) ==> progress@ == SessionView::begin(
                self@,
                power_script(power),
                Seq::empty(),
                true,
            ),
            !power_in_range(power) ==> progress@ == ProgressView::Failed(
                Some(self@),
                RadioError::InvalidParameters,
            ),
    {
        if !RadioOptions::verify_power_value(&power) {
            return Progress::Failed(Some(self), RadioError::InvalidParameters);
        }
        let mut script: Vec<Stage> = Vec::new();
        push_power(&mut script, power);
        Session::start(self, script, Vec::new(), true)
    }

    /// Sets the gain of the low-noise amplifier. A gain out of range is
    /// turned down before anything goes to the bus.
    pub fn set_gain(self, gain: u8) -> (progress: Progress<'a, S, S>)
        ensures
            gain_in_range(gain) ==> progress@ == SessionView::begin(
                self@,
                gain_script(gain),
                Seq::empty(),
                true,
            ),
            !gain_in_range(gain) ==> progress@ == ProgressView::Failed(
                Some(self@),
                RadioError::InvalidParameters,
            ),
    {
        if !RadioOptions::verify_gain_value(&gain) {
            return Progress::Failed(Some(self), RadioError::InvalidParameters);
        }
        let mut script: Vec<Stage> = Vec::new();
        push_gain(&mut script, gain);
        Session::start(self, script, Vec::new(), true)
    }

    /// Sets the bandwidth.
    pub fn set_bandwith(self, bandwith: BandwithOptions) -> (progress: Progress<'a, S, S>)
        ensures
            progress@ == SessionView::begin(self@, bandwith_script(bandwith), Seq::empty(), true),
    {
        let mut script: Vec<Stage> = Vec::new();
        push_bandwith(&mut script, bandwith);
        Session::start(self, script, Vec::new(), true)
    }

    /// Puts the device into the mode of the state `T`.
    pub fn enter<T: RState>(self) -> (progress: Progress<'a, S, T>)
        ensures
            progress@ == SessionView::begin(
                self@,
                mode_script(T::spec_mode()),
                Seq::empty(),
                true,
            ),
    {
        let mut script: Vec<Stage> = Vec::new();
        script.push(update(REG_OP_MODE, u8::from(T::mode()), 2, 0, None));
        Session::start(self, script, Vec::new(), true)
    }

    /// Puts the device to sleep.
    pub fn sleep(self) -> (progress: Progress<'a, S, SleepState>)
        ensures
            progress@ == SessionView::begin(
                self@,
                mode_script(RadioMode::SLEEP),
                Seq::empty(),
                true,
            ),
    {
        self.enter::<SleepState>()
    }

    /// Puts the device into stand-by.
    pub fn standby(self) -> (progress: Progress<'a, S, StandByState>)
        ensures
            progress@ == SessionView::begin(
                self@,
                mode_script(RadioMode::STDBY),
                Seq::empty(),
                true,
            ),
    {
        self.enter::<StandByState>()
    }

    /// Starts the synthesizer at the transmit frequency.
    pub fn fstx(self) -> (progress: Progress<'a, S, FSTXState>)
        ensures
            progress@ == SessionView::begin(
                self@,
                mode_script(RadioMode::FSTX),
                Seq::empty(),
                true,
            ),
    {
        self.enter::<FSTXState>()
    }

    /// Starts transmitting.
    pub fn tx(self) -> (progress: Progress<'a, S, TXState>)
        ensures
            progress@ == SessionView::begin(self@, mode_script(RadioMode::TX), Seq::empty(), true),
    {
        self.enter::<TXState>()
    }

    /// Starts the synthesizer at the receive frequency.
    pub fn fsrx(self) -> (progress: Progress<'a, S, FSRXState>)
        ensures
            progress@ == SessionView::begin(
                self@,
                mode_script(RadioMode::FSRX),
                Seq::empty(),
                true,
            ),
    {
        self.enter::<FSRXState>()
    }

    /// Starts receiving, packet after packet.
    pub fn rxcontinuous(self) -> (progress: Progress<'a, S, RXContinuousState>)
        ensures
            progress@ == SessionView::begin(
                self@,
                mode_script(RadioMode::RXCONTINUOUS),
                Seq::empty(),
                true,
            ),
    {
        self.enter::<RXContinuousState>()
    }

    /// Starts receiving one packet.
    pub fn rxsingle(self) -> (progress: Progress<'a, S, RXSingleState>)
        ensures
            progress@ == SessionView::begin(
                self@,
                mode_script(RadioMode::RXSINGLE),
                Seq::empty(),
                true,
            ),
    {
        self.enter::<RXSingleState>()
    }

    /// Starts detecting channel activity.
    pub fn cad(self) -> (progress: Progress<'a, S, CADState>)
        ensures
            progress@ == SessionView::begin(self@, mode_script(RadioMode::CAD), Seq::empty(), true),
    {
        self.enter::<CADState>()
    }

    /// The parameters that the device was last given.
    pub fn options(&self) -> (options: RadioOptions)
        ensures
            options@ == self@.options,
    {
        self.options
    }

    /// The control lines.
    pub fn pins(&self) -> (pins: &Rfm95xPins<'a>)
        ensures
            *pins == self@.pins,
    {
        &self.pins
    }

    /// The handle with one parameter stored, or none.
    pub(crate) fn committed(self, commit: Option<Setting>) -> (device: Self)
        ensures
            device@ == self@.committed(commit),
    {
        match commit {
            Some(setting) => RadioDevice {
                pins: self.pins,
                options: self.options.with(setting),
                state: PhantomData,
            },
            None => self,
        }
    }

    /// The handle with another tag.
    pub(crate) fn tagged<T: RState>(self) -> (device: RadioDevice<'a, T>)
        ensures
            device@ == self@,
    {
        RadioDevice { pins: self.pins, options: self.options, state: PhantomData }
    }
}

impl<'a, S: ChangeFrequency> RadioDevice<'a, S> {
    /// Sets the four parameters of `options`: power, gain, bandwidth,
    /// frequency, in this order. If any of them is out of range, nothing goes
    /// to the bus. If the bus fails on the way, the parameters set before
    /// stay set.
    pub fn apply_options(self, options: &RadioOptions) -> (progress: Progress<'a, S, S>)
        ensures
            options@.valid() ==> progress@ == SessionView::begin(
                self@,
                options_script(options@),
                Seq::empty(),
                true,
            ),
            !options@.valid() ==> progress@ == ProgressView::Failed(
                Some(self@),
                RadioError::InvalidParameters,
            ),
    {
        if !options.verify() {
            return Progress::Failed(Some(self), RadioError::InvalidParameters);
        }
        let mut script: Vec<Stage> = Vec::new();
        push_options(&mut script, options);
        Session::start(self, script, Vec::new(), true)
    }

    /// Sets the frequency. A frequency outside the band is turned down
    /// before anything goes to the bus.
    pub fn set_frequency(self, frequency: Frequency) -> (progress: Progress<'a, S, S>)
        ensures
            frequency.in_band() ==> progress@ == SessionView::begin(
                self@,
                frequency_script(frequency),
                Seq::empty(),
                true,
            ),
            !frequency.in_band() ==> progress@ == ProgressView::Failed(
                Some(self@),
                RadioError::InvalidParameters,
            ),
    {
        if !RadioOptions::verify_frequency_value(&frequency) {
            return Progress::Failed(Some(self), RadioError::InvalidParameters);
        }
        let mut script: Vec<Stage> = Vec::new();
        push_frequency(&mut script, frequency);
        Session::start(self, script, Vec::new(), true)
    }
}

} // verus!
