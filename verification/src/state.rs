//! The operating mode of a device handle, carried in its type.
//!
//! A handle is tagged with one of eight state types. An operation that the
//! hardware accepts only in some modes is offered only on handles whose state
//! has the trait that stands for it, so a call in another mode does not
//! compile.

use crate::config_options::RadioMode;
use vstd::prelude::*;

verus! {

/// A state that a handle can be tagged with.
pub trait RState: Sized {
    /// The operating mode that the state stands for.
    spec fn spec_mode() -> RadioMode;

    /// The operating mode that the state stands for.
    fn mode() -> (mode: RadioMode)
        ensures
            mode == Self::spec_mode(),
    ;
}

/// A state in which the synthesizer is stopped, so that the frequency can be
/// changed: sleep and stand-by.
pub trait ChangeFrequency: RState {
    proof fn synthesizer_is_stopped()
        ensures
            Self::spec_mode() == RadioMode::SLEEP || Self::spec_mode() == RadioMode::STDBY,
    ;
}

/// A state in which the receive FIFO can be read: FSRX and the two receive
/// modes.
pub trait ReadBuffer: RState {
    proof fn receiver_is_on()
        ensures
            Self::spec_mode() == RadioMode::FSRX || Self::spec_mode() == RadioMode::RXCONTINUOUS
                || Self::spec_mode() == RadioMode::RXSINGLE,
    ;
}

/// A state in which the transmit FIFO can be loaded: FSTX and TX.
pub trait WriteBuffer: RState {
    proof fn transmitter_is_on()
        ensures
            Self::spec_mode() == RadioMode::FSTX || Self::spec_mode() == RadioMode::TX,
    ;
}

/// A state in which the device receives.
pub trait Recieve: RState + ReadBuffer {

}

/// A state in which the device transmits.
pub trait Transmit: RState + WriteBuffer {

}

pub struct SleepState;

pub struct StandByState;

pub struct FSTXState;

pub struct TXState;

pub struct FSRXState;

pub struct RXContinuousState;

pub struct RXSingleState;

pub struct CADState;

impl RState for SleepState {
    open spec fn spec_mode() -> RadioMode {
        RadioMode::SLEEP
    }

    fn mode() -> (mode: RadioMode) {
        RadioMode::SLEEP
    }
}

impl ChangeFrequency for SleepState {
    proof fn synthesizer_is_stopped() {
    }
}

impl RState for StandByState {
    open spec fn spec_mode() -> RadioMode {
        RadioMode::STDBY
    }

    fn mode() -> (mode: RadioMode) {
        RadioMode::STDBY
    }
}

impl ChangeFrequency for StandByState {
    proof fn synthesizer_is_stopped() {
    }
}

impl RState for FSTXState {
    open spec fn spec_mode() -> RadioMode {
        RadioMode::FSTX
    }

    fn mode() -> (mode: RadioMode) {
        RadioMode::FSTX
    }
}

impl WriteBuffer for FSTXState {
    proof fn transmitter_is_on() {
    }
}

impl Transmit for FSTXState {

}

impl RState for TXState {
    open spec fn spec_mode() -> RadioMode {
        RadioMode::TX
    }

    fn mode() -> (mode: RadioMode) {
        RadioMode::TX
    }
}

impl WriteBuffer for TXState {
    proof fn transmitter_is_on() {
    }
}

impl Transmit for TXState {

}

impl RState for FSRXState {
    open spec fn spec_mode() -> RadioMode {
        RadioMode::FSRX
    }

    fn mode() -> (mode: RadioMode) {
        RadioMode::FSRX
    }
}

impl ReadBuffer for FSRXState {
    proof fn receiver_is_on() {
    }
}

impl Recieve for FSRXState {

}

impl RState for RXContinuousState {
    open spec fn spec_mode() -> RadioMode {
        RadioMode::RXCONTINUOUS
    }

    fn mode() -> (mode: RadioMode) {
        RadioMode::RXCONTINUOUS
    }
}

impl ReadBuffer for RXContinuousState {
    proof fn receiver_is_on() {
    }
}

impl Recieve for RXContinuousState {

}

impl RState for RXSingleState {
    open spec fn spec_mode() -> RadioMode {
        RadioMode::RXSINGLE
    }

    fn mode() -> (mode: RadioMode) {
        RadioMode::RXSINGLE
    }
}

impl ReadBuffer for RXSingleState {
    proof fn receiver_is_on() {
    }
}

impl Recieve for RXSingleState {

}

impl RState for CADState {
    open spec fn spec_mode() -> RadioMode {
        RadioMode::CAD
    }

    fn mode() -> (mode: RadioMode) {
        RadioMode::CAD
    }
}

/// Whatever state a handle that can change its frequency is tagged with, the
/// device is asleep or in stand-by.
pub proof fn lemma_frequency_changes_while_stopped<S: ChangeFrequency>()
    ensures
        S::spec_mode() == RadioMode::SLEEP || S::spec_mode() == RadioMode::STDBY,
{
    S::synthesizer_is_stopped();
}

/// Whatever state a handle that can read the FIFO is tagged with, the device
/// is in FSRX or in one of the two receive modes: not asleep, not in
/// stand-by, not in FSTX or TX, not detecting channel activity.
pub proof fn lemma_buffer_is_read_while_receiving<S: ReadBuffer>()
    ensures
        S::spec_mode() == RadioMode::FSRX || S::spec_mode() == RadioMode::RXCONTINUOUS
            || S::spec_mode() == RadioMode::RXSINGLE,
{
    S::receiver_is_on();
}

/// Whatever state a handle that can load the FIFO is tagged with, the device
/// is in FSTX or in TX.
pub proof fn lemma_buffer_is_written_while_transmitting<S: WriteBuffer>()
    ensures
        S::spec_mode() == RadioMode::FSTX || S::spec_mode() == RadioMode::TX,
{
    S::transmitter_is_on();
}

} // verus!
