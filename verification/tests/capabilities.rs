use phistar_radio::{
    CADState, ChangeFrequency, FSRXState, FSTXState, RState, RXContinuousState, RXSingleState,
    RadioMode, ReadBuffer, Recieve, SleepState, StandByState, TXState, Transmit, WriteBuffer,
};

fn changes_frequency<S: ChangeFrequency>() -> RadioMode {
    S::mode()
}

fn reads_buffer<S: ReadBuffer + Recieve>() -> RadioMode {
    S::mode()
}

fn writes_buffer<S: WriteBuffer + Transmit>() -> RadioMode {
    S::mode()
}

fn any_state<S: RState>() -> RadioMode {
    S::mode()
}

#[test]
fn frequency_changes_in_sleep_and_standby() {
    assert_eq!(changes_frequency::<SleepState>(), RadioMode::SLEEP);
    assert_eq!(changes_frequency::<StandByState>(), RadioMode::STDBY);
}

#[test]
fn buffer_is_read_in_the_receiving_modes() {
    assert_eq!(reads_buffer::<FSRXState>(), RadioMode::FSRX);
    assert_eq!(reads_buffer::<RXContinuousState>(), RadioMode::RXCONTINUOUS);
    assert_eq!(reads_buffer::<RXSingleState>(), RadioMode::RXSINGLE);
}

#[test]
fn buffer_is_written_in_the_transmitting_modes() {
    assert_eq!(writes_buffer::<FSTXState>(), RadioMode::FSTX);
    assert_eq!(writes_buffer::<TXState>(), RadioMode::TX);
}

#[test]
fn channel_activity_detection_is_a_state_without_capabilities() {
    assert_eq!(any_state::<CADState>(), RadioMode::CAD);
}
