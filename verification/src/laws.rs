//! What holds of the operations of the device, on every bus.

use crate::bus::{RequestView, ResponseView};
use crate::config_options::{BandwithOptions, OptionsView, RadioMode};
use crate::device::{DeviceView, Rfm95xPins};
use crate::error::RadioError;
use crate::frequency::{word_bytes, Frequency};
use crate::registers::{
    BUFFER_SIZE,
    REG_FIFO,
    REG_FIFO_ADDR_PTR,
    REG_FIFO_RX_CURRENT_ADDR,
    REG_FIFO_TX_BASE_ADDR,
    REG_FR_LSB,
    REG_FR_MID,
    REG_FR_MSB,
    REG_LNA,
    REG_MODEM_CONFIG_1,
    REG_OP_MODE,
    REG_PA_CONFIG,
    REG_RX_NB_BYTES,
};
use crate::script::{
    bandwith_script,
    frequency_script,
    gain_script,
    mode_script,
    modulation_script,
    options_script,
    power_script,
    receive_script,
    sound,
    transmit_script,
};
use crate::session::{settled_from, ProgressView, SessionView};
use crate::transport::merged;
use embedded_hal::i2c::ErrorKind;
use vstd::prelude::*;

verus! {

/// The response of the bus to a read of one byte that went through.
pub open spec fn byte(value: u8) -> ResponseView {
    ResponseView::Data(seq![value])
}

/// The request to read one byte.
pub open spec fn read(register: u8) -> RequestView {
    RequestView::Read { register, length: 1 }
}

/// The request to write one byte.
pub open spec fn write(register: u8, value: u8) -> RequestView {
    RequestView::Write { register, data: seq![value] }
}

impl<'a> ProgressView<'a> {
    /// Whether the operation waits for the transaction `request`.
    pub open spec fn awaits(self, request: RequestView) -> bool {
        self matches ProgressView::Request(_, pending) && pending == request
    }

    /// Where the operation stands after a read that brought `current` and the
    /// write that follows it, both gone through.
    pub open spec fn exchange(self, current: u8) -> ProgressView<'a> {
        self.take(byte(current)).take(ResponseView::Written)
    }

    /// Whether the operation waits to read `register`, and then, the register
    /// reading as `current`, to write back `current` with the bits
    /// `mask_end ..= mask_start` replaced by `value`.
    pub open spec fn updates(
        self,
        register: u8,
        current: u8,
        value: u8,
        mask_start: usize,
        mask_end: usize,
    ) -> bool {
        &&& self.awaits(read(register))
        &&& self.take(byte(current)).awaits(
            write(register, merged(current, value, mask_start, mask_end)),
        )
    }
}

/// A change of mode reads the mode-control register and writes it back with
/// its low three bits replaced by the code of the mode and its other bits as
/// they were. When both transactions go through, the operation is through,
/// and the handle holds the parameters that it held.
pub proof fn lemma_mode_change(device: DeviceView, mode: RadioMode, current: u8)
    ensures
        ({
            let start = SessionView::begin(device, mode_script(mode), Seq::empty(), true);
            &&& start.awaits(read(REG_OP_MODE))
            &&& start.take(byte(current)).awaits(
                write(REG_OP_MODE, (current & 0xf8) | mode.code()),
            )
            &&& start.take(byte(current)).take(ResponseView::Written) == ProgressView::Done(
                device,
                None,
            )
        }),
{
    let code = mode.code();
    assert(merged(current, code, 2, 0) == (current & 0xf8) | code) by (bit_vector)
        requires
            code < 8,
    ;
}

/// The choice of the modulation scheme reads the mode-control register and
/// writes it back with bit 7 set for LoRa, cleared for FSK/OOK, and its other
/// bits as they were.
pub proof fn lemma_modulation_choice(device: DeviceView, lora: bool, current: u8)
    ensures
        ({
            let start = SessionView::begin(device, modulation_script(lora), Seq::empty(), true);
            &&& start.awaits(read(REG_OP_MODE))
            &&& start.take(byte(current)).awaits(
                write(
                    REG_OP_MODE,
                    if lora {
                        current | 0x80
                    } else {
                        current & 0x7f
                    },
                ),
            )
            &&& start.take(byte(current)).take(ResponseView::Written) == ProgressView::Done(
                device,
                None,
            )
        }),
{
    assert(merged(current, 1, 7, 7) == current | 0x80) by (bit_vector);
    assert(merged(current, 0, 7, 7) == current & 0x7f) by (bit_vector);
}

/// Two changes of mode in a row: when the first is through, the second can
/// start from the handle that the first gave, and goes through as well,
/// whatever the two modes are.
pub proof fn lemma_mode_changes_follow_each_other(
    device: DeviceView,
    first: RadioMode,
    second: RadioMode,
    current: u8,
)
    ensures
        ({
            let written = (current & 0xf8) | first.code();
            let one = SessionView::begin(device, mode_script(first), Seq::empty(), true).take(
                byte(current),
            ).take(ResponseView::Written);
            &&& one matches ProgressView::Done(handle, _) && SessionView::begin(
                handle,
                mode_script(second),
                Seq::empty(),
                true,
            ).take(byte(written)).take(ResponseView::Written) == ProgressView::Done(device, None)
        }),
{
    lemma_mode_change(device, first, current);
    lemma_mode_change(device, second, (current & 0xf8) | first.code());
}

/// Setting the power, the gain or the bandwidth updates the field of the
/// parameter: bits 3..=0 of the power amplifier register, bits 7..=5 of the
/// low-noise amplifier register, bits 7..=4 of the first modem configuration
/// register. When both transactions go through, the handle holds the new
/// value, and its other parameters are as they were.
pub proof fn lemma_parameter_is_set(
    device: DeviceView,
    power: u8,
    gain: u8,
    bandwith: BandwithOptions,
    current: u8,
)
    ensures
        ({
            let start = SessionView::begin(device, power_script(power), Seq::empty(), true);
            &&& start.updates(REG_PA_CONFIG, current, power, 3, 0)
            &&& start.exchange(current) == ProgressView::Done(
                DeviceView { options: OptionsView { power, ..device.options }, ..device },
                None,
            )
        }),
        ({
            let start = SessionView::begin(device, gain_script(gain), Seq::empty(), true);
            &&& start.updates(REG_LNA, current, gain, 7, 5)
            &&& start.exchange(current) == ProgressView::Done(
                DeviceView { options: OptionsView { gain, ..device.options }, ..device },
                None,
            )
        }),
        ({
            let start = SessionView::begin(device, bandwith_script(bandwith), Seq::empty(), true);
            &&& start.updates(REG_MODEM_CONFIG_1, current, bandwith.code(), 7, 4)
            &&& start.exchange(current) == ProgressView::Done(
                DeviceView { options: OptionsView { bandwith, ..device.options }, ..device },
                None,
            )
        }),
{
}

/// Setting the frequency writes the three bytes of the synthesizer word to
/// the three frequency registers, most significant first, each after a read
/// of its register; what the registers held does not show in what is
/// written. The handle holds the new frequency once the last byte is written,
/// and not before: a failure on the way leaves the handle with the frequency
/// that it held.
pub proof fn lemma_frequency_is_set(
    device: DeviceView,
    frequency: Frequency,
    msb: u8,
    mid: u8,
    lsb: u8,
    kind: ErrorKind,
)
    ensures
        ({
            let word = word_bytes(frequency.word());
            let start = SessionView::begin(device, frequency_script(frequency), Seq::empty(), true);
            let with_msb = start.exchange(msb);
            let with_mid = with_msb.exchange(mid);
            &&& start.awaits(read(REG_FR_MSB))
            &&& start.take(byte(msb)).awaits(write(REG_FR_MSB, word.0))
            &&& with_msb.awaits(read(REG_FR_MID))
            &&& with_msb.take(byte(mid)).awaits(write(REG_FR_MID, word.1))
            &&& with_mid.awaits(read(REG_FR_LSB))
            &&& with_mid.take(byte(lsb)).awaits(write(REG_FR_LSB, word.2))
            &&& with_mid.exchange(lsb) == ProgressView::Done(
                DeviceView { options: OptionsView { frequency, ..device.options }, ..device },
                None,
            )
            &&& with_mid.take(byte(lsb)).take(ResponseView::Failed(kind)) == ProgressView::Failed(
                Some(device),
                RadioError::I2cError(kind),
            )
        }),
{
    let script = frequency_script(frequency);
    assert(script.len() == 3);
    let word = word_bytes(frequency.word());
    lemma_full_byte_is_replaced(msb, word.0);
    lemma_full_byte_is_replaced(mid, word.1);
    lemma_full_byte_is_replaced(lsb, word.2);
}

/// A new handle comes of setting the four parameters and then choosing LoRa
/// modulation. When all fourteen transactions go through, the handle holds
/// the control lines and the parameters that it was made with. When the bus
/// fails, be it on the last transaction, no handle comes of it.
pub proof fn lemma_construction(
    pins: Rfm95xPins,
    options: OptionsView,
    power: u8,
    gain: u8,
    modem: u8,
    msb: u8,
    mid: u8,
    lsb: u8,
    mode: u8,
    kind: ErrorKind,
)
    ensures
        ({
            let device = DeviceView { pins, options };
            let start = SessionView::begin(
                device,
                options_script(options) + modulation_script(true),
                Seq::empty(),
                false,
            );
            let configured = start.exchange(power).exchange(gain).exchange(modem).exchange(
                msb,
            ).exchange(mid).exchange(lsb);
            &&& start.updates(REG_PA_CONFIG, power, options.power, 3, 0)
            &&& configured.awaits(read(REG_OP_MODE))
            &&& configured.take(byte(mode)).awaits(write(REG_OP_MODE, mode | 0x80))
            &&& configured.exchange(mode) == ProgressView::Done(device, None)
            &&& start.take(ResponseView::Failed(kind)) == ProgressView::Failed(
                None,
                RadioError::I2cError(kind),
            )
            &&& configured.take(byte(mode)).take(ResponseView::Failed(kind))
                == ProgressView::Failed(None, RadioError::I2cError(kind))
        }),
{
    let script = options_script(options) + modulation_script(true);
    assert(script.len() == 7);
    assert(merged(mode, 1, 7, 7) == mode | 0x80) by (bit_vector);
}

/// Setting the four parameters updates, in this order, the power field, the
/// gain field, the bandwidth field and the three bytes of the synthesizer
/// word, most significant first, each by a read of its register and a write
/// of the merged byte. When all twelve transactions go through, the operation
/// is through and the handle holds the four parameters.
pub proof fn lemma_parameters_are_set(
    device: DeviceView,
    options: OptionsView,
    power: u8,
    gain: u8,
    modem: u8,
    msb: u8,
    mid: u8,
    lsb: u8,
)
    ensures
        ({
            let word = word_bytes(options.frequency.word());
            let start = SessionView::begin(device, options_script(options), Seq::empty(), true);
            let with_power = start.exchange(power);
            let with_gain = with_power.exchange(gain);
            let with_bandwith = with_gain.exchange(modem);
            let with_msb = with_bandwith.exchange(msb);
            let with_mid = with_msb.exchange(mid);
            &&& start.updates(REG_PA_CONFIG, power, options.power, 3, 0)
            &&& with_power.updates(REG_LNA, gain, options.gain, 7, 5)
            &&& with_gain.updates(REG_MODEM_CONFIG_1, modem, options.bandwith.code(), 7, 4)
            &&& with_bandwith.updates(REG_FR_MSB, msb, word.0, 7, 0)
            &&& with_msb.updates(REG_FR_MID, mid, word.1, 7, 0)
            &&& with_mid.updates(REG_FR_LSB, lsb, word.2, 7, 0)
            &&& with_mid.exchange(lsb) == ProgressView::Done(
                DeviceView { options, ..device },
                None,
            )
        }),
{
    let script = options_script(options);
    assert(script.len() == 6);
}

/// Setting the parameters is not all or nothing: when the bus fails, the
/// parameters that were set before stay set, in the device and in the handle.
/// Here the power is set and the bus fails on the read for the gain.
pub proof fn lemma_failure_keeps_what_was_set(
    device: DeviceView,
    options: OptionsView,
    power: u8,
    kind: ErrorKind,
)
    ensures
        SessionView::begin(device, options_script(options), Seq::empty(), true).exchange(
            power,
        ).take(ResponseView::Failed(kind)) == ProgressView::Failed(
            Some(DeviceView { options: OptionsView { power: options.power, ..device.options }, ..device }),
            RadioError::I2cError(kind),
        ),
{
    let script = options_script(options);
    assert(script.len() == 6);
}

/// A full byte is replaced as a whole: what it read as does not matter.
pub proof fn lemma_full_byte_is_replaced(current: u8, value: u8)
    ensures
        merged(current, value, 7, 0) == value,
{
    assert(merged(current, value, 7, 0) == value) by (bit_vector);
}

/// Reading the FIFO points it at the start of the last packet, reads the
/// number of payload bytes and then a block of 256 bytes. When the four
/// transactions go through, the block and the number come with the handle.
pub proof fn lemma_reception(device: DeviceView, address: u8, count: u8, block: Seq<u8>)
    ensures
        ({
            let start = SessionView::begin(device, receive_script(), Seq::empty(), true);
            let pointed = start.exchange(address);
            let counted = pointed.take(byte(count));
            &&& start.awaits(read(REG_FIFO_RX_CURRENT_ADDR))
            &&& start.take(byte(address)).awaits(write(REG_FIFO_ADDR_PTR, address))
            &&& pointed.awaits(read(REG_RX_NB_BYTES))
            &&& counted.awaits(RequestView::Read { register: REG_FIFO, length: BUFFER_SIZE })
            &&& counted.take(ResponseView::Data(block)) == ProgressView::Done(
                device,
                Some((block, count)),
            )
        }),
{
    let script = receive_script();
    assert(script.len() == 3);
}

/// Loading the FIFO points it at the start of the transmit area and writes
/// the data as they are. When the three transactions go through, the
/// operation is through.
pub proof fn lemma_transmission(device: DeviceView, data: Seq<u8>, base: u8)
    ensures
        ({
            let start = SessionView::begin(device, transmit_script(), data, true);
            let pointed = start.exchange(base);
            &&& start.awaits(read(REG_FIFO_TX_BASE_ADDR))
            &&& start.take(byte(base)).awaits(write(REG_FIFO_ADDR_PTR, base))
            &&& pointed.awaits(RequestView::Write { register: REG_FIFO, data })
            &&& pointed.take(ResponseView::Written) == ProgressView::Done(device, None)
        }),
{
    let script = transmit_script();
    assert(script.len() == 2);
}

/// An operation that has ended stays as it ended.
pub proof fn lemma_ended_operation_stays(progress: ProgressView, responses: Seq<ResponseView>)
    requires
        !(progress is Request),
    ensures
        progress.after(responses) == progress,
    decreases responses.len(),
{
    if responses.len() > 0 {
        lemma_ended_operation_stays(progress, responses.drop_first());
    }
}

/// Every operation of the device has a sound script.
pub proof fn lemma_scripts_are_sound(
    options: OptionsView,
    mode: RadioMode,
    lora: bool,
)
    ensures
        sound(power_script(options.power)),
        sound(gain_script(options.gain)),
        sound(bandwith_script(options.bandwith)),
        sound(frequency_script(options.frequency)),
        sound(options_script(options)),
        sound(options_script(options) + modulation_script(true)),
        sound(mode_script(mode)),
        sound(modulation_script(lora)),
        sound(receive_script()),
        sound(transmit_script()),
{
}

/// A session on a sound script stays one: as long as the operation goes on,
/// it waits for the transaction of a stage of its script.
pub proof fn lemma_session_stays_sound(session: SessionView, response: ResponseView)
    requires
        session.wf(),
    ensures
        session.advance(response) matches ProgressView::Request(following, request) ==> {
            &&& following.wf()
            &&& following.script == session.script
            &&& request == following.pending()
        },
{
}

/// On a bus that does as it is asked, an operation that has started comes
/// to its end: it waits for transactions as long as fewer have gone through
/// than its script takes, and is through with the last of them. The handle
/// then holds every parameter that the script stores.
pub proof fn lemma_obliging_bus_sees_the_operation_through(
    session: SessionView,
    responses: Seq<ResponseView>,
)
    requires
        session.wf(),
        ProgressView::Request(session, session.pending()).obliged(responses),
    ensures
        ({
            let end = ProgressView::Request(session, session.pending()).after(responses);
            &&& responses.len() < session.remaining() ==> end is Request
            &&& responses.len() >= session.remaining() ==> (end matches ProgressView::Done(device, _)
                && device == session.settled())
        }),
    decreases responses.len(),
{
    if responses.len() > 0 {
        let rest = responses.drop_first();
        let next = session.advance(responses.first());
        match next {
            ProgressView::Request(following, request) => {
                assert(following.wf());
                assert(request == following.pending());
                assert(following.remaining() + 1 == session.remaining());
                assert(following.settled() == session.settled());
                lemma_obliging_bus_sees_the_operation_through(following, rest);
            },
            ProgressView::Done(device, _) => {
                assert(session.remaining() == 1);
                assert(device == settled_from(device, session.script, session.cursor + 1));
                lemma_ended_operation_stays(next, rest);
            },
            ProgressView::Failed(_, _) => {
                assert(false);
            },
        }
    }
}

/// Once an operation has started, only the bus can make it fail: if it ends
/// in failure, whatever the bus answered, then one of the responses reported
/// a failure and the error is that failure. The handle comes back with the
/// error exactly when the session was started to give it back.
pub proof fn lemma_only_the_bus_fails_an_operation(
    session: SessionView,
    responses: Seq<ResponseView>,
)
    ensures
        ProgressView::Request(session, session.pending()).after(responses) matches ProgressView::Failed(
            handle,
            error,
        ) ==> {
            &&& exists|i: int|
                0 <= i < responses.len() && #[trigger] responses[i].fault() == Some(error)
            &&& handle is Some <==> session.release
        },
    decreases responses.len(),
{
    let start = ProgressView::Request(session, session.pending());
    if responses.len() > 0 {
        let rest = responses.drop_first();
        let next = session.advance(responses.first());
        assert(start.after(responses) == next.after(rest));
        match next {
            ProgressView::Request(following, request) => {
                lemma_only_the_bus_fails_an_operation(following, rest);
                if let ProgressView::Failed(handle, error) = next.after(rest) {
                    let i = choose|i: int|
                        0 <= i < rest.len() && #[trigger] rest[i].fault() == Some(error);
                    assert(responses[i + 1].fault() == Some(error));
                }
            },
            _ => {
                lemma_ended_operation_stays(next, rest);
                if next is Failed {
                    assert(responses[0].fault() == Some(next->Failed_1));
                }
            },
        }
    }
}

} // verus!
