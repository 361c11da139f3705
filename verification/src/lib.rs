//! Driver core for the RFM95x LoRa transceiver.
//!
//! The core decides what travels over the register bus and never touches the
//! bus itself: every operation of the device handle yields the bus
//! transactions one at a time, and the host that owns the bus carries each
//! one out and reports how it went.

pub mod bus;
pub mod config_options;
pub mod device;
pub mod error;
pub mod frequency;
pub mod laws;
pub mod registers;
pub mod script;
pub mod session;
pub mod state;
pub mod transport;

pub use bus::{BusRequest, BusResponse};
pub use config_options::{BandwithOptions, OptionsBuilder, RadioMode, RadioOptions};
pub use device::{PowerPin, RadioDevice, Rfm95xPins};
pub use error::RadioError;
pub use frequency::Frequency;
pub use session::{Progress, Session};
pub use state::{
    CADState,
    ChangeFrequency,
    FSRXState,
    FSTXState,
    RState,
    RXContinuousState,
    RXSingleState,
    ReadBuffer,
    Recieve,
    SleepState,
    StandByState,
    TXState,
    Transmit,
    WriteBuffer,
};
pub use transport::i2c_write_bits;
