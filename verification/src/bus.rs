//! The transactions of the register bus.
//!
//! The driver does not own the bus. It names the transaction that comes
//! next, the host carries it out on whatever bus it has, and hands back what
//! came of it.

use crate::error::RadioError;
use embedded_hal::i2c::ErrorKind;
use vstd::prelude::*;

verus! {

/// One transaction for the host to carry out.
#[derive(Clone, Debug, PartialEq, Eq)]
pub enum BusRequest {
    /// Read `length` bytes, starting at `register`.
    Read { register: u8, length: usize },
    /// Write the bytes of `data`, starting at `register`.
    Write { register: u8, data: Vec<u8> },
}

/// What a request asks for.
pub enum RequestView {
    Read { register: u8, length: usize },
    Write { register: u8, data: Seq<u8> },
}

impl View for BusRequest {
    type V = RequestView;

    open spec fn view(&self) -> RequestView {
        match *self {
            BusRequest::Read { register, length } => RequestView::Read { register, length },
            BusRequest::Write { register, data } => RequestView::Write { register, data: data@ },
        }
    }
}

/// What came of a transaction.
#[derive(Debug, PartialEq, Eq)]
pub enum BusResponse {
    /// The bytes that a read brought.
    Data(Vec<u8>),
    /// A write went through.
    Written,
    /// The transaction failed.
    Failed(ErrorKind),
}

/// What a response says.
pub enum ResponseView {
    Data(Seq<u8>),
    Written,
    Failed(ErrorKind),
}

impl View for BusResponse {
    type V = ResponseView;

    open spec fn view(&self) -> ResponseView {
        match *self {
            BusResponse::Data(data) => ResponseView::Data(data@),
            BusResponse::Written => ResponseView::Written,
            BusResponse::Failed(kind) => ResponseView::Failed(kind),
        }
    }
}

impl BusResponse {
    /// Whether the response is one that the bus can give to `request`.
    pub fn answers(&self, request: &BusRequest) -> (ok: bool)
        ensures
            ok == self@.answers(request@),
    {
        match self {
            BusResponse::Failed(_) => true,
            BusResponse::Data(data) => match request {
                BusRequest::Read { length, .. } => data.len() == *length,
                BusRequest::Write { .. } => false,
            },
            BusResponse::Written => match request {
                BusRequest::Read { .. } => false,
                BusRequest::Write { .. } => true,
            },
        }
    }
}

impl ResponseView {
    /// The error that the response stands for, if it reports a failure.
    pub open spec fn fault(self) -> Option<RadioError> {
        match self {
            ResponseView::Failed(kind) => Some(RadioError::I2cError(kind)),
            _ => None,
        }
    }

    /// Whether the response is one that the bus can give to `request`: a
    /// failure, or as many bytes as a read asked for, or the word that a write
    /// went through.
    pub open spec fn answers(self, request: RequestView) -> bool {
        match self {
            ResponseView::Failed(_) => true,
            ResponseView::Data(data) => request matches RequestView::Read { length, .. }
                && data.len() == length,
            ResponseView::Written => request is Write,
        }
    }
}

} // verus!
