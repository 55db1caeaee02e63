//! The two message vocabularies of the mirroring protocol.

use vstd::prelude::*;

verus! {

/// A message sent by the device to the host.
#[derive(Debug, PartialEq, Eq)]
pub enum FromClientMessage {
    /// Liveness probe; the host answers the first one with `Pong`.
    Ping,
    /// One still capture of the device screen, as encoded image bytes.
    Screen(Vec<u8>),
    /// The device display size, width then height.
    ScreenSize((u32, u32)),
}

/// The mathematical value of a `FromClientMessage`.
pub enum ClientMessageModel {
    Ping,
    Screen(Seq<u8>),
    ScreenSize(u32, u32),
}

impl View for FromClientMessage {
    type V = ClientMessageModel;

    open spec fn view(&self) -> ClientMessageModel {
        match self {
            FromClientMessage::Ping => ClientMessageModel::Ping,
            FromClientMessage::Screen(data) => ClientMessageModel::Screen(data@),
            FromClientMessage::ScreenSize((w, h)) => ClientMessageModel::ScreenSize(*w, *h),
        }
    }
}

impl ClientMessageModel {
    /// A screen payload fits the 64-bit length field of the wire format.
    pub open spec fn wf(self) -> bool {
        match self {
            ClientMessageModel::Screen(data) => data.len() <= u64::MAX,
            _ => true,
        }
    }
}

/// A message sent by the host to the device.
#[derive(Clone, Copy, Debug, PartialEq, Eq, Structural)]
pub enum FromServerMessage {
    /// Handshake acknowledgement, the answer to the first `Ping`.
    Pong,
    /// A tap at these device coordinates, x then y.
    Click(u16, u16),
    /// Asks the device for a fresh screen capture.
    RequestScreen,
}

} // verus!
