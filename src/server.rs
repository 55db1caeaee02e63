//! The host side of a mirroring session.
//!
//! `HostSession` decides; the caller does the outside work. It follows one
//! peer at a time: a fresh accept replaces the peer that clicks and screen
//! requests go to. Each event returns the actions to perform, in order.

use vstd::prelude::*;
use crate::api::{ClientMessageModel, FromClientMessage, FromServerMessage};
use crate::codec::{decode_client, decode_client_spec};
use crate::transform::{transform, transform_spec, TransformConfig};

verus! {

/// Where the current peer stands.
#[derive(Clone, Copy, Debug, PartialEq, Eq, Structural)]
pub enum HostPhase {
    /// Accepted; no `Ping` yet.
    HandshakeWait,
    /// `Pong` sent; screens are requested at a fixed interval.
    Streaming,
}

/// What the caller does in answer to an event. Peers are named by the
/// number that the caller gave them on accept.
#[derive(Debug, PartialEq, Eq)]
pub enum HostAction {
    /// Tell the display that a peer is there.
    PeerAvailable(u64),
    /// Tell the display whether a session is active.
    ConnectionActive(bool),
    /// Send this message to this peer.
    Send(u64, FromServerMessage),
    /// Start the timer that requests screens from this peer.
    StartTimer(u64),
    /// Stop the timer of this peer.
    StopTimer(u64),
    /// Drop the connection to this peer.
    Close(u64),
    /// The device display has this size, width then height.
    ResizeDisplay(u32, u32),
    /// Show these image bytes.
    ShowImage(Vec<u8>),
}

/// The value of a `HostAction`.
pub enum HostActionModel {
    PeerAvailable(u64),
    ConnectionActive(bool),
    Send(u64, FromServerMessage),
    StartTimer(u64),
    StopTimer(u64),
    Close(u64),
    ResizeDisplay(u32, u32),
    ShowImage(Seq<u8>),
}

impl View for HostAction {
    type V = HostActionModel;

    open spec fn view(&self) -> HostActionModel {
        match self {
            HostAction::PeerAvailable(p) => HostActionModel::PeerAvailable(*p),
            HostAction::ConnectionActive(b) => HostActionModel::ConnectionActive(*b),
            HostAction::Send(p, m) => HostActionModel::Send(*p, *m),
            HostAction::StartTimer(p) => HostActionModel::StartTimer(*p),
            HostAction::StopTimer(p) => HostActionModel::StopTimer(*p),
            HostAction::Close(p) => HostActionModel::Close(*p),
            HostAction::ResizeDisplay(w, h) => HostActionModel::ResizeDisplay(*w, *h),
            HostAction::ShowImage(d) => HostActionModel::ShowImage(d@),
        }
    }
}

/// The values of a list of actions.
pub open spec fn actions_view(v: Seq<HostAction>) -> Seq<HostActionModel> {
    v.map_values(|a: HostAction| a@)
}

/// Why a click cannot be sent.
#[derive(Clone, Copy, Debug, PartialEq, Eq, Structural)]
pub enum ClickError {
    /// No peer has completed the handshake.
    NoSession,
    /// The device has not reported its display size.
    DisplaySizeUnknown,
    /// The view has no width or no height.
    EmptyView,
}

/// The value of a `HostSession`.
pub struct HostModel {
    pub peer: Option<(u64, HostPhase)>,
    pub device_size: Option<(u32, u32)>,
    pub config: TransformConfig,
}

/// The state of the host side of the protocol.
pub struct HostSession {
    peer: Option<(u64, HostPhase)>,
    device_size: Option<(u32, u32)>,
    config: TransformConfig,
}

impl View for HostSession {
    type V = HostModel;

    closed spec fn view(&self) -> HostModel {
        HostModel { peer: self.peer, device_size: self.device_size, config: self.config }
    }
}

/// The actions that end the session with peer `id`.
pub open spec fn close_actions(id: u64) -> Seq<HostActionModel> {
    seq![
        HostActionModel::StopTimer(id),
        HostActionModel::Close(id),
        HostActionModel::ConnectionActive(false),
    ]
}

/// A peer has been accepted.
pub open spec fn host_accepted(m: HostModel, id: u64) -> (Seq<HostActionModel>, HostModel) {
    (
        seq![HostActionModel::PeerAvailable(id)],
        HostModel { peer: Some((id, HostPhase::HandshakeWait)), ..m },
    )
}

/// A frame from peer `id`. Frames of any peer but the current one are
/// ignored; a frame that does not decode, or anything but `Ping` before the
/// handshake, ends the session.
pub open spec fn host_message(m: HostModel, id: u64, data: Seq<u8>) -> (
    Seq<HostActionModel>,
    HostModel,
) {
    match m.peer {
        Some((p, phase)) if p == id => match decode_client_spec(data) {
            Err(_) => (close_actions(id), HostModel { peer: None, ..m }),
            Ok(msg) => match phase {
                HostPhase::HandshakeWait => match msg {
                    ClientMessageModel::Ping => (
                        seq![
                            HostActionModel::ConnectionActive(true),
                            HostActionModel::Send(id, FromServerMessage::Pong),
                            HostActionModel::StartTimer(id),
                        ],
                        HostModel { peer: Some((id, HostPhase::Streaming)), ..m },
                    ),
                    _ => (close_actions(id), HostModel { peer: None, ..m }),
                },
                HostPhase::Streaming => match msg {
                    ClientMessageModel::Ping => (Seq::empty(), m),
                    ClientMessageModel::ScreenSize(w, h) => (
                        seq![HostActionModel::ResizeDisplay(w, h)],
                        HostModel { device_size: Some((w, h)), ..m },
                    ),
                    ClientMessageModel::Screen(d) => (seq![HostActionModel::ShowImage(d)], m),
                },
            },
        },
        _ => (Seq::empty(), m),
    }
}

/// Peer `id` has disconnected.
pub open spec fn host_disconnected(m: HostModel, id: u64) -> (Seq<HostActionModel>, HostModel) {
    match m.peer {
        Some((p, _)) if p == id => (
            seq![HostActionModel::StopTimer(id), HostActionModel::ConnectionActive(false)],
            HostModel { peer: None, ..m },
        ),
        _ => (Seq::empty(), m),
    }
}

/// The screen timer of peer `id` has fired.
pub open spec fn host_tick(m: HostModel, id: u64) -> Seq<HostActionModel> {
    if m.peer == Some((id, HostPhase::Streaming)) {
        seq![HostActionModel::Send(id, FromServerMessage::RequestScreen)]
    } else {
        seq![HostActionModel::StopTimer(id)]
    }
}

/// A click at `raw` in a view of size `area`: the peer and the message to
/// send it, or why there is none.
pub open spec fn host_click(m: HostModel, raw: (i32, i32), area: (u32, u32)) -> Result<
    (u64, FromServerMessage),
    ClickError,
> {
    match m.peer {
        Some((id, HostPhase::Streaming)) => match m.device_size {
            None => Err(ClickError::DisplaySizeUnknown),
            Some(size) => if area.0 == 0 || area.1 == 0 {
                Err(ClickError::EmptyView)
            } else {
                let (x, y) = transform_spec(raw, area, m.config, size);
                Ok((id, FromServerMessage::Click(x, y)))
            },
        },
        _ => Err(ClickError::NoSession),
    }
}

/// Before the handshake, whatever arrives from the peer, the only message
/// the host sends it is `Pong`.
pub proof fn lemma_pong_first(m: HostModel, id: u64, data: Seq<u8>, area: (u32, u32), raw: (
    i32,
    i32,
))
    requires
        m.peer == Some((id, HostPhase::HandshakeWait)),
    ensures
        forall|i: int|
            0 <= i < host_message(m, id, data).0.len() ==> match #[trigger] host_message(
                m,
                id,
                data,
            ).0[i] {
                HostActionModel::Send(_, msg) => msg == FromServerMessage::Pong,
                _ => true,
            },
        !(host_tick(m, id)[0] is Send),
        host_click(m, raw, area) == Err::<(u64, FromServerMessage), ClickError>(
            ClickError::NoSession,
        ),
{
}

impl HostSession {
    /// A session with no peer and no known device size.
    pub fn new(config: TransformConfig) -> (r: Self)
        ensures
            r@ == (HostModel { peer: None, device_size: None, config }),
    {
        HostSession { peer: None, device_size: None, config }
    }

    /// The current peer and its phase.
    pub fn peer(&self) -> (r: Option<(u64, HostPhase)>)
        ensures
            r == self@.peer,
    {
        self.peer
    }

    /// The last display size that the device reported.
    pub fn device_size(&self) -> (r: Option<(u32, u32)>)
        ensures
            r == self@.device_size,
    {
        self.device_size
    }

    fn close(&mut self, id: u64) -> (r: Vec<HostAction>)
        ensures
            actions_view(r@) == close_actions(id),
            final(self)@ == (HostModel { peer: None, ..old(self)@ }),
    {
        self.peer = None;
        let r = vec![HostAction::StopTimer(id), HostAction::Close(id), HostAction::ConnectionActive(false)];
        proof {
            assert(actions_view(r@) =~= close_actions(id));
        }
        r
    }

    /// A peer has been accepted; it becomes the current peer.
    pub fn on_accepted(&mut self, id: u64) -> (r: Vec<HostAction>)
        ensures
            (actions_view(r@), final(self)@) == host_accepted(old(self)@, id),
    {
        self.peer = Some((id, HostPhase::HandshakeWait));
        let r = vec![HostAction::PeerAvailable(id)];
        proof {
            assert(actions_view(r@) =~= host_accepted(old(self)@, id).0);
        }
        r
    }

    /// A frame has arrived from peer `id`.
    pub fn on_message(&mut self, id: u64, data: &[u8]) -> (r: Vec<HostAction>)
        ensures
            (actions_view(r@), final(self)@) == host_message(old(self)@, id, data@),
    {
        let ghost m = self@;
        let phase = match self.peer {
            Some((p, phase)) => {
                if p != id {
                    let r = Vec::new();
                    proof {
                        assert(actions_view(r@) =~= host_message(m, id, data@).0);
                    }
                    return r;
                }
                phase
            },
            None => {
                let r = Vec::new();
                proof {
                    assert(actions_view(r@) =~= host_message(m, id, data@).0);
                }
                return r;
            },
        };
        let decoded = decode_client(data);
        let mut r: Vec<HostAction> = Vec::new();
        match decoded {
            Err(_) => {
                r = self.close(id);
            },
            Ok(msg) => {
                match phase {
                    HostPhase::HandshakeWait => {
                        if matches!(msg, FromClientMessage::Ping) {
                            self.peer = Some((id, HostPhase::Streaming));
                            r.push(HostAction::ConnectionActive(true));
                            r.push(HostAction::Send(id, FromServerMessage::Pong));
                            r.push(HostAction::StartTimer(id));
                        } else {
                            r = self.close(id);
                        }
                    },
                    HostPhase::Streaming => {
                        match msg {
                            FromClientMessage::Ping => {},
                            FromClientMessage::ScreenSize((w, h)) => {
                                self.device_size = Some((w, h));
                                r.push(HostAction::ResizeDisplay(w, h));
                            },
                            FromClientMessage::Screen(d) => {
                                r.push(HostAction::ShowImage(d));
                            },
                        }
                    },
                }
            },
        }
        proof {
            assert(actions_view(r@) =~= host_message(m, id, data@).0);
        }
        r
    }

    /// Peer `id` has disconnected.
    pub fn on_disconnected(&mut self, id: u64) -> (r: Vec<HostAction>)
        ensures
            (actions_view(r@), final(self)@) == host_disconnected(old(self)@, id),
    {
        let current = match self.peer {
            Some((p, _)) => p == id,
            None => false,
        };
        if current {
            self.peer = None;
            let r = vec![HostAction::StopTimer(id), HostAction::ConnectionActive(false)];
            proof {
                assert(actions_view(r@) =~= host_disconnected(old(self)@, id).0);
            }
            r
        } else {
            let r = Vec::new();
            proof {
                assert(actions_view(r@) =~= host_disconnected(old(self)@, id).0);
            }
            r
        }
    }

    /// The screen timer of peer `id` has fired: request a screen from the
    /// current streaming peer, or stop a timer that has outlived its peer.
    pub fn on_tick(&self, id: u64) -> (r: Vec<HostAction>)
        ensures
            actions_view(r@) == host_tick(self@, id),
    {
        let streaming = match self.peer {
            Some((p, HostPhase::Streaming)) => p == id,
            _ => false,
        };
        let r = if streaming {
            vec![HostAction::Send(id, FromServerMessage::RequestScreen)]
        } else {
            vec![HostAction::StopTimer(id)]
        };
        proof {
            assert(actions_view(r@) =~= host_tick(self@, id));
        }
        r
    }

    /// A click at `raw` in a view of size `area`: the peer to send to and
    /// the `Click` to send it.
    pub fn click(&self, raw: (i32, i32), area: (u32, u32)) -> (r: Result<
        (u64, FromServerMessage),
        ClickError,
    >)
        ensures
            r == host_click(self@, raw, area),
    {
        let id = match self.peer {
            Some((id, HostPhase::Streaming)) => id,
            _ => return Err(ClickError::NoSession),
        };
        let size = match self.device_size {
            Some(size) => size,
            None => return Err(ClickError::DisplaySizeUnknown),
        };
        match transform(raw, area, &self.config, size) {
            Some((x, y)) => Ok((id, FromServerMessage::Click(x, y))),
            None => Err(ClickError::EmptyView),
        }
    }
}

/// The window size to open with: the configured one, unless a side is zero,
/// in which case the window follows the device display.
pub fn initial_window_size(width: u32, height: u32) -> (r: Option<(u32, u32)>)
    ensures
        r == (if width != 0 && height != 0 {
            Some((width, height))
        } else {
            None
        }),
{
    if width != 0 && height != 0 {
        Some((width, height))
    } else {
        None
    }
}

/// The display reports each pointer press on three frames in a row; this
/// lets the first of every three through.
pub struct PressFilter {
    count: u8,
}

impl View for PressFilter {
    type V = nat;

    closed spec fn view(&self) -> nat {
        self.count as nat
    }
}

impl PressFilter {
    /// A filter that lets the next press through.
    pub fn new() -> (r: Self)
        ensures
            r@ == 0,
    {
        PressFilter { count: 0 }
    }

    /// Counts one reported press; the result says whether to act on it.
    pub fn register(&mut self) -> (r: bool)
        requires
            old(self)@ < 3,
        ensures
            r == (old(self)@ == 0),
            final(self)@ == (old(self)@ + 1) % 3,
    {
        let r = self.count == 0;
        self.count = if self.count >= 2 {
            0
        } else {
            self.count + 1
        };
        r
    }
}

} // verus!
