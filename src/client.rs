//! The device side of a mirroring session.
//!
//! `ClientSession` decides; the caller does the outside work. Each event
//! returns the actions to perform, in order. The session owns the two
//! channels between the event loop and the workers: taps go through an
//! `OrderedChannel`, capture requests through a `SheddingChannel`. Any
//! disconnection closes both channels before the retry delay is asked for,
//! so the workers stop before the next attempt starts.

use vstd::prelude::*;
use crate::api::FromServerMessage;
use crate::channel::{
    OrderedChannel, OrderedModel, SheddingChannel, SheddingModel, Slot, WorkerStep,
    ordered_empty, ordered_pop, ordered_push, shedding_empty, shedding_finish, shedding_push,
    shedding_take,
};
use crate::codec::{decode_server, decode_server_spec};

verus! {

/// Milliseconds to wait after a disconnection or a failed connection attempt.
pub const RETRY_DELAY_MS: u64 = 3000;

/// Where the device's connection stands.
#[derive(Clone, Copy, Debug, PartialEq, Eq, Structural)]
pub enum ClientPhase {
    /// Not started yet.
    Disconnected,
    /// A connection to the host is being opened.
    Connecting,
    /// Connected and `Ping` sent; waiting for `Pong`.
    AwaitingPong,
    /// Handshake done: taps and capture requests are served.
    Active,
    /// Torn down; waiting out the retry delay.
    RetryWait,
}

/// What the caller does in answer to an event.
#[derive(Clone, Copy, Debug, PartialEq, Eq, Structural)]
pub enum ClientAction {
    /// Start a tap worker and a capture worker for the new session.
    StartWorkers,
    /// Open a connection to the host.
    Connect,
    /// Send `Ping` to the host.
    SendPing,
    /// Query the display size and send it to the host as `ScreenSize`.
    SendScreenSize,
    /// A capture request was dropped because a capture is already pending.
    CaptureIgnored,
    /// Wait for both workers to exit; their channels are closed.
    StopWorkers,
    /// Wait this many milliseconds, drop the connection and start again.
    WaitRetry(u64),
}

/// The value of a `ClientSession`.
pub struct ClientModel {
    pub phase: ClientPhase,
    pub taps: OrderedModel<(u16, u16)>,
    pub captures: SheddingModel<()>,
}

/// The state of the device side of the protocol.
pub struct ClientSession {
    phase: ClientPhase,
    taps: OrderedChannel<(u16, u16)>,
    captures: SheddingChannel<()>,
}

impl View for ClientSession {
    type V = ClientModel;

    closed spec fn view(&self) -> ClientModel {
        ClientModel { phase: self.phase, taps: self.taps@, captures: self.captures@ }
    }
}

/// A phase in which a connection is open or being opened.
pub open spec fn is_connected_phase(p: ClientPhase) -> bool {
    p is Connecting || p is AwaitingPong || p is Active
}

/// The model after teardown: both channels closed, waiting to retry.
pub open spec fn torn_down() -> ClientModel {
    ClientModel {
        phase: ClientPhase::RetryWait,
        taps: OrderedModel { items: Seq::empty(), closed: true },
        captures: SheddingModel { slot: Slot::Free, closed: true },
    }
}

/// The actions of a teardown.
pub open spec fn teardown_actions() -> Seq<ClientAction> {
    seq![ClientAction::StopWorkers, ClientAction::WaitRetry(RETRY_DELAY_MS)]
}

/// Starting, or starting again after the retry delay.
pub open spec fn client_start(m: ClientModel) -> (Seq<ClientAction>, ClientModel) {
    if m.phase is Disconnected || m.phase is RetryWait {
        (
            seq![ClientAction::StartWorkers, ClientAction::Connect],
            ClientModel {
                phase: ClientPhase::Connecting,
                taps: ordered_empty(),
                captures: shedding_empty(),
            },
        )
    } else {
        (Seq::empty(), m)
    }
}

/// The outcome of a connection attempt.
pub open spec fn client_connected(m: ClientModel, established: bool) -> (
    Seq<ClientAction>,
    ClientModel,
) {
    if m.phase is Connecting {
        if established {
            (seq![ClientAction::SendPing], ClientModel { phase: ClientPhase::AwaitingPong, ..m })
        } else {
            (teardown_actions(), torn_down())
        }
    } else {
        (Seq::empty(), m)
    }
}

/// A message from the host, as the bytes of one frame.
pub open spec fn client_message(m: ClientModel, data: Seq<u8>) -> (Seq<ClientAction>, ClientModel) {
    match m.phase {
        ClientPhase::AwaitingPong => match decode_server_spec(data) {
            Ok(FromServerMessage::Pong) => (
                seq![ClientAction::SendScreenSize],
                ClientModel { phase: ClientPhase::Active, ..m },
            ),
            _ => (teardown_actions(), torn_down()),
        },
        ClientPhase::Active => match decode_server_spec(data) {
            Ok(FromServerMessage::Pong) => (seq![ClientAction::SendScreenSize], m),
            Ok(FromServerMessage::Click(x, y)) => (
                Seq::empty(),
                ClientModel { taps: ordered_push(m.taps, (x, y)).1, ..m },
            ),
            Ok(FromServerMessage::RequestScreen) => if shedding_push(m.captures, ()).0 {
                (Seq::empty(), ClientModel { captures: shedding_push(m.captures, ()).1, ..m })
            } else {
                (seq![ClientAction::CaptureIgnored], m)
            },
            Err(_) => (teardown_actions(), torn_down()),
        },
        _ => (Seq::empty(), m),
    }
}

/// The transport reports the connection lost.
pub open spec fn client_disconnected(m: ClientModel) -> (Seq<ClientAction>, ClientModel) {
    if is_connected_phase(m.phase) {
        (teardown_actions(), torn_down())
    } else {
        (Seq::empty(), m)
    }
}

/// When the connection is lost mid-session, both workers are told to stop
/// before the retry delay is asked for; after it each worker's next step is
/// to exit, and no capture still under way may deliver its result.
pub proof fn lemma_disconnect_stops_workers(m: ClientModel)
    requires
        is_connected_phase(m.phase),
    ensures
        client_disconnected(m).0 == seq![
            ClientAction::StopWorkers,
            ClientAction::WaitRetry(RETRY_DELAY_MS),
        ],
        ordered_pop(client_disconnected(m).1.taps).0 == WorkerStep::<(u16, u16)>::Stop,
        shedding_take(client_disconnected(m).1.captures).0 == WorkerStep::<()>::Stop,
        shedding_finish(client_disconnected(m).1.captures).closed,
        client_disconnected(m).1.phase == ClientPhase::RetryWait,
{
}

impl ClientSession {
    /// A session that has not started.
    pub fn new() -> (r: Self)
        ensures
            r@ == (ClientModel {
                phase: ClientPhase::Disconnected,
                taps: OrderedModel { items: Seq::empty(), closed: true },
                captures: SheddingModel { slot: Slot::Free, closed: true },
            }),
    {
        let mut taps = OrderedChannel::new();
        taps.close();
        let mut captures = SheddingChannel::new();
        captures.close();
        ClientSession { phase: ClientPhase::Disconnected, taps, captures }
    }

    /// The current phase.
    pub fn phase(&self) -> (r: ClientPhase)
        ensures
            r == self@.phase,
    {
        self.phase
    }

    fn teardown(&mut self) -> (r: Vec<ClientAction>)
        ensures
            r@ == teardown_actions(),
            final(self)@ == torn_down(),
    {
        self.taps.close();
        self.captures.close();
        self.phase = ClientPhase::RetryWait;
        let r = vec![ClientAction::StopWorkers, ClientAction::WaitRetry(RETRY_DELAY_MS)];
        proof {
            assert(r@ =~= teardown_actions());
        }
        r
    }

    /// Starts a fresh session: on start, and when the retry delay is over.
    pub fn start(&mut self) -> (r: Vec<ClientAction>)
        ensures
            (r@, final(self)@) == client_start(old(self)@),
    {
        if matches!(self.phase, ClientPhase::Disconnected) || matches!(
            self.phase,
            ClientPhase::RetryWait,
        ) {
            self.phase = ClientPhase::Connecting;
            self.taps = OrderedChannel::new();
            self.captures = SheddingChannel::new();
            let r = vec![ClientAction::StartWorkers, ClientAction::Connect];
            proof {
                assert(r@ =~= client_start(old(self)@).0);
            }
            r
        } else {
            let r = Vec::new();
            proof {
                assert(r@ =~= client_start(old(self)@).0);
            }
            r
        }
    }

    /// The connection attempt has ended, `established` or not.
    pub fn on_connected(&mut self, established: bool) -> (r: Vec<ClientAction>)
        ensures
            (r@, final(self)@) == client_connected(old(self)@, established),
    {
        if matches!(self.phase, ClientPhase::Connecting) {
            if established {
                self.phase = ClientPhase::AwaitingPong;
                let r = vec![ClientAction::SendPing];
                proof {
                    assert(r@ =~= client_connected(old(self)@, established).0);
                }
                r
            } else {
                self.teardown()
            }
        } else {
            let r = Vec::new();
            proof {
                assert(r@ =~= client_connected(old(self)@, established).0);
            }
            r
        }
    }

    /// A frame has arrived from the host.
    pub fn on_message(&mut self, data: &[u8]) -> (r: Vec<ClientAction>)
        ensures
            (r@, final(self)@) == client_message(old(self)@, data@),
    {
        let ghost m = self@;
        let decoded = decode_server(data);
        let mut r: Vec<ClientAction> = Vec::new();
        match self.phase {
            ClientPhase::AwaitingPong => {
                if matches!(decoded, Ok(FromServerMessage::Pong)) {
                    self.phase = ClientPhase::Active;
                    r.push(ClientAction::SendScreenSize);
                } else {
                    r = self.teardown();
                }
            },
            ClientPhase::Active => {
                match decoded {
                    Ok(FromServerMessage::Pong) => {
                        r.push(ClientAction::SendScreenSize);
                    },
                    Ok(FromServerMessage::Click(x, y)) => {
                        let _ = self.taps.push((x, y));
                    },
                    Ok(FromServerMessage::RequestScreen) => {
                        if self.captures.try_push(()).is_err() {
                            r.push(ClientAction::CaptureIgnored);
                        }
                    },
                    Err(_) => {
                        r = self.teardown();
                    },
                }
            },
            _ => {},
        }
        proof {
            assert(r@ =~= client_message(m, data@).0);
        }
        r
    }

    /// The transport reports the connection lost.
    pub fn on_disconnected(&mut self) -> (r: Vec<ClientAction>)
        ensures
            (r@, final(self)@) == client_disconnected(old(self)@),
    {
        if matches!(self.phase, ClientPhase::Connecting) || matches!(
            self.phase,
            ClientPhase::AwaitingPong,
        ) || matches!(self.phase, ClientPhase::Active) {
            self.teardown()
        } else {
            let r = Vec::new();
            proof {
                assert(r@ =~= client_disconnected(old(self)@).0);
            }
            r
        }
    }

    /// The tap worker's next step.
    pub fn next_tap(&mut self) -> (r: WorkerStep<(u16, u16)>)
        ensures
            (r, final(self)@.taps) == ordered_pop(old(self)@.taps),
            final(self)@.phase == old(self)@.phase,
            final(self)@.captures == old(self)@.captures,
    {
        self.taps.pop()
    }

    /// The capture worker's next step.
    pub fn next_capture(&mut self) -> (r: WorkerStep<()>)
        ensures
            (r, final(self)@.captures) == shedding_take(old(self)@.captures),
            final(self)@.phase == old(self)@.phase,
            final(self)@.taps == old(self)@.taps,
    {
        self.captures.take()
    }

    /// The capture worker has finished a capture. The result says whether
    /// the session is still live, that is whether to send the capture.
    pub fn capture_done(&mut self) -> (r: bool)
        ensures
            r == !old(self)@.captures.closed,
            final(self)@.captures == shedding_finish(old(self)@.captures),
            final(self)@.phase == old(self)@.phase,
            final(self)@.taps == old(self)@.taps,
    {
        self.captures.finish()
    }
}

} // verus!
