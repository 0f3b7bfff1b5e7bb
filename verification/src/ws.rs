//! The connection to the collector.
//!
//! The client is either disconnected or connected. The socket itself
//! belongs to the caller, who attempts, sends and reads, and tells the
//! client what that gave; the client keeps the state and decides what
//! follows.

use crate::error::{Error, ErrorView};
use vstd::prelude::*;
use vstd::string::StringExecFns;

verus! {

/// How long a read on the socket may wait, in milliseconds.
pub const READ_TIMEOUT_MS: u64 = 10;

/// How long the sender waits after a failed attempt to connect, in
/// milliseconds.
pub const RECONNECT_BACKOFF_MS: u64 = 200;

/// What an attempt to connect gave.
#[derive(Debug, Clone, PartialEq, Eq)]
pub enum ConnectOutcome {
    /// The handshake succeeded and the read timeout is set.
    Ready,
    /// The handshake failed; the text says why.
    HandshakeFailed(String),
    /// The handshake succeeded, but the read timeout could not be set.
    ConfigureFailed(String),
}

/// The kinds of input and output failure that the client tells apart.
#[derive(Debug, Clone, Copy, PartialEq, Eq, Structural)]
pub enum IoKind {
    WouldBlock,
    TimedOut,
    Interrupted,
    Other,
}

/// What a read on the socket gave.
#[derive(Debug, Clone, PartialEq, Eq)]
pub enum Incoming {
    /// A ping, which wants a pong with the same payload.
    Ping,
    /// A close frame.
    Close,
    /// Any other message.
    Message,
    /// An input or output failure of the given kind, with its text.
    Io(IoKind, String),
    /// The connection was closed in the regular way.
    ConnectionClosed,
    /// The connection had been closed before.
    AlreadyClosed,
    /// Any other failure, with its text.
    Failed(String),
}

/// What follows a read on the socket.
#[derive(Debug, Clone, PartialEq, Eq)]
pub enum PollStep {
    /// Send a pong, report how that went, then read again.
    ReplyPong,
    /// Read again.
    Continue,
    /// Close the session; polling ends without error.
    CloseSession,
    /// Polling ends, with this error where there is one.
    Stop(Option<Error>),
}

/// What follows a read on the socket, by mathematical values.
pub enum PollStepView {
    ReplyPong,
    Continue,
    CloseSession,
    Stop(Option<ErrorView>),
}

impl View for PollStep {
    type V = PollStepView;

    open spec fn view(&self) -> PollStepView {
        match self {
            PollStep::ReplyPong => PollStepView::ReplyPong,
            PollStep::Continue => PollStepView::Continue,
            PollStep::CloseSession => PollStepView::CloseSession,
            PollStep::Stop(None) => PollStepView::Stop(None),
            PollStep::Stop(Some(e)) => PollStepView::Stop(Some(e@)),
        }
    }
}

/// What the sender's loop got to send.
#[derive(Debug, Clone, PartialEq, Eq)]
pub enum Outgoing {
    /// A batch to send.
    Batch(String),
    /// Nothing came within the wait.
    Nothing,
    /// No batch will ever come.
    Closed,
}

/// What the sender's loop does next.
#[derive(Debug, Clone, PartialEq, Eq)]
pub enum LoopAction {
    /// Wait for the backoff, then start over.
    Backoff,
    /// Send the batch, then poll for incoming frames.
    SendAndPoll(String),
    /// Poll for incoming frames.
    Poll,
    /// End the loop.
    Stop,
}

/// Whether a failure of input or output only says that nothing came in
/// time.
pub open spec fn is_idle(kind: IoKind) -> bool {
    kind is WouldBlock || kind is TimedOut || kind is Interrupted
}

/// Whether the connection stands after a read.
pub open spec fn connected_after(incoming: Incoming) -> bool {
    match incoming {
        Incoming::Ping | Incoming::Message => true,
        Incoming::Io(kind, _) => is_idle(kind),
        _ => false,
    }
}

/// What follows a read: a ping is answered, a close frame closes the
/// session, other messages are passed over; a read that only ran out of
/// time ends the polling and keeps the connection; a closed connection ends
/// it without error; any other failure ends it with that failure.
pub open spec fn poll_step(incoming: Incoming) -> PollStepView {
    match incoming {
        Incoming::Ping => PollStepView::ReplyPong,
        Incoming::Message => PollStepView::Continue,
        Incoming::Close => PollStepView::CloseSession,
        Incoming::Io(kind, cause) => {
            if is_idle(kind) {
                PollStepView::Stop(None)
            } else {
                PollStepView::Stop(Some(ErrorView::Ws(cause@)))
            }
        },
        Incoming::ConnectionClosed | Incoming::AlreadyClosed => PollStepView::Stop(None),
        Incoming::Failed(cause) => PollStepView::Stop(Some(ErrorView::Ws(cause@))),
    }
}

/// The client of the collector.
#[derive(Debug, PartialEq, Eq)]
pub struct WsClient {
    url: String,
    connected: bool,
}

impl WsClient {
    /// The collector's address.
    pub closed spec fn url_view(&self) -> Seq<char> {
        self.url@
    }

    /// Whether the client is connected.
    pub closed spec fn connected(&self) -> bool {
        self.connected
    }

    /// A client for the collector at `url`, disconnected.
    pub fn new(url: String) -> (client: WsClient)
        ensures
            client.url_view() == url@,
            !client.connected(),
    {
        WsClient { url, connected: false }
    }

    /// The collector's address.
    pub fn url(&self) -> (u: &str)
        ensures
            u@ == self.url_view(),
    {
        self.url.as_str()
    }

    /// Whether the client is connected.
    pub fn is_connected(&self) -> (c: bool)
        ensures
            c == self.connected(),
    {
        self.connected
    }

    /// Whether a connection has to be attempted before the next use.
    pub fn maybe_connect(&self) -> (due: bool)
        ensures
            due == !self.connected(),
    {
        !self.connected
    }

    /// Takes what an attempt to connect gave. Success connects the client;
    /// a failure leaves it as it was and is reported.
    pub fn poll_connect(&mut self, outcome: ConnectOutcome) -> (result: Result<(), Error>)
        ensures
            final(self).url_view() == old(self).url_view(),
            match outcome {
                ConnectOutcome::Ready => result is Ok && final(self).connected(),
                ConnectOutcome::HandshakeFailed(cause) => result matches Err(e) && e@
                    == ErrorView::Ws(cause@) && final(self).connected() == old(self).connected(),
                ConnectOutcome::ConfigureFailed(cause) => result matches Err(e) && e@
                    == ErrorView::InvalidState("websocket configure has been fucked: "@ + cause@) && final(self).connected() == old(self).connected(),
            },
    {
        match outcome {
            ConnectOutcome::Ready => {
                self.connected = true;
                Ok(())
            },
            ConnectOutcome::HandshakeFailed(cause) => Err(Error::Ws(cause)),
            ConnectOutcome::ConfigureFailed(cause) => {
                let mut message = "websocket configure has been fucked: ".to_owned();
                message.append(cause.as_str());
                Err(Error::InvalidState(message))
            },
        }
    }

    /// Takes what sending a text gave, `None` where there was no socket to
    /// send on. A text that went out leaves the client connected; a failure
    /// disconnects it and is reported.
    pub fn send_text(&mut self, sent: Option<Result<(), String>>) -> (result: Result<bool, Error>)
        ensures
            final(self).url_view() == old(self).url_view(),
            match sent {
                None => result == Ok::<bool, Error>(false) && final(self).connected() == old(self).connected(),
                Some(Ok(_)) => result == Ok::<bool, Error>(true) && final(self).connected(),
                Some(Err(cause)) => result matches Err(e) && e@ == ErrorView::Ws(cause@) && !final(self).connected(),
            },
    {
        match sent {
            None => Ok(false),
            Some(Ok(_)) => {
                self.connected = true;
                Ok(true)
            },
            Some(Err(cause)) => {
                self.connected = false;
                Err(Error::Ws(cause))
            },
        }
    }

    /// Takes what a read on the socket gave and decides what follows. A
    /// client that is not connected has nothing to read: polling ends.
    pub fn poll_incoming(&mut self, incoming: Incoming) -> (step: PollStep)
        ensures
            final(self).url_view() == old(self).url_view(),
            !old(self).connected() ==> step@ == PollStepView::Stop(None) && !final(self).connected(),
            old(self).connected() ==> step@ == poll_step(incoming) && final(self).connected()
                == connected_after(incoming),
    {
        if !self.connected {
            return PollStep::Stop(None);
        }
        match incoming {
            Incoming::Ping => PollStep::ReplyPong,
            Incoming::Message => PollStep::Continue,
            Incoming::Close => {
                self.connected = false;
                PollStep::CloseSession
            },
            Incoming::Io(kind, cause) => {
                match kind {
                    IoKind::WouldBlock | IoKind::TimedOut | IoKind::Interrupted => PollStep::Stop(None),
                    IoKind::Other => {
                        self.connected = false;
                        PollStep::Stop(Some(Error::Ws(cause)))
                    },
                }
            },
            Incoming::ConnectionClosed | Incoming::AlreadyClosed => {
                self.connected = false;
                PollStep::Stop(None)
            },
            Incoming::Failed(cause) => {
                self.connected = false;
                PollStep::Stop(Some(Error::Ws(cause)))
            },
        }
    }

    /// Takes what sending a pong gave: a pong that went out lets the polling
    /// go on; a failure disconnects the client and ends the polling with
    /// that failure.
    pub fn pong_sent(&mut self, sent: Result<(), String>) -> (step: PollStep)
        ensures
            final(self).url_view() == old(self).url_view(),
            match sent {
                Ok(_) => step@ == PollStepView::Continue && final(self).connected() == old(self).connected(),
                Err(cause) => step@ == PollStepView::Stop(Some(ErrorView::Ws(cause@))) && !final(self).connected(),
            },
    {
        match sent {
            Ok(_) => PollStep::Continue,
            Err(cause) => {
                self.connected = false;
                PollStep::Stop(Some(Error::Ws(cause)))
            },
        }
    }
}

/// One turn of the sender's loop. `connected` says whether the client is
/// connected after a connection was attempted where one was due; `outgoing`
/// is what the wait for a batch gave. A client that could not connect backs
/// off, and the batch waits for the next turn.
pub fn ws_loop(connected: bool, outgoing: Outgoing) -> (action: LoopAction)
    ensures
        action == if !connected {
            LoopAction::Backoff
        } else {
            match outgoing {
                Outgoing::Batch(json) => LoopAction::SendAndPoll(json),
                Outgoing::Nothing => LoopAction::Poll,
                Outgoing::Closed => LoopAction::Stop,
            }
        },
{
    if !connected {
        return LoopAction::Backoff;
    }
    match outgoing {
        Outgoing::Batch(json) => LoopAction::SendAndPoll(json),
        Outgoing::Nothing => LoopAction::Poll,
        Outgoing::Closed => LoopAction::Stop,
    }
}

} // verus!
