//! The state machine of a persistent bidirectional message stream.
//!
//! The channel decides; the caller opens the stream, writes the frames the
//! channel hands out and reports what the stream delivers.

use vstd::prelude::*;

use crate::network::protocol::Message;
use crate::network::wire::{is_message_encoding, message_bytes, message_fits};
use crate::network::{NetworkError, ProtocolFault};

verus! {

/// Lifecycle of a duplex channel.
#[derive(Clone, Copy, Debug, PartialEq, Eq, Structural)]
pub enum ChannelState {
    Disconnected,
    Connecting,
    Open,
    Closing,
}

/// What the stream delivered to a waiting receiver.
#[derive(Clone, Debug)]
pub enum InboundEvent {
    /// A frame of bytes.
    Frame(Vec<u8>),
    /// The peer closed the stream.
    Closed,
    /// The transport failed.
    Failure(String),
}

/// State after a connection attempt starts: only a disconnected or closing
/// channel starts one.
pub open spec fn after_begin_connect(s: ChannelState) -> ChannelState {
    match s {
        ChannelState::Disconnected | ChannelState::Closing => ChannelState::Connecting,
        _ => s,
    }
}

/// State after the transport reports the outcome of a connection attempt.
pub open spec fn after_connect_result(s: ChannelState, succeeded: bool) -> ChannelState {
    if s == ChannelState::Connecting {
        if succeeded {
            ChannelState::Open
        } else {
            ChannelState::Disconnected
        }
    } else {
        s
    }
}

/// A persistent bidirectional message stream.
pub struct DuplexChannel {
    state: ChannelState,
}

impl DuplexChannel {
    /// The current state.
    pub closed spec fn spec_state(&self) -> ChannelState {
        self.state
    }

    /// A disconnected channel.
    pub fn new() -> (r: DuplexChannel)
        ensures
            r.spec_state() == ChannelState::Disconnected,
    {
        DuplexChannel { state: ChannelState::Disconnected }
    }

    /// The current state.
    pub fn state(&self) -> (r: ChannelState)
        ensures
            r == self.spec_state(),
    {
        self.state
    }

    /// Whether the channel is open.
    pub fn is_connected(&self) -> (r: bool)
        ensures
            r == (self.spec_state() == ChannelState::Open),
    {
        self.state == ChannelState::Open
    }

    /// Starts a connection attempt. Returns whether the caller should open the
    /// stream now: true exactly when the channel was disconnected or closing.
    pub fn begin_connect(&mut self) -> (r: bool)
        ensures
            r == (old(self).spec_state() == ChannelState::Disconnected || old(self).spec_state()
                == ChannelState::Closing),
            final(self).spec_state() == after_begin_connect(old(self).spec_state()),
    {
        match self.state {
            ChannelState::Disconnected | ChannelState::Closing => {
                self.state = ChannelState::Connecting;
                true
            },
            _ => false,
        }
    }

    /// The stream was opened: a connecting channel is now open.
    pub fn connect_succeeded(&mut self)
        ensures
            final(self).spec_state() == after_connect_result(old(self).spec_state(), true),
    {
        if self.state == ChannelState::Connecting {
            self.state = ChannelState::Open;
        }
    }

    /// The stream could not be opened: a connecting channel is disconnected
    /// again, and the caller gets a connection failure.
    pub fn connect_failed(&mut self, reason: String) -> (r: NetworkError)
        ensures
            final(self).spec_state() == after_connect_result(old(self).spec_state(), false),
            r == NetworkError::ConnectionFailed(reason),
    {
        if self.state == ChannelState::Connecting {
            self.state = ChannelState::Disconnected;
        }
        NetworkError::ConnectionFailed(reason)
    }

    /// Frames a message for sending: only an open channel sends, and the frame
    /// is the message's canonical encoding.
    pub fn send(&self, message: &Message) -> (r: Result<Vec<u8>, NetworkError>)
        ensures
            self.spec_state() == ChannelState::Open ==> (r matches Ok(frame) && frame@
                == message_bytes(message@)),
            self.spec_state() != ChannelState::Open ==> r == Err::<Vec<u8>, NetworkError>(
                NetworkError::NotConnected,
            ),
    {
        if self.state == ChannelState::Open {
            Ok(message.serialize())
        } else {
            Err(NetworkError::NotConnected)
        }
    }

    /// Writing a frame failed: the channel is disconnected and the caller gets a
    /// protocol error that carries the transport's reason.
    pub fn write_failed(&mut self, reason: String) -> (r: NetworkError)
        ensures
            final(self).spec_state() == ChannelState::Disconnected,
            r == NetworkError::ProtocolError(ProtocolFault::Transport(reason)),
    {
        self.state = ChannelState::Disconnected;
        NetworkError::ProtocolError(ProtocolFault::Transport(reason))
    }

    /// Takes what the stream delivered. Only an open channel receives. A frame
    /// that encodes a message yields it; the end of the stream yields `None`
    /// and disconnects; a transport failure or a malformed frame is a protocol
    /// error and disconnects.
    pub fn receive(&mut self, event: InboundEvent) -> (r: Result<Option<Message>, NetworkError>)
        ensures
            old(self).spec_state() != ChannelState::Open ==> r == Err::<Option<Message>, NetworkError>(
                NetworkError::NotConnected,
            ) && final(self).spec_state() == old(self).spec_state(),
            old(self).spec_state() == ChannelState::Open ==> match event {
                InboundEvent::Frame(bytes) => if is_message_encoding(bytes@) {
                    final(self).spec_state() == ChannelState::Open && (r matches Ok(Some(m))
                        && message_bytes(m@) == bytes@ && message_fits(m@))
                } else {
                    final(self).spec_state() == ChannelState::Disconnected && r == Err::<
                        Option<Message>,
                        NetworkError,
                    >(NetworkError::ProtocolError(ProtocolFault::MalformedFrame))
                },
                InboundEvent::Closed => final(self).spec_state() == ChannelState::Disconnected
                    && r == Ok::<Option<Message>, NetworkError>(None),
                InboundEvent::Failure(reason) => final(self).spec_state()
                    == ChannelState::Disconnected && r == Err::<Option<Message>, NetworkError>(
                    NetworkError::ProtocolError(ProtocolFault::Transport(reason)),
                ),
            },
    {
        if self.state != ChannelState::Open {
            return Err(NetworkError::NotConnected);
        }
        match event {
            InboundEvent::Frame(bytes) => match Message::deserialize(bytes.as_slice()) {
                Ok(m) => Ok(Some(m)),
                Err(e) => {
                    self.state = ChannelState::Disconnected;
                    Err(e)
                },
            },
            InboundEvent::Closed => {
                self.state = ChannelState::Disconnected;
                Ok(None)
            },
            InboundEvent::Failure(reason) => {
                self.state = ChannelState::Disconnected;
                Err(NetworkError::ProtocolError(ProtocolFault::Transport(reason)))
            },
        }
    }

    /// Starts closing. Returns whether the caller should flush and close the
    /// stream: true exactly when the channel was open. Closing a channel that
    /// is not open changes nothing.
    pub fn begin_close(&mut self) -> (r: bool)
        ensures
            r == (old(self).spec_state() == ChannelState::Open),
            final(self).spec_state() == if r {
                ChannelState::Closing
            } else {
                old(self).spec_state()
            },
    {
        if self.state == ChannelState::Open {
            self.state = ChannelState::Closing;
            true
        } else {
            false
        }
    }

    /// The stream is closed: a closing channel is disconnected.
    pub fn finish_close(&mut self)
        ensures
            final(self).spec_state() == if old(self).spec_state() == ChannelState::Closing {
                ChannelState::Disconnected
            } else {
                old(self).spec_state()
            },
    {
        if self.state == ChannelState::Closing {
            self.state = ChannelState::Disconnected;
        }
    }
}

/// A disconnected channel refuses to send; once a connection attempt has
/// started and succeeded it is open and sends.
pub proof fn lemma_connect_then_send()
    ensures
        after_begin_connect(ChannelState::Disconnected) == ChannelState::Connecting,
        after_connect_result(after_begin_connect(ChannelState::Disconnected), true)
            == ChannelState::Open,
        after_connect_result(after_begin_connect(ChannelState::Disconnected), false)
            == ChannelState::Disconnected,
{
}

} // verus!
