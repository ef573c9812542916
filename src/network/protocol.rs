//! Message shapes, their mathematical model, construction and validation.

use vstd::prelude::*;

use crate::network::{NetworkError, ProtocolFault};

verus! {

/// The protocol version this codec speaks.
pub const PROTOCOL_VERSION: u32 = 1;

/// Tolerated clock skew, in seconds: a message may be stamped at most this far
/// in the future.
pub const MAX_CLOCK_SKEW: u64 = 300;

/// Status of a response.
#[derive(Clone, Copy, Debug, PartialEq, Eq, Structural)]
pub enum ResponseStatus {
    Success,
    Error,
    Pending,
}

/// The variants a message can take.
#[derive(Clone, Debug, PartialEq)]
pub enum MessageType {
    /// Protocol negotiation.
    Handshake { version: u32, timestamp: u64, capabilities: Vec<String> },
    /// A call of `method` on the remote service.
    Request { id: String, method: String, params: Vec<u8> },
    /// The answer to the request `id`.
    Response { id: String, status: ResponseStatus, data: Vec<u8> },
    /// A failure of the request `id`.
    Error { id: String, code: u32, message: String },
    /// Keep-alive probe.
    Ping(u64),
    /// Answer to a keep-alive probe.
    Pong(u64),
    /// An unsolicited event on `topic`.
    Notification { topic: String, data: Vec<u8> },
}

/// Protocol envelope.
#[derive(Clone, Debug)]
pub struct Message {
    /// Protocol version the message was built for.
    pub version: u32,
    /// The variant and its fields.
    pub message_type: MessageType,
    /// Creation time, in seconds since the Unix epoch.
    pub timestamp: u64,
    /// Optional opaque signature.
    pub signature: Option<Vec<u8>>,
}

/// Mathematical model of a [`MessageType`]: strings as character sequences,
/// byte vectors as byte sequences.
pub enum MessageTypeModel {
    Handshake { version: u32, timestamp: u64, capabilities: Seq<Seq<char>> },
    Request { id: Seq<char>, method: Seq<char>, params: Seq<u8> },
    Response { id: Seq<char>, status: ResponseStatus, data: Seq<u8> },
    Error { id: Seq<char>, code: u32, message: Seq<char> },
    Ping(u64),
    Pong(u64),
    Notification { topic: Seq<char>, data: Seq<u8> },
}

/// Mathematical model of a [`Message`].
pub struct MessageModel {
    pub version: u32,
    pub message_type: MessageTypeModel,
    pub timestamp: u64,
    pub signature: Option<Seq<u8>>,
}

impl View for MessageType {
    type V = MessageTypeModel;

    open spec fn view(&self) -> MessageTypeModel {
        match self {
            MessageType::Handshake { version, timestamp, capabilities } => MessageTypeModel::Handshake {
                version: *version,
                timestamp: *timestamp,
                capabilities: capabilities@.map_values(|s: String| s@),
            },
            MessageType::Request { id, method, params } => MessageTypeModel::Request {
                id: id@,
                method: method@,
                params: params@,
            },
            MessageType::Response { id, status, data } => MessageTypeModel::Response {
                id: id@,
                status: *status,
                data: data@,
            },
            MessageType::Error { id, code, message } => MessageTypeModel::Error {
                id: id@,
                code: *code,
                message: message@,
            },
            MessageType::Ping(n) => MessageTypeModel::Ping(*n),
            MessageType::Pong(n) => MessageTypeModel::Pong(*n),
            MessageType::Notification { topic, data } => MessageTypeModel::Notification {
                topic: topic@,
                data: data@,
            },
        }
    }
}

impl View for Message {
    type V = MessageModel;

    open spec fn view(&self) -> MessageModel {
        MessageModel {
            version: self.version,
            message_type: self.message_type@,
            timestamp: self.timestamp,
            signature: match self.signature {
                Some(s) => Some(s@),
                None => None,
            },
        }
    }
}

/// The per-variant rule on required fields: a request names an id and a method,
/// a response or an error names an id, a notification names a topic.
pub open spec fn fields_well_formed(t: MessageTypeModel) -> bool {
    match t {
        MessageTypeModel::Request { id, method, .. } => id.len() > 0 && method.len() > 0,
        MessageTypeModel::Response { id, .. } => id.len() > 0,
        MessageTypeModel::Error { id, .. } => id.len() > 0,
        MessageTypeModel::Notification { topic, .. } => topic.len() > 0,
        _ => true,
    }
}

/// The first rule that `m` breaks when checked at time `now`, in the order
/// version, timestamp, fields; `None` when it breaks none.
pub open spec fn validation_fault(m: MessageModel, now: u64) -> Option<ProtocolFault> {
    if m.version != PROTOCOL_VERSION {
        Some(ProtocolFault::VersionMismatch(m.version))
    } else if m.timestamp > now + MAX_CLOCK_SKEW {
        Some(ProtocolFault::ClockSkew(m.timestamp))
    } else if !fields_well_formed(m.message_type) {
        Some(ProtocolFault::MalformedField)
    } else {
        None
    }
}

/// The result that validation at time `now` gives for `m`.
pub open spec fn validation_result(m: MessageModel, now: u64) -> Result<(), NetworkError> {
    match validation_fault(m, now) {
        Some(f) => Err(NetworkError::ProtocolError(f)),
        None => Ok(()),
    }
}

/// Relies on `std::time::SystemTime::now`: the current time in whole seconds
/// since the Unix epoch, or zero for a clock set before it. Nothing is known
/// of the value.
#[verifier::external_body]
pub(crate) fn unix_time_now() -> (r: u64) {
    std::time::SystemTime::now()
        .duration_since(std::time::SystemTime::UNIX_EPOCH)
        .unwrap_or_default()
        .as_secs()
}

impl Message {
    /// A message of the supported version, stamped with `timestamp`, unsigned.
    pub fn with_timestamp(message_type: MessageType, timestamp: u64) -> (r: Message)
        ensures
            r.version == PROTOCOL_VERSION,
            r.message_type == message_type,
            r.timestamp == timestamp,
            r.signature is None,
    {
        Message { version: PROTOCOL_VERSION, message_type, timestamp, signature: None }
    }

    /// A message of the supported version, stamped with the current time, unsigned.
    pub fn new(message_type: MessageType) -> (r: Message)
        ensures
            r.version == PROTOCOL_VERSION,
            r.message_type == message_type,
            r.signature is None,
    {
        let now = unix_time_now();
        Message::with_timestamp(message_type, now)
    }

    /// A new request message.
    pub fn request(id: &str, method: &str, params: Vec<u8>) -> (r: Message)
        ensures
            r.version == PROTOCOL_VERSION,
            r.message_type@ == (MessageTypeModel::Request { id: id@, method: method@, params: params@ }),
            r.signature is None,
    {
        Message::new(MessageType::Request { id: id.to_owned(), method: method.to_owned(), params })
    }

    /// A new response message.
    pub fn response(id: &str, status: ResponseStatus, data: Vec<u8>) -> (r: Message)
        ensures
            r.version == PROTOCOL_VERSION,
            r.message_type@ == (MessageTypeModel::Response { id: id@, status, data: data@ }),
            r.signature is None,
    {
        Message::new(MessageType::Response { id: id.to_owned(), status, data })
    }

    /// A new error message.
    pub fn error(id: &str, code: u32, message: &str) -> (r: Message)
        ensures
            r.version == PROTOCOL_VERSION,
            r.message_type@ == (MessageTypeModel::Error { id: id@, code, message: message@ }),
            r.signature is None,
    {
        Message::new(MessageType::Error { id: id.to_owned(), code, message: message.to_owned() })
    }

    /// A new notification message.
    pub fn notification(topic: &str, data: Vec<u8>) -> (r: Message)
        ensures
            r.version == PROTOCOL_VERSION,
            r.message_type@ == (MessageTypeModel::Notification { topic: topic@, data: data@ }),
            r.signature is None,
    {
        Message::new(MessageType::Notification { topic: topic.to_owned(), data })
    }

    /// Checks the message against the protocol rules as of time `now` (seconds
    /// since the Unix epoch). Never changes the message.
    pub fn validate_at(&self, now: u64) -> (r: Result<(), NetworkError>)
        ensures
            r == validation_result(self@, now),
    {
        if self.version != PROTOCOL_VERSION {
            return Err(NetworkError::ProtocolError(ProtocolFault::VersionMismatch(self.version)));
        }
        if now <= u64::MAX - MAX_CLOCK_SKEW && self.timestamp > now + MAX_CLOCK_SKEW {
            return Err(NetworkError::ProtocolError(ProtocolFault::ClockSkew(self.timestamp)));
        }
        let well_formed = match &self.message_type {
            MessageType::Request { id, method, .. } => !id.as_str().is_empty() && !method.as_str().is_empty(),
            MessageType::Response { id, .. } => !id.as_str().is_empty(),
            MessageType::Error { id, .. } => !id.as_str().is_empty(),
            MessageType::Notification { topic, .. } => !topic.as_str().is_empty(),
            _ => true,
        };
        if !well_formed {
            return Err(NetworkError::ProtocolError(ProtocolFault::MalformedField));
        }
        Ok(())
    }

    /// Checks the message against the protocol rules as of the current time.
    /// Whatever the clock reads, a wrong version is rejected with
    /// `VersionMismatch`, and a supported version with an empty required field
    /// is rejected.
    pub fn validate(&self) -> (r: Result<(), NetworkError>)
        ensures
            exists|now: u64| r == validation_result(self@, now),
            self.version != PROTOCOL_VERSION ==> r == Err::<(), NetworkError>(
                NetworkError::ProtocolError(ProtocolFault::VersionMismatch(self.version)),
            ),
            !fields_well_formed(self@.message_type) ==> r is Err,
            r is Ok ==> self.version == PROTOCOL_VERSION && fields_well_formed(self@.message_type),
    {
        let now = unix_time_now();
        self.validate_at(now)
    }
}

/// A handler of protocol messages that an application supplies.
pub trait Protocol {
    /// Handles an incoming message and produces an optional reply.
    fn handle_message(&self, message: Message) -> Result<Option<Message>, NetworkError>;

    /// Handles a protocol error.
    fn handle_error(&self, error: NetworkError);
}

} // verus!
