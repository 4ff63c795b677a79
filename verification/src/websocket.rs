//! WebSocket support: the message type exchanged with a peer. The socket
//! itself is the caller's part.

use vstd::prelude::*;

verus! {

/// Default connect timeout in seconds.
pub const WS_CONNECT_TIMEOUT_SECS: u64 = 10;

/// One WebSocket message.
#[derive(Debug, Clone)]
pub enum WsMessage {
    /// A text message.
    Text(String),
    /// A binary message.
    Binary(Vec<u8>),
    /// A ping with its payload.
    Ping(Vec<u8>),
    /// A pong with its payload.
    Pong(Vec<u8>),
    /// The closing message.
    Close,
}

impl WsMessage {
    /// Whether this is a text message.
    pub fn is_text(&self) -> (r: bool)
        ensures
            r == (self is Text),
    {
        matches!(self, Self::Text(_))
    }

    /// Whether this is a binary message.
    pub fn is_binary(&self) -> (r: bool)
        ensures
            r == (self is Binary),
    {
        matches!(self, Self::Binary(_))
    }

    /// The text of a text message; nothing for any other message.
    pub fn as_text(&self) -> (r: Option<&str>)
        ensures
            r is Some <==> self is Text,
            r matches Some(s) ==> s@ == self->Text_0@,
    {
        if let Self::Text(s) = self {
            Some(s.as_str())
        } else {
            None
        }
    }

    /// The bytes of a binary message; nothing for any other message.
    pub fn as_binary(&self) -> (r: Option<&[u8]>)
        ensures
            r is Some <==> self is Binary,
            r matches Some(b) ==> b@ == self->Binary_0@,
    {
        if let Self::Binary(b) = self {
            Some(b.as_slice())
        } else {
            None
        }
    }
}

} // verus!
