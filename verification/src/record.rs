//! The decisions of the recording proxy: which reader its packets go
//! through, and how each packet that starts a connection changes the state
//! of the connection and what is sent on. Sockets, encryption and files are
//! the tool's.
use crate::bytes::ParseError;
use crate::protocol::states::{Handshaking, Login};
use crate::protocol::ConnectionState;
use vstd::prelude::*;

verus! {

/// The reader that the packets of a connection go through.
#[derive(Debug, Clone, Copy, PartialEq, Eq, Structural)]
pub enum ReaderKind {
    Handshaking,
    Status,
    Login,
    /// The play packets of protocol version 758 (1.18.2).
    V1_18_2,
    /// The play packets of protocol version 761 (1.19.3).
    V1_19_3,
    /// The play packets of protocol version 764 (1.20.2).
    V1_20_2,
    /// Packets kept as bytes, unread.
    Ignore,
}

/// The reader for a connection in state `state` with protocol version
/// `version`: the reader of the state before play; in play, none when play
/// packets are ignored, else the reader of the version, or none for an
/// unknown version.
pub open spec fn spec_choose_reader(state: ConnectionState, version: i32, ignore_play: bool) -> ReaderKind {
    match state {
        ConnectionState::Handshaking => ReaderKind::Handshaking,
        ConnectionState::Login => ReaderKind::Login,
        ConnectionState::Status => ReaderKind::Status,
        ConnectionState::Play => if ignore_play {
            ReaderKind::Ignore
        } else if version == 758 {
            ReaderKind::V1_18_2
        } else if version == 761 {
            ReaderKind::V1_19_3
        } else if version == 764 {
            ReaderKind::V1_20_2
        } else {
            ReaderKind::Ignore
        },
    }
}

/// Chooses the reader for a connection, as `spec_choose_reader` says.
pub fn choose_reader(state: ConnectionState, version: i32, ignore_play: bool) -> (res: ReaderKind)
    ensures
        res == spec_choose_reader(state, version, ignore_play),
{
    match state {
        ConnectionState::Handshaking => ReaderKind::Handshaking,
        ConnectionState::Login => ReaderKind::Login,
        ConnectionState::Status => ReaderKind::Status,
        ConnectionState::Play => {
            if ignore_play {
                ReaderKind::Ignore
            } else if version == 758 {
                ReaderKind::V1_18_2
            } else if version == 761 {
                ReaderKind::V1_19_3
            } else if version == 764 {
                ReaderKind::V1_20_2
            } else {
                ReaderKind::Ignore
            }
        },
    }
}

/// What the proxy knows of a connection.
#[derive(Debug, Clone, Copy)]
pub struct ProxyState {
    pub state: ConnectionState,
    pub protocol_version: i32,
    pub compression: bool,
    /// Whether the connection has left its first states (status or play).
    pub start_done: bool,
    pub reader: ReaderKind,
}

/// What a packet that the proxy read says, as far as the proxy cares.
#[derive(Debug, Clone, Copy)]
pub enum ProxyEvent {
    /// A handshake: the protocol version and the state asked for.
    Handshake { protocol_version: i32, next_state: i32 },
    /// The server accepted the login.
    LoginSuccess,
    /// The server set the compression threshold.
    Compression { threshold: i32 },
    /// The server asked for encryption.
    EncryptionResponse,
    /// Any other packet.
    Other,
    /// A packet that the reader could not read.
    Unreadable,
}

/// What the proxy does with a packet.
#[derive(Debug, Clone, Copy)]
pub enum ProxyAction {
    /// Sends the packet on as it is.
    Forward,
    /// Sends on, in place of the packet, a handshake with the same version
    /// and state to the real server's address.
    SendHandshake { protocol_version: i32, next_state: i32 },
    /// Keeps the packet and answers the encryption request itself.
    ReplyEncryption,
}

/// The proxy's state after a connection starts: handshaking, with no
/// version yet.
pub open spec fn spec_proxy_start() -> ProxyState {
    ProxyState {
        state: ConnectionState::Handshaking,
        protocol_version: i32::MAX,
        compression: false,
        start_done: false,
        reader: spec_choose_reader(ConnectionState::Handshaking, 0, false),
    }
}

/// The state in which a proxy starts.
pub fn proxy_start() -> (res: ProxyState)
    ensures
        res == spec_proxy_start(),
{
    ProxyState {
        state: ConnectionState::Handshaking,
        protocol_version: i32::MAX,
        compression: false,
        start_done: false,
        reader: choose_reader(ConnectionState::Handshaking, 0, false),
    }
}

/// How a packet changes the proxy's state and what is done with it: a
/// handshake asking for status (1) or login (2) moves there, takes its
/// version and is replaced by one to the real server, any other state being
/// an error; a login success moves to play; a compression threshold of 0
/// or more turns compression on, a negative one off; the server's
/// encryption request is answered by the proxy; anything else goes on unchanged.
pub open spec fn spec_proxy_step(s: ProxyState, e: ProxyEvent) -> Result<(ProxyState, ProxyAction), ParseError> {
    match e {
        ProxyEvent::Handshake { protocol_version, next_state } => {
            if next_state == 1 || next_state == 2 {
                let state = if next_state == 1 {
                    ConnectionState::Status
                } else {
                    ConnectionState::Login
                };
                Ok(
                    (
                        ProxyState {
                            state,
                            protocol_version,
                            compression: s.compression,
                            start_done: if next_state == 1 {
                                true
                            } else {
                                s.start_done
                            },
                            reader: spec_choose_reader(state, protocol_version, false),
                        },
                        ProxyAction::SendHandshake { protocol_version, next_state },
                    ),
                )
            } else {
                Err(ParseError::UnknownNextState(next_state))
            }
        },
        ProxyEvent::LoginSuccess => Ok(
            (
                ProxyState {
                    state: ConnectionState::Play,
                    start_done: true,
                    reader: spec_choose_reader(ConnectionState::Play, s.protocol_version, false),
                    ..s
                },
                ProxyAction::Forward,
            ),
        ),
        ProxyEvent::Compression { threshold } => Ok(
            (ProxyState { compression: threshold >= 0, ..s }, ProxyAction::Forward),
        ),
        ProxyEvent::EncryptionResponse => Ok((s, ProxyAction::ReplyEncryption)),
        ProxyEvent::Other => Ok((s, ProxyAction::Forward)),
        ProxyEvent::Unreadable => Ok((s, ProxyAction::Forward)),
    }
}

/// Takes one packet of a connection, as `spec_proxy_step` says.
pub fn proxy_step(s: ProxyState, e: ProxyEvent) -> (res: Result<(ProxyState, ProxyAction), ParseError>)
    ensures
        res == spec_proxy_step(s, e),
{
    match e {
        ProxyEvent::Handshake { protocol_version, next_state } => {
            if next_state == 1 || next_state == 2 {
                let state = if next_state == 1 {
                    ConnectionState::Status
                } else {
                    ConnectionState::Login
                };
                let start_done = if next_state == 1 {
                    true
                } else {
                    s.start_done
                };
                Ok(
                    (
                        ProxyState {
                            state,
                            protocol_version,
                            compression: s.compression,
                            start_done,
                            reader: choose_reader(state, protocol_version, false),
                        },
                        ProxyAction::SendHandshake { protocol_version, next_state },
                    ),
                )
            } else {
                Err(ParseError::UnknownNextState(next_state))
            }
        },
        ProxyEvent::LoginSuccess => Ok(
            (
                ProxyState {
                    state: ConnectionState::Play,
                    protocol_version: s.protocol_version,
                    compression: s.compression,
                    start_done: true,
                    reader: choose_reader(ConnectionState::Play, s.protocol_version, false),
                },
                ProxyAction::Forward,
            ),
        ),
        ProxyEvent::Compression { threshold } => Ok(
            (
                ProxyState {
                    state: s.state,
                    protocol_version: s.protocol_version,
                    compression: threshold >= 0,
                    start_done: s.start_done,
                    reader: s.reader,
                },
                ProxyAction::Forward,
            ),
        ),
        ProxyEvent::EncryptionResponse => Ok((s, ProxyAction::ReplyEncryption)),
        ProxyEvent::Other => Ok((s, ProxyAction::Forward)),
        ProxyEvent::Unreadable => Ok((s, ProxyAction::Forward)),
    }
}

/// What a packet of the handshaking state says to the proxy.
pub fn handshaking_event(p: &Handshaking) -> (res: ProxyEvent)
    ensures
        match p {
            Handshaking::SetProtocolRequest(x) => res == ProxyEvent::Handshake {
                protocol_version: x.protocol_version,
                next_state: x.next_state,
            },
        },
{
    match p {
        Handshaking::SetProtocolRequest(x) => ProxyEvent::Handshake {
            protocol_version: x.protocol_version,
            next_state: x.next_state,
        },
    }
}

/// What a packet of the login state says to the proxy.
pub fn login_event(p: &Login) -> (res: ProxyEvent)
    ensures
        match p {
            Login::SuccessResponse(_) => res == ProxyEvent::LoginSuccess,
            Login::CompressResponse(x) => res == ProxyEvent::Compression { threshold: x.threshold },
            Login::EncryptionBeginResponse(_) => res == ProxyEvent::EncryptionResponse,
            _ => res == ProxyEvent::Other,
        },
{
    match p {
        Login::SuccessResponse(_) => ProxyEvent::LoginSuccess,
        Login::CompressResponse(x) => ProxyEvent::Compression { threshold: x.threshold },
        Login::EncryptionBeginResponse(_) => ProxyEvent::EncryptionResponse,
        _ => ProxyEvent::Other,
    }
}

} // verus!
