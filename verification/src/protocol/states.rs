//! Reading the packets of the handshaking, status and login states, which
//! every protocol version shares.
use crate::bytes::ParseError;
use crate::protocol::common_states::{handshaking, login, status};
use crate::protocol::de::MD;
use crate::protocol::{ConnectionState, PacketDirection, PacketId};
use vstd::prelude::*;

verus! {


/// A packet of the handshaking state.
#[derive(Debug)]
pub enum Handshaking<'x> {
    SetProtocolRequest(handshaking::SetProtocolRequest<'x>),
}

/// What a `Handshaking` holds.
pub enum HandshakingView {
    SetProtocolRequest(handshaking::SetProtocolRequestView),
}

impl<'x> DeepView for Handshaking<'x> {
    type V = HandshakingView;

    open spec fn deep_view(&self) -> HandshakingView {
        match self {
            Handshaking::SetProtocolRequest(p) => HandshakingView::SetProtocolRequest(p.deep_view()),
        }
    }
}

/// Whether `id` is the id of a packet of the handshaking state sent by the client.
pub open spec fn handshaking_c2s_known(id: u32) -> bool {
    id < 0x1
}

/// The packet of the handshaking state sent by the client whose id is `id`, read from the
/// front of `s`; `None` for an unknown id or bytes that do not hold it.
#[verifier::opaque]
pub open spec fn spec_handshaking_c2s(id: u32, s: Seq<u8>) -> Option<(HandshakingView, Seq<u8>)> {
    match id {
        0x0 => match <handshaking::SetProtocolRequest<'static> as MD<'static>>::spec_deserialize(s) {
            Some((v, rest)) => Some((HandshakingView::SetProtocolRequest(v), rest)),
            None => None,
        },
        _ => None,
    }
}

/// Reads the packet of the handshaking state sent by the client whose id is `id`.
fn read_handshaking_c2s<'r>(id: u32, reader: &mut &'r [u8]) -> (res: Result<Handshaking<'r>, ParseError>)
    ensures
        match spec_handshaking_c2s(id, old(reader)@) {
            Some((v, rest)) => (res matches Ok(p) && p.deep_view() == v && final(reader)@ == rest),
            None => res is Err,
        },
        !handshaking_c2s_known(id) ==> (res matches Err(e) && e == ParseError::UnknownHandshakingPacket(id) && final(reader)@ == old(reader)@),
{
    proof {
        reveal(spec_handshaking_c2s);
    }
    match id {
        0x0 => {
            let p = <handshaking::SetProtocolRequest<'r> as MD<'r>>::deserialize(reader)?;
            Ok(Handshaking::SetProtocolRequest(p))
        },
        _ => Err(ParseError::UnknownHandshakingPacket(id)),
    }
}

/// The packet that the bytes at the front of `s` hold, given the state of
/// the connection, the direction and the packet id; `None` when no such
/// packet is known or the bytes do not hold it.
pub open spec fn spec_handshaking(state: ConnectionState, direction: PacketDirection, id: u32, s: Seq<u8>) -> Option<(HandshakingView, Seq<u8>)> {
    match (state, direction) {
        (ConnectionState::Handshaking, PacketDirection::C2S) => spec_handshaking_c2s(id, s),
        _ => None,
    }
}

/// Whether a packet is known under the state of the connection, the
/// direction and the packet id.
pub open spec fn handshaking_known(state: ConnectionState, direction: PacketDirection, id: u32) -> bool {
    match (state, direction) {
        (ConnectionState::Handshaking, PacketDirection::C2S) => handshaking_c2s_known(id),
        _ => false,
    }
}

/// Reads the packet of the handshaking state with id `id` that was sent in direction
/// `direction`; any other packet, or one read in another state, is an error.
pub fn handshaking<'r>(
    state: ConnectionState,
    direction: PacketDirection,
    id: PacketId,
    reader: &mut &'r [u8],
) -> (res: Result<Handshaking<'r>, ParseError>)
    ensures
        match spec_handshaking(state, direction, id.0, old(reader)@) {
            Some((v, rest)) => (res matches Ok(p) && p.deep_view() == v && final(reader)@ == rest),
            None => res is Err,
        },
        !handshaking_known(state, direction, id.0) ==> (res matches Err(e) && e == ParseError::UnknownHandshakingPacket(id.0) && final(reader)@ == old(reader)@),
{
    match (state, direction) {
        (ConnectionState::Handshaking, PacketDirection::C2S) => read_handshaking_c2s(id.0, reader),
        _ => Err(ParseError::UnknownHandshakingPacket(id.0)),
    }
}

/// A packet of the status state.
#[derive(Debug)]
pub enum Status<'x> {
    PingStartRequest(status::PingStartRequest),
    PingRequest(status::PingRequest),
    ServerInfoResponse(status::ServerInfoResponse<'x>),
    PingResponse(status::PingResponse),
}

/// What a `Status` holds.
pub enum StatusView {
    PingStartRequest(status::PingStartRequest),
    PingRequest(status::PingRequest),
    ServerInfoResponse(status::ServerInfoResponseView),
    PingResponse(status::PingResponse),
}

impl<'x> DeepView for Status<'x> {
    type V = StatusView;

    open spec fn deep_view(&self) -> StatusView {
        match self {
            Status::PingStartRequest(p) => StatusView::PingStartRequest(p.deep_view()),
            Status::PingRequest(p) => StatusView::PingRequest(p.deep_view()),
            Status::ServerInfoResponse(p) => StatusView::ServerInfoResponse(p.deep_view()),
            Status::PingResponse(p) => StatusView::PingResponse(p.deep_view()),
        }
    }
}

/// Whether `id` is the id of a packet of the status state sent by the client.
pub open spec fn status_c2s_known(id: u32) -> bool {
    id < 0x2
}

/// The packet of the status state sent by the client whose id is `id`, read from the
/// front of `s`; `None` for an unknown id or bytes that do not hold it.
#[verifier::opaque]
pub open spec fn spec_status_c2s(id: u32, s: Seq<u8>) -> Option<(StatusView, Seq<u8>)> {
    match id {
        0x0 => match <status::PingStartRequest as MD<'static>>::spec_deserialize(s) {
            Some((v, rest)) => Some((StatusView::PingStartRequest(v), rest)),
            None => None,
        },
        0x1 => match <status::PingRequest as MD<'static>>::spec_deserialize(s) {
            Some((v, rest)) => Some((StatusView::PingRequest(v), rest)),
            None => None,
        },
        _ => None,
    }
}

/// Reads the packet of the status state sent by the client whose id is `id`.
fn read_status_c2s<'r>(id: u32, reader: &mut &'r [u8]) -> (res: Result<Status<'r>, ParseError>)
    ensures
        match spec_status_c2s(id, old(reader)@) {
            Some((v, rest)) => (res matches Ok(p) && p.deep_view() == v && final(reader)@ == rest),
            None => res is Err,
        },
        !status_c2s_known(id) ==> (res matches Err(e) && e == ParseError::UnknownStatusPacket(id) && final(reader)@ == old(reader)@),
{
    proof {
        reveal(spec_status_c2s);
    }
    match id {
        0x0 => {
            let p = <status::PingStartRequest as MD<'r>>::deserialize(reader)?;
            Ok(Status::PingStartRequest(p))
        },
        0x1 => {
            let p = <status::PingRequest as MD<'r>>::deserialize(reader)?;
            Ok(Status::PingRequest(p))
        },
        _ => Err(ParseError::UnknownStatusPacket(id)),
    }
}

/// Whether `id` is the id of a packet of the status state sent by the server.
pub open spec fn status_s2c_known(id: u32) -> bool {
    id < 0x2
}

/// The packet of the status state sent by the server whose id is `id`, read from the
/// front of `s`; `None` for an unknown id or bytes that do not hold it.
#[verifier::opaque]
pub open spec fn spec_status_s2c(id: u32, s: Seq<u8>) -> Option<(StatusView, Seq<u8>)> {
    match id {
        0x0 => match <status::ServerInfoResponse<'static> as MD<'static>>::spec_deserialize(s) {
            Some((v, rest)) => Some((StatusView::ServerInfoResponse(v), rest)),
            None => None,
        },
        0x1 => match <status::PingResponse as MD<'static>>::spec_deserialize(s) {
            Some((v, rest)) => Some((StatusView::PingResponse(v), rest)),
            None => None,
        },
        _ => None,
    }
}

/// Reads the packet of the status state sent by the server whose id is `id`.
fn read_status_s2c<'r>(id: u32, reader: &mut &'r [u8]) -> (res: Result<Status<'r>, ParseError>)
    ensures
        match spec_status_s2c(id, old(reader)@) {
            Some((v, rest)) => (res matches Ok(p) && p.deep_view() == v && final(reader)@ == rest),
            None => res is Err,
        },
        !status_s2c_known(id) ==> (res matches Err(e) && e == ParseError::UnknownStatusPacket(id) && final(reader)@ == old(reader)@),
{
    proof {
        reveal(spec_status_s2c);
    }
    match id {
        0x0 => {
            let p = <status::ServerInfoResponse<'r> as MD<'r>>::deserialize(reader)?;
            Ok(Status::ServerInfoResponse(p))
        },
        0x1 => {
            let p = <status::PingResponse as MD<'r>>::deserialize(reader)?;
            Ok(Status::PingResponse(p))
        },
        _ => Err(ParseError::UnknownStatusPacket(id)),
    }
}

/// The packet that the bytes at the front of `s` hold, given the state of
/// the connection, the direction and the packet id; `None` when no such
/// packet is known or the bytes do not hold it.
pub open spec fn spec_status(state: ConnectionState, direction: PacketDirection, id: u32, s: Seq<u8>) -> Option<(StatusView, Seq<u8>)> {
    match (state, direction) {
        (ConnectionState::Status, PacketDirection::C2S) => spec_status_c2s(id, s),
        (ConnectionState::Status, PacketDirection::S2C) => spec_status_s2c(id, s),
        _ => None,
    }
}

/// Whether a packet is known under the state of the connection, the
/// direction and the packet id.
pub open spec fn status_known(state: ConnectionState, direction: PacketDirection, id: u32) -> bool {
    match (state, direction) {
        (ConnectionState::Status, PacketDirection::C2S) => status_c2s_known(id),
        (ConnectionState::Status, PacketDirection::S2C) => status_s2c_known(id),
        _ => false,
    }
}

/// Reads the packet of the status state with id `id` that was sent in direction
/// `direction`; any other packet, or one read in another state, is an error.
pub fn status<'r>(
    state: ConnectionState,
    direction: PacketDirection,
    id: PacketId,
    reader: &mut &'r [u8],
) -> (res: Result<Status<'r>, ParseError>)
    ensures
        match spec_status(state, direction, id.0, old(reader)@) {
            Some((v, rest)) => (res matches Ok(p) && p.deep_view() == v && final(reader)@ == rest),
            None => res is Err,
        },
        !status_known(state, direction, id.0) ==> (res matches Err(e) && e == ParseError::UnknownStatusPacket(id.0) && final(reader)@ == old(reader)@),
{
    match (state, direction) {
        (ConnectionState::Status, PacketDirection::C2S) => read_status_c2s(id.0, reader),
        (ConnectionState::Status, PacketDirection::S2C) => read_status_s2c(id.0, reader),
        _ => Err(ParseError::UnknownStatusPacket(id.0)),
    }
}

/// A packet of the login state.
#[derive(Debug)]
pub enum Login<'x> {
    LoginStartRequest(login::LoginStartRequest<'x>),
    EncryptionBeginRequest(login::EncryptionBeginRequest<'x>),
    LoginPluginResponse(login::LoginPluginResponse<'x>),
    DisconnectResponse(login::DisconnectResponse<'x>),
    EncryptionBeginResponse(login::EncryptionBeginResponse<'x>),
    SuccessResponse(login::SuccessResponse<'x>),
    CompressResponse(login::CompressResponse),
    LoginPluginRequest(login::LoginPluginRequest<'x>),
}

/// What a `Login` holds.
pub enum LoginView {
    LoginStartRequest(login::LoginStartRequestView),
    EncryptionBeginRequest(login::EncryptionBeginRequestView),
    LoginPluginResponse(login::LoginPluginResponseView),
    DisconnectResponse(login::DisconnectResponseView),
    EncryptionBeginResponse(login::EncryptionBeginResponseView),
    SuccessResponse(login::SuccessResponseView),
    CompressResponse(login::CompressResponse),
    LoginPluginRequest(login::LoginPluginRequestView),
}

impl<'x> DeepView for Login<'x> {
    type V = LoginView;

    open spec fn deep_view(&self) -> LoginView {
        match self {
            Login::LoginStartRequest(p) => LoginView::LoginStartRequest(p.deep_view()),
            Login::EncryptionBeginRequest(p) => LoginView::EncryptionBeginRequest(p.deep_view()),
            Login::LoginPluginResponse(p) => LoginView::LoginPluginResponse(p.deep_view()),
            Login::DisconnectResponse(p) => LoginView::DisconnectResponse(p.deep_view()),
            Login::EncryptionBeginResponse(p) => LoginView::EncryptionBeginResponse(p.deep_view()),
            Login::SuccessResponse(p) => LoginView::SuccessResponse(p.deep_view()),
            Login::CompressResponse(p) => LoginView::CompressResponse(p.deep_view()),
            Login::LoginPluginRequest(p) => LoginView::LoginPluginRequest(p.deep_view()),
        }
    }
}

/// Whether `id` is the id of a packet of the login state sent by the client.
pub open spec fn login_c2s_known(id: u32) -> bool {
    id < 0x3
}

/// The packet of the login state sent by the client whose id is `id`, read from the
/// front of `s`; `None` for an unknown id or bytes that do not hold it.
#[verifier::opaque]
pub open spec fn spec_login_c2s(id: u32, s: Seq<u8>) -> Option<(LoginView, Seq<u8>)> {
    match id {
        0x0 => match <login::LoginStartRequest<'static> as MD<'static>>::spec_deserialize(s) {
            Some((v, rest)) => Some((LoginView::LoginStartRequest(v), rest)),
            None => None,
        },
        0x1 => match <login::EncryptionBeginRequest<'static> as MD<'static>>::spec_deserialize(s) {
            Some((v, rest)) => Some((LoginView::EncryptionBeginRequest(v), rest)),
            None => None,
        },
        0x2 => match <login::LoginPluginResponse<'static> as MD<'static>>::spec_deserialize(s) {
            Some((v, rest)) => Some((LoginView::LoginPluginResponse(v), rest)),
            None => None,
        },
        _ => None,
    }
}

/// Reads the packet of the login state sent by the client whose id is `id`.
fn read_login_c2s<'r>(id: u32, reader: &mut &'r [u8]) -> (res: Result<Login<'r>, ParseError>)
    ensures
        match spec_login_c2s(id, old(reader)@) {
            Some((v, rest)) => (res matches Ok(p) && p.deep_view() == v && final(reader)@ == rest),
            None => res is Err,
        },
        !login_c2s_known(id) ==> (res matches Err(e) && e == ParseError::UnknownLoginPacket(id, PacketDirection::C2S) && final(reader)@ == old(reader)@),
{
    proof {
        reveal(spec_login_c2s);
    }
    match id {
        0x0 => {
            let p = <login::LoginStartRequest<'r> as MD<'r>>::deserialize(reader)?;
            Ok(Login::LoginStartRequest(p))
        },
        0x1 => {
            let p = <login::EncryptionBeginRequest<'r> as MD<'r>>::deserialize(reader)?;
            Ok(Login::EncryptionBeginRequest(p))
        },
        0x2 => {
            let p = <login::LoginPluginResponse<'r> as MD<'r>>::deserialize(reader)?;
            Ok(Login::LoginPluginResponse(p))
        },
        _ => Err(ParseError::UnknownLoginPacket(id, PacketDirection::C2S)),
    }
}

/// Whether `id` is the id of a packet of the login state sent by the server.
pub open spec fn login_s2c_known(id: u32) -> bool {
    id < 0x5
}

/// The packet of the login state sent by the server whose id is `id`, read from the
/// front of `s`; `None` for an unknown id or bytes that do not hold it.
#[verifier::opaque]
pub open spec fn spec_login_s2c(id: u32, s: Seq<u8>) -> Option<(LoginView, Seq<u8>)> {
    match id {
        0x0 => match <login::DisconnectResponse<'static> as MD<'static>>::spec_deserialize(s) {
            Some((v, rest)) => Some((LoginView::DisconnectResponse(v), rest)),
            None => None,
        },
        0x1 => match <login::EncryptionBeginResponse<'static> as MD<'static>>::spec_deserialize(s) {
            Some((v, rest)) => Some((LoginView::EncryptionBeginResponse(v), rest)),
            None => None,
        },
        0x2 => match <login::SuccessResponse<'static> as MD<'static>>::spec_deserialize(s) {
            Some((v, rest)) => Some((LoginView::SuccessResponse(v), rest)),
            None => None,
        },
        0x3 => match <login::CompressResponse as MD<'static>>::spec_deserialize(s) {
            Some((v, rest)) => Some((LoginView::CompressResponse(v), rest)),
            None => None,
        },
        0x4 => match <login::LoginPluginRequest<'static> as MD<'static>>::spec_deserialize(s) {
            Some((v, rest)) => Some((LoginView::LoginPluginRequest(v), rest)),
            None => None,
        },
        _ => None,
    }
}

/// Reads the packet of the login state sent by the server whose id is `id`.
fn read_login_s2c<'r>(id: u32, reader: &mut &'r [u8]) -> (res: Result<Login<'r>, ParseError>)
    ensures
        match spec_login_s2c(id, old(reader)@) {
            Some((v, rest)) => (res matches Ok(p) && p.deep_view() == v && final(reader)@ == rest),
            None => res is Err,
        },
        !login_s2c_known(id) ==> (res matches Err(e) && e == ParseError::UnknownLoginPacket(id, PacketDirection::S2C) && final(reader)@ == old(reader)@),
{
    proof {
        reveal(spec_login_s2c);
    }
    match id {
        0x0 => {
            let p = <login::DisconnectResponse<'r> as MD<'r>>::deserialize(reader)?;
            Ok(Login::DisconnectResponse(p))
        },
        0x1 => {
            let p = <login::EncryptionBeginResponse<'r> as MD<'r>>::deserialize(reader)?;
            Ok(Login::EncryptionBeginResponse(p))
        },
        0x2 => {
            let p = <login::SuccessResponse<'r> as MD<'r>>::deserialize(reader)?;
            Ok(Login::SuccessResponse(p))
        },
        0x3 => {
            let p = <login::CompressResponse as MD<'r>>::deserialize(reader)?;
            Ok(Login::CompressResponse(p))
        },
        0x4 => {
            let p = <login::LoginPluginRequest<'r> as MD<'r>>::deserialize(reader)?;
            Ok(Login::LoginPluginRequest(p))
        },
        _ => Err(ParseError::UnknownLoginPacket(id, PacketDirection::S2C)),
    }
}

/// The packet that the bytes at the front of `s` hold, given the state of
/// the connection, the direction and the packet id; `None` when no such
/// packet is known or the bytes do not hold it.
pub open spec fn spec_login(state: ConnectionState, direction: PacketDirection, id: u32, s: Seq<u8>) -> Option<(LoginView, Seq<u8>)> {
    match (state, direction) {
        (ConnectionState::Login, PacketDirection::C2S) => spec_login_c2s(id, s),
        (ConnectionState::Login, PacketDirection::S2C) => spec_login_s2c(id, s),
        _ => None,
    }
}

/// Whether a packet is known under the state of the connection, the
/// direction and the packet id.
pub open spec fn login_known(state: ConnectionState, direction: PacketDirection, id: u32) -> bool {
    match (state, direction) {
        (ConnectionState::Login, PacketDirection::C2S) => login_c2s_known(id),
        (ConnectionState::Login, PacketDirection::S2C) => login_s2c_known(id),
        _ => false,
    }
}

/// Reads the packet of the login state with id `id` that was sent in direction
/// `direction`; any other packet, or one read in another state, is an error.
pub fn login<'r>(
    state: ConnectionState,
    direction: PacketDirection,
    id: PacketId,
    reader: &mut &'r [u8],
) -> (res: Result<Login<'r>, ParseError>)
    ensures
        match spec_login(state, direction, id.0, old(reader)@) {
            Some((v, rest)) => (res matches Ok(p) && p.deep_view() == v && final(reader)@ == rest),
            None => res is Err,
        },
        !login_known(state, direction, id.0) ==> (res matches Err(e) && e == ParseError::UnknownLoginPacket(id.0, direction) && final(reader)@ == old(reader)@),
{
    match (state, direction) {
        (ConnectionState::Login, PacketDirection::C2S) => read_login_c2s(id.0, reader),
        (ConnectionState::Login, PacketDirection::S2C) => read_login_s2c(id.0, reader),
        _ => Err(ParseError::UnknownLoginPacket(id.0, direction)),
    }
}

} // verus!
