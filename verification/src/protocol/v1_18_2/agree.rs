//! The readers of the handshaking, status and login states read what
//! `de_packets` reads in those states.
use crate::protocol::states::{
    handshaking_known, login_known, spec_handshaking, spec_handshaking_c2s, spec_login, spec_login_c2s,
    spec_login_s2c, spec_status, spec_status_c2s, spec_status_s2c, status_known, HandshakingView, LoginView,
    StatusView,
};
use crate::protocol::v1_18_2::{
    de_packets_known, spec_de_packets, spec_packet_handshaking_c2s, spec_packet_login_c2s, spec_packet_login_s2c,
    spec_packet_status_c2s, spec_packet_status_s2c, PacketView,
};
use crate::protocol::{ConnectionState, PacketDirection};
use vstd::prelude::*;

verus! {

/// A packet read by `handshaking`, as a packet of `de_packets`, with what follows it.
pub open spec fn handshaking_as_packet(r: Option<(HandshakingView, Seq<u8>)>) -> Option<(PacketView, Seq<u8>)> {
    match r {
        Some((p, rest)) => Some((
            match p {
                HandshakingView::SetProtocolRequest(v) => PacketView::SetProtocolRequest(v),
            },
            rest,
        )),
        None => None,
    }
}

/// A packet read by `status`, as a packet of `de_packets`, with what follows it.
pub open spec fn status_as_packet(r: Option<(StatusView, Seq<u8>)>) -> Option<(PacketView, Seq<u8>)> {
    match r {
        Some((p, rest)) => Some((
            match p {
                StatusView::PingStartRequest(v) => PacketView::PingStartRequest(v),
                StatusView::PingRequest(v) => PacketView::PingRequest(v),
                StatusView::ServerInfoResponse(v) => PacketView::ServerInfoResponse(v),
                StatusView::PingResponse(v) => PacketView::PingResponse(v),
            },
            rest,
        )),
        None => None,
    }
}

/// A packet read by `login`, as a packet of `de_packets`, with what follows it.
pub open spec fn login_as_packet(r: Option<(LoginView, Seq<u8>)>) -> Option<(PacketView, Seq<u8>)> {
    match r {
        Some((p, rest)) => Some((
            match p {
                LoginView::LoginStartRequest(v) => PacketView::LoginStartRequest(v),
                LoginView::EncryptionBeginRequest(v) => PacketView::EncryptionBeginRequest(v),
                LoginView::LoginPluginResponse(v) => PacketView::LoginPluginResponse(v),
                LoginView::DisconnectResponse(v) => PacketView::DisconnectResponse(v),
                LoginView::EncryptionBeginResponse(v) => PacketView::EncryptionBeginResponse(v),
                LoginView::SuccessResponse(v) => PacketView::SuccessResponse(v),
                LoginView::CompressResponse(v) => PacketView::CompressResponse(v),
                LoginView::LoginPluginRequest(v) => PacketView::LoginPluginRequest(v),
            },
            rest,
        )),
        None => None,
    }
}

/// In the handshaking, status and login states, `de_packets` knows the same
/// packets as `handshaking`, `status` and `login`, and reads from the same
/// bytes the same packet, leaving the same bytes. The one exception is the
/// legacy server list ping (id `0xfe` while handshaking), which only
/// `de_packets` knows.
pub proof fn lemma_state_readers_agree(state: ConnectionState, direction: PacketDirection, id: u32, s: Seq<u8>)
    ensures
        state == ConnectionState::Handshaking && id != 0xfe ==> de_packets_known(state, direction, id) == handshaking_known(state, direction, id),
        state == ConnectionState::Handshaking && id != 0xfe ==> spec_de_packets(state, direction, id, s) == handshaking_as_packet(
            spec_handshaking(state, direction, id, s),
        ),
        state == ConnectionState::Status ==> de_packets_known(state, direction, id) == status_known(state, direction, id),
        state == ConnectionState::Status ==> spec_de_packets(state, direction, id, s) == status_as_packet(
            spec_status(state, direction, id, s),
        ),
        state == ConnectionState::Login ==> de_packets_known(state, direction, id) == login_known(state, direction, id),
        state == ConnectionState::Login ==> spec_de_packets(state, direction, id, s) == login_as_packet(
            spec_login(state, direction, id, s),
        ),
{
    reveal(spec_handshaking_c2s);
    reveal(spec_packet_handshaking_c2s);
    reveal(spec_status_c2s);
    reveal(spec_packet_status_c2s);
    reveal(spec_status_s2c);
    reveal(spec_packet_status_s2c);
    reveal(spec_login_c2s);
    reveal(spec_packet_login_c2s);
    reveal(spec_login_s2c);
    reveal(spec_packet_login_s2c);
}

} // verus!
