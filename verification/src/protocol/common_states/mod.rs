//! The packets of the states before play, which every protocol version shares.
pub mod handshaking;
pub mod layout;
pub mod login;
pub mod status;
