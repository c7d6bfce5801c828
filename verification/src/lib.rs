//! Client-side protocol layer for an RPC channel to a torrent daemon:
//! decoding of multiplexed inbound wire messages and normalization of the
//! daemon's free-text exceptions into a typed error taxonomy.
//!
//! The library is pure and stateless: [`dispatch::Inbound::decode`] turns
//! one raw wire message into a response or an event, and
//! [`error::SpecializedError::specialize`] turns a generic remote
//! exception into a typed variant where its shape is recognized. The
//! surrounding transport and session layer owns sockets, request-id
//! bookkeeping and event fan-out, and is not part of this crate.

pub mod add_torrent;
pub mod dispatch;
pub mod error;
pub mod hash;
pub mod text;
pub mod value;
