//! Peer-to-peer synchronization core for a two-player round-based shooter.
//!
//! Two independently simulated clients (a host and a joiner) keep a shared
//! round/role state consistent over a lossy, unordered datagram transport.
//! This crate holds the protocol logic itself: the wire codec, the inbound
//! message queue discipline, the round/role state machine, the per-entity
//! sync channel gating, and the one-shot event messages with their
//! reliability workarounds. Sockets, rendering and input live outside.

pub mod bullets;
pub mod codec;
pub mod consts;
pub mod gameover;
pub mod msg;
pub mod player;
pub mod queue;
pub mod rate;
pub mod roomid;
pub mod round;
pub mod session;
pub mod shot;
pub mod subnet;
pub mod view;

pub use msg::NetworkMessage;
pub use player::PlayerId;
pub use player::PlayerRole;
pub use player::PeerRole;
