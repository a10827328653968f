//! A bridge between solar inverters speaking a Modbus-derived binary TCP
//! protocol and their downstream consumers: an MQTT broker, time-series and
//! relational stores, and a cron-driven scheduler.
//!
//! This crate holds the verified core: the frame codec with its round-trip
//! law, the reply-matching and pacing rules of the inverter session, the
//! command primitives with read-only enforcement, the register cache, the
//! MQTT command grammar, and the coordinator that ties them together over a
//! model of the broadcast channel fabric. The process around it -- sockets,
//! tasks, the configuration file -- lives outside and drives these pieces.

pub mod channels;
pub mod codec;
pub mod command;
pub mod config;
pub mod coordinator;
pub mod error;
pub mod inverter;
pub mod kvlist;
pub mod mqtt;
pub mod packet;
pub mod register_cache;
pub mod scheduler;
pub mod serial;
pub mod text;

pub use error::Error;
pub use serial::Serial;
