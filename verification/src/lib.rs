//! Publishes the readings of an electricity meter to an MQTT broker, in the
//! form that Home Assistant's discovery expects.
//!
//! The library decides what is sent and when; it never touches the network.
//! `MeterPublisher` gives the requests for the transport, `protocol` says how
//! an operation goes on from each answer, and `config` reads the
//! configuration.

pub mod config;
pub mod decimal;
pub mod digits;
pub mod discovery;
pub mod encoding;
pub mod message;
pub mod meter;
pub mod payload;
pub mod poll;
pub mod protocol;
pub mod publisher;
mod text;
pub mod topics;

pub use config::{options_from_members, parse_args, read_config, Options};
pub use discovery::{Device, Discovery, Sensor};
pub use message::{Message, QOS_AT_MOST_ONCE};
pub use meter::{parse_data, Decimal, MeterValues};
pub use payload::state_payload;
pub use protocol::{
    ConnectOptions, ConnectOutcome, Dispatch, LinkCheck, Reconnection, Request, KEEP_ALIVE_SECS,
};
pub use poll::{publish_report, read_loop, POLL_INTERVAL_SECS};
pub use publisher::{Connecting, MeterPublisher};
pub use topics::Topics;
