//! A library for simulating a fleet of OCPP charge points against a CSMS:
//! the JSON wire codec, the per-version action catalogs, the message
//! generators and handlers, the per-session state machines, and the fleet
//! configuration expansion.

pub mod clock;
pub mod codec;
pub mod config;
pub mod cp;
pub mod correlation;
pub mod json;
pub mod json_parse;
pub mod mock_data;
pub mod msg_generator;
pub mod simulator;
pub mod strutil;
pub mod types;
pub mod v1_6;
pub mod v2_0_1;
pub mod v2_1;
pub mod version;
