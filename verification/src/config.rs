//! The typed configuration records a fleet run consumes: general settings,
//! explicit charge point definitions, and the implicit template a fleet can
//! be synthesized from.

use vstd::prelude::*;
use crate::version::OcppVersion;

verus! {

/// The template for synthesizing charge points at runtime: how many, the id
/// prefix, and a uniform-random range for each interval.
pub struct ImplicitChargePointConfig {
    pub count: usize,
    pub prefix: String,
    pub boot_delay_range: [u64; 2],
    pub heartbeat_interval_range: [u64; 2],
    pub status_interval_range: [u64; 2],
    pub start_tx_after_range: [u64; 2],
    pub stop_tx_after_range: [u64; 2],
    pub id_tags: Vec<String>,
}

/// Fleet-wide settings.
pub struct GeneralConfig {
    pub debug_mode: bool,
    pub server_url: String,
    pub ocpp_version: OcppVersion,
}

/// One charge point's settings: its identity, the authorization header it
/// presents, and its timing intervals, in the units the session engine uses
/// (milliseconds for the boot delay, seconds for the rest).
pub struct ChargePointConfig {
    pub id: String,
    pub auth_header: String,
    pub boot_delay_interval: u64,
    pub heartbeat_interval: u64,
    pub status_interval: u64,
    pub start_tx_after: u64,
    pub stop_tx_after: u64,
    pub id_tags: Vec<String>,
}

/// A complete fleet configuration.
pub struct Config {
    pub general: GeneralConfig,
    pub charge_points: Option<Vec<ChargePointConfig>>,
    pub implicit_charge_points: Option<ImplicitChargePointConfig>,
}

} // verus!
