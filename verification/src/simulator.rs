//! The fleet supervisor's decision core: the behavior mode, and the
//! expansion of a configuration into the full list of charge points to run.
//!
//! The runner spawns one session task per returned charge point; how many
//! there are and what ids they carry is pinned down here.

use vstd::prelude::*;
use crate::config::{ChargePointConfig, Config, ImplicitChargePointConfig};
use crate::json::dec_rep;
use crate::mock_data::random_u64_inclusive;
use crate::strutil::push_char;

verus! {

/// Which engine a fleet run uses.
#[derive(Clone, Copy, Debug, PartialEq, Eq, Structural)]
pub enum BehaviorMode {
    Dynamic,
    Idle,
}

impl BehaviorMode {
    /// A one-line account of the mode.
    pub fn description(&self) -> (r: String)
        ensures
            (self is Idle ==> r@ == "Mode Idle waits on commands from a CSMS"@),
            (self is Dynamic ==> r@
                == "Mode Dynamic sends messages immediately after initialization"@),
    {
        match self {
            BehaviorMode::Idle => String::from_str("Mode Idle waits on commands from a CSMS"),
            BehaviorMode::Dynamic => String::from_str(
                "Mode Dynamic sends messages immediately after initialization",
            ),
        }
    }
}

/// This many zero characters.
pub open spec fn zeros(k: int) -> Seq<char>
    decreases k,
{
    if k <= 0 {
        Seq::empty()
    } else {
        zeros(k - 1).push('0')
    }
}

/// A number in decimal, zero-padded on the left to at least six digits.
pub open spec fn zpad6(n: int) -> Seq<char> {
    zeros(6 - dec_rep(n).len()) + dec_rep(n)
}

/// Prints `n` in decimal, zero-padded to at least six digits.
pub fn format_zpad6(n: u64) -> (r: String)
    ensures
        r@ == zpad6(n as int),
{
    let mut ds = String::new();
    crate::json::write_u64_dec(n, &mut ds);
    let len = ds.as_str().unicode_len();
    let mut out = String::new();
    if len < 6 {
        let mut k: usize = 0;
        while k < 6 - len
            invariant
                len < 6,
                k <= 6 - len,
                out@ == zeros(k as int),
            decreases 6 - len - k,
        {
            push_char(&mut out, '0');
            k = k + 1;
        }
    }
    assert(out@ == zeros(6 - dec_rep(n as int).len()));
    out.append(ds.as_str());
    out
}

/// Every interval of a synthesized charge point lies in its configured
/// range, its authorization header is empty, and it carries the template's
/// id tags, one for one.
pub open spec fn implicit_cp_ok(cp: ChargePointConfig, cfg: ImplicitChargePointConfig) -> bool {
    &&& cfg.boot_delay_range[0] <= cp.boot_delay_interval <= cfg.boot_delay_range[1]
    &&& cfg.heartbeat_interval_range[0] <= cp.heartbeat_interval
        <= cfg.heartbeat_interval_range[1]
    &&& cfg.status_interval_range[0] <= cp.status_interval <= cfg.status_interval_range[1]
    &&& cfg.start_tx_after_range[0] <= cp.start_tx_after <= cfg.start_tx_after_range[1]
    &&& cfg.stop_tx_after_range[0] <= cp.stop_tx_after <= cfg.stop_tx_after_range[1]
    &&& cp.auth_header@ == Seq::<char>::empty()
    &&& cp.id_tags@.len() == cfg.id_tags@.len()
    &&& (forall|t: int| 0 <= t < cfg.id_tags@.len() ==> cp.id_tags@[t]@ == cfg.id_tags@[t]@)
}

/// The ranges of an implicit template are usable: each low bound at most
/// its high bound.
pub open spec fn ranges_ok(cfg: ImplicitChargePointConfig) -> bool {
    &&& cfg.boot_delay_range[0] <= cfg.boot_delay_range[1]
    &&& cfg.heartbeat_interval_range[0] <= cfg.heartbeat_interval_range[1]
    &&& cfg.status_interval_range[0] <= cfg.status_interval_range[1]
    &&& cfg.start_tx_after_range[0] <= cfg.start_tx_after_range[1]
    &&& cfg.stop_tx_after_range[0] <= cfg.stop_tx_after_range[1]
}

/// The fleet supervisor's decision core.
pub struct Simulator {
    pub mode: BehaviorMode,
    pub config: Config,
}

impl Simulator {
    /// A supervisor for this mode and configuration.
    pub fn new(mode: BehaviorMode, config: Config) -> (r: Simulator)
        ensures
            r.mode == mode,
            r.config == config,
    {
        Simulator { mode, config }
    }

    /// Synthesizes the implicit charge points: exactly `count` of them, the
    /// id of the `i`-th being the prefix followed by `i` zero-padded to six
    /// digits, with every interval drawn uniformly from its range.
    pub fn generate_implicit_cps(cfg: &ImplicitChargePointConfig) -> (r: Vec<ChargePointConfig>)
        requires
            ranges_ok(*cfg),
        ensures
            r@.len() == cfg.count,
            forall|i: int| 0 <= i < r@.len() ==> (#[trigger] r@[i]).id@ == cfg.prefix@ + zpad6(i),
            forall|i: int| 0 <= i < r@.len() ==> implicit_cp_ok(#[trigger] r@[i], *cfg),
    {
        let mut r: Vec<ChargePointConfig> = Vec::new();
        let mut i: usize = 0;
        while i < cfg.count
            invariant
                ranges_ok(*cfg),
                i <= cfg.count,
                r@.len() == i,
                forall|k: int| 0 <= k < r@.len() ==> (#[trigger] r@[k]).id@ == cfg.prefix@ + zpad6(
                    k,
                ),
                forall|k: int| 0 <= k < r@.len() ==> implicit_cp_ok(#[trigger] r@[k], *cfg),
            decreases cfg.count - i,
        {
            let mut id = cfg.prefix.clone();
            id.append(format_zpad6(i as u64).as_str());
            let cp = ChargePointConfig {
                id,
                auth_header: String::new(),
                boot_delay_interval: random_u64_inclusive(
                    cfg.boot_delay_range[0],
                    cfg.boot_delay_range[1],
                ),
                heartbeat_interval: random_u64_inclusive(
                    cfg.heartbeat_interval_range[0],
                    cfg.heartbeat_interval_range[1],
                ),
                status_interval: random_u64_inclusive(
                    cfg.status_interval_range[0],
                    cfg.status_interval_range[1],
                ),
                start_tx_after: random_u64_inclusive(
                    cfg.start_tx_after_range[0],
                    cfg.start_tx_after_range[1],
                ),
                stop_tx_after: random_u64_inclusive(
                    cfg.stop_tx_after_range[0],
                    cfg.stop_tx_after_range[1],
                ),
                id_tags: crate::strutil::clone_strings(&cfg.id_tags),
            };
            r.push(cp);
            i = i + 1;
        }
        r
    }

    /// The full list of charge points a run starts: the explicit ones in
    /// their configured order, then the synthesized ones.  With an implicit
    /// template for `N` more, exactly `N` plus the number of explicit
    /// definitions come back.
    pub fn expand_charge_points(self) -> (r: Vec<ChargePointConfig>)
        requires
            self.config.implicit_charge_points matches Some(icfg) ==> ranges_ok(icfg),
        ensures
            r@.len() == (match self.config.charge_points {
                Some(v) => v@.len(),
                None => 0,
            }) + (match self.config.implicit_charge_points {
                Some(icfg) => icfg.count as int,
                None => 0,
            }),
            self.config.implicit_charge_points matches Some(icfg) ==> {
                let base = r@.len() - icfg.count;
                forall|i: int| 0 <= i < icfg.count ==> (#[trigger] r@[base + i]).id@
                    == icfg.prefix@ + zpad6(i) && implicit_cp_ok(r@[base + i], icfg)
            },
    {
        let mut all: Vec<ChargePointConfig> = match self.config.charge_points {
            Some(v) => v,
            None => Vec::new(),
        };
        let ghost n_explicit = all@.len();
        match self.config.implicit_charge_points {
            Some(icfg) => {
                let mut generated = Simulator::generate_implicit_cps(&icfg);
                let ghost gv = generated@;
                all.append(&mut generated);
                proof {
                    assert forall|i: int| 0 <= i < icfg.count implies ((#[trigger] all@[
                        n_explicit + i]).id@ == icfg.prefix@ + zpad6(i) && implicit_cp_ok(
                        all@[n_explicit + i],
                        icfg,
                    )) by {
                        assert(all@[n_explicit + i] == gv[i]);
                    }
                }
                all
            }
            None => all,
        }
    }
}

} // verus!
