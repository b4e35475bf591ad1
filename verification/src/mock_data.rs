//! Mock electrical measurements for `MeterValues`: a consistent three-phase
//! reading set with currents, a cumulative energy register, voltages, and
//! powers computed from voltage and current.
//!
//! All quantities are held in integer milli-units (milliamps, millivolts,
//! milliwatt-hours, milli-kilowatts) and printed with three decimal digits,
//! so the wire format matches readings formatted to three decimals.

use vstd::prelude::*;
use crate::json::{Json, JsonV, json_view, dec_rep, dec_digit, write_u64_dec, member_views_of,
    lemma_member_views_of, views_of, lemma_views_of};
use crate::strutil::push_char;

verus! {

/// Relies on `rand::random_range` over an inclusive `u64` range: a sample
/// drawn between the bounds; it panics only on an empty range, which the
/// precondition rules out.  Nothing links one draw to the next.
#[verifier::external_body]
pub(crate) fn random_u64_inclusive(lo: u64, hi: u64) -> (r: u64)
    requires
        lo <= hi,
    ensures
        lo <= r <= hi,
{
    rand::random_range(lo..=hi)
}

/// A type that can produce a plausible random instance of itself.
pub trait MockData: Sized {
    fn mock_data() -> Self;
}

/// One drawn set of three-phase readings, in milli-units.
#[derive(Clone, Copy, Debug, PartialEq, Eq, Structural)]
pub struct MeterReadings {
    pub current_l1_ma: u64,
    pub current_l2_ma: u64,
    pub current_l3_ma: u64,
    pub voltage_l1_mv: u64,
    pub voltage_l2_mv: u64,
    pub voltage_l3_mv: u64,
    pub energy_mwh: u64,
}

impl MeterReadings {
    /// The plausible ranges: currents of 5 to 32 amps, voltages of 220 to
    /// 240 volts, an energy register between 1 and 50 kilowatt-hours.
    pub open spec fn wf(self) -> bool {
        &&& 5000 <= self.current_l1_ma <= 32000
        &&& 5000 <= self.current_l2_ma <= 32000
        &&& 5000 <= self.current_l3_ma <= 32000
        &&& 220000 <= self.voltage_l1_mv <= 240000
        &&& 220000 <= self.voltage_l2_mv <= 240000
        &&& 220000 <= self.voltage_l3_mv <= 240000
        &&& 1000000 <= self.energy_mwh <= 50000000
    }

    /// Draws one reading set, each quantity uniform in its range.
    pub fn sample() -> (r: MeterReadings)
        ensures
            r.wf(),
    {
        MeterReadings {
            current_l1_ma: random_u64_inclusive(5000, 31999),
            current_l2_ma: random_u64_inclusive(5000, 31999),
            current_l3_ma: random_u64_inclusive(5000, 31999),
            voltage_l1_mv: random_u64_inclusive(220000, 239999),
            voltage_l2_mv: random_u64_inclusive(220000, 239999),
            voltage_l3_mv: random_u64_inclusive(220000, 239999),
            energy_mwh: random_u64_inclusive(1000000, 49999999),
        }
    }
}

impl MockData for MeterReadings {
    fn mock_data() -> Self {
        MeterReadings::sample()
    }
}

/// A milli-unit quantity printed with three decimal digits: the whole part,
/// a dot, and the thousandths zero-padded to width three.
pub open spec fn milli_text(n: int) -> Seq<char>
    recommends
        n >= 0,
{
    dec_rep(n / 1000) + seq![
        '.',
        dec_digit((n % 1000) / 100),
        dec_digit(((n % 1000) / 10) % 10),
        dec_digit(n % 10),
    ]
}

/// Prints a milli-unit quantity with three decimal digits.
pub fn format_milli(n: u64) -> (r: String)
    ensures
        r@ == milli_text(n as int),
{
    let mut out = String::new();
    write_u64_dec(n / 1000, &mut out);
    push_char(&mut out, '.');
    let frac = n % 1000;
    push_char(&mut out, crate::json::dec_digit_char(frac / 100));
    push_char(&mut out, crate::json::dec_digit_char((frac / 10) % 10));
    push_char(&mut out, crate::json::dec_digit_char(frac % 10));
    proof {
        assert((n % 1000) % 10 == n % 10) by {
            vstd::arithmetic::div_mod::lemma_mod_mod(n as int, 10, 100);
        }
        assert(out@ =~= milli_text(n as int));
    }
    out
}

/// One entry of the `sampledValue` list: the reading's formatted value with
/// the fixed context `Interruption.Begin`, format `Raw` and location
/// `Outlet`, its measurand, its phase when it has one, and its unit.
pub open spec fn sample_obj(
    value: Seq<char>,
    measurand: Seq<char>,
    phase: Option<Seq<char>>,
    unit: Seq<char>,
) -> JsonV {
    JsonV::Obj(
        match phase {
            Some(p) => seq![
                ("value"@, JsonV::Str(value)),
                ("context"@, JsonV::Str("Interruption.Begin"@)),
                ("format"@, JsonV::Str("Raw"@)),
                ("measurand"@, JsonV::Str(measurand)),
                ("phase"@, JsonV::Str(p)),
                ("location"@, JsonV::Str("Outlet"@)),
                ("unit"@, JsonV::Str(unit)),
            ],
            None => seq![
                ("value"@, JsonV::Str(value)),
                ("context"@, JsonV::Str("Interruption.Begin"@)),
                ("format"@, JsonV::Str("Raw"@)),
                ("measurand"@, JsonV::Str(measurand)),
                ("location"@, JsonV::Str("Outlet"@)),
                ("unit"@, JsonV::Str(unit)),
            ],
        },
    )
}

/// Builds one `sampledValue` entry.
fn sample_json(value: String, measurand: &str, phase: Option<&str>, unit: &str) -> (r: Json)
    ensures
        json_view(r) == sample_obj(
            value@,
            measurand@,
            match phase {
                Some(p) => Some(p@),
                None => None,
            },
            unit@,
        ),
{
    let ghost vv = value@;
    let mut members: Vec<(String, Json)> = Vec::new();
    members.push((String::from_str("value"), Json::Str(value)));
    members.push((String::from_str("context"), Json::Str(String::from_str("Interruption.Begin"))));
    members.push((String::from_str("format"), Json::Str(String::from_str("Raw"))));
    members.push((String::from_str("measurand"), Json::Str(measurand.to_owned())));
    match phase {
        Some(p) => {
            members.push((String::from_str("phase"), Json::Str(p.to_owned())));
        }
        None => {}
    }
    members.push((String::from_str("location"), Json::Str(String::from_str("Outlet"))));
    members.push((String::from_str("unit"), Json::Str(unit.to_owned())));
    let r = Json::Obj(members);
    proof {
        lemma_member_views_of(r->Obj_0@);
        match phase {
            Some(p) => {
                assert(member_views_of(r->Obj_0@) =~= sample_obj(
                    vv,
                    measurand@,
                    Some(p@),
                    unit@,
                )->Obj_0);
            }
            None => {
                assert(member_views_of(r->Obj_0@) =~= sample_obj(
                    vv,
                    measurand@,
                    None,
                    unit@,
                )->Obj_0);
            }
        }
    }
    r
}

/// The model of a reading set.
pub open spec fn power_mkw(v_mv: int, i_ma: int) -> int {
    v_mv * i_ma / 1000000
}

/// The complete `MeterValue` object for one reading set: the timestamp and
/// the ten sampled values, in the order current L1, L2, L3, the energy
/// register, power L1-N, L2-N, L3-N, then voltage L1-N, L2-N, L3-N.
#[verifier::opaque]
pub open spec fn meter_value_obj(ts: Seq<char>, r: MeterReadings) -> JsonV {
    JsonV::Obj(
        seq![
            ("timestamp"@, JsonV::Str(ts)),
            (
                "sampledValue"@,
                JsonV::Arr(
                    seq![
                        sample_obj(milli_text(r.current_l1_ma as int), "Current.Import"@, Some("L1"@), "A"@),
                        sample_obj(milli_text(r.current_l2_ma as int), "Current.Import"@, Some("L2"@), "A"@),
                        sample_obj(milli_text(r.current_l3_ma as int), "Current.Import"@, Some("L3"@), "A"@),
                        sample_obj(milli_text(r.energy_mwh as int), "Energy.Active.Import.Register"@, None, "Wh"@),
                        sample_obj(
                            milli_text(power_mkw(r.voltage_l1_mv as int, r.current_l1_ma as int)),
                            "Power.Active.Import"@,
                            Some("L1-N"@),
                            "kW"@,
                        ),
                        sample_obj(
                            milli_text(power_mkw(r.voltage_l2_mv as int, r.current_l2_ma as int)),
                            "Power.Active.Import"@,
                            Some("L2-N"@),
                            "kW"@,
                        ),
                        sample_obj(
                            milli_text(power_mkw(r.voltage_l3_mv as int, r.current_l3_ma as int)),
                            "Power.Active.Import"@,
                            Some("L3-N"@),
                            "kW"@,
                        ),
                        sample_obj(milli_text(r.voltage_l1_mv as int), "Voltage"@, Some("L1-N"@), "V"@),
                        sample_obj(milli_text(r.voltage_l2_mv as int), "Voltage"@, Some("L2-N"@), "V"@),
                        sample_obj(milli_text(r.voltage_l3_mv as int), "Voltage"@, Some("L3-N"@), "V"@),
                    ],
                ),
            ),
        ],
    )
}

/// Builds the `MeterValue` object for one reading set at `ts`.
pub fn meter_value_json(ts: &str, r: &MeterReadings) -> (j: Json)
    requires
        r.wf(),
    ensures
        json_view(j) == meter_value_obj(ts@, *r),
{
    proof {
        assert(r.voltage_l1_mv * r.current_l1_ma <= 240000 * 32000) by (nonlinear_arith)
            requires
                r.voltage_l1_mv <= 240000,
                r.current_l1_ma <= 32000,
        ;
        assert(r.voltage_l2_mv * r.current_l2_ma <= 240000 * 32000) by (nonlinear_arith)
            requires
                r.voltage_l2_mv <= 240000,
                r.current_l2_ma <= 32000,
        ;
        assert(r.voltage_l3_mv * r.current_l3_ma <= 240000 * 32000) by (nonlinear_arith)
            requires
                r.voltage_l3_mv <= 240000,
                r.current_l3_ma <= 32000,
        ;
    }
    let p1: u64 = r.voltage_l1_mv * r.current_l1_ma / 1000000;
    let p2: u64 = r.voltage_l2_mv * r.current_l2_ma / 1000000;
    let p3: u64 = r.voltage_l3_mv * r.current_l3_ma / 1000000;
    let mut samples: Vec<Json> = Vec::new();
    samples.push(sample_json(format_milli(r.current_l1_ma), "Current.Import", Some("L1"), "A"));
    samples.push(sample_json(format_milli(r.current_l2_ma), "Current.Import", Some("L2"), "A"));
    samples.push(sample_json(format_milli(r.current_l3_ma), "Current.Import", Some("L3"), "A"));
    samples.push(sample_json(format_milli(r.energy_mwh), "Energy.Active.Import.Register", None, "Wh"));
    samples.push(sample_json(format_milli(p1), "Power.Active.Import", Some("L1-N"), "kW"));
    samples.push(sample_json(format_milli(p2), "Power.Active.Import", Some("L2-N"), "kW"));
    samples.push(sample_json(format_milli(p3), "Power.Active.Import", Some("L3-N"), "kW"));
    samples.push(sample_json(format_milli(r.voltage_l1_mv), "Voltage", Some("L1-N"), "V"));
    samples.push(sample_json(format_milli(r.voltage_l2_mv), "Voltage", Some("L2-N"), "V"));
    samples.push(sample_json(format_milli(r.voltage_l3_mv), "Voltage", Some("L3-N"), "V"));
    let sampled = Json::Arr(samples);
    let mut members: Vec<(String, Json)> = Vec::new();
    members.push((String::from_str("timestamp"), Json::Str(ts.to_owned())));
    members.push((String::from_str("sampledValue"), sampled));
    let j = Json::Obj(members);
    proof {
        reveal(meter_value_obj);
        lemma_views_of(j->Obj_0@[1].1->Arr_0@);
        assert(views_of(j->Obj_0@[1].1->Arr_0@) =~= meter_value_obj(ts@, *r)->Obj_0[1].1->Arr_0);
        lemma_member_views_of(j->Obj_0@);
        assert(member_views_of(j->Obj_0@) =~= meter_value_obj(ts@, *r)->Obj_0);
    }
    j
}

} // verus!
