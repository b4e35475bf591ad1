//! The OCPP 1.6 message generator: one operation per charge-point-originated
//! action, each producing a ready-to-send Call frame with its payload pinned
//! down field by field, and recording the outbound message id in the
//! session's correlation table.

use vstd::prelude::*;
use crate::codec::{RawFrame, RawFrameV};
use crate::correlation::SharedState;
use crate::json::{Json, JsonV, json_view, member_views_of, lemma_member_views_of, views_of,
    lemma_views_of};
use crate::mock_data::{MeterReadings, meter_value_obj, meter_value_json};
use crate::msg_generator::{MessageGeneratorConfig, MessageGeneratorConfigV};
use crate::types::CommonConnectorStatusType;
use crate::v1_6::{OcppAction, action_name};

verus! {

/// The `BootNotification.req` payload: the charge point's model and vendor.
pub open spec fn boot_notification_payload(cfg: MessageGeneratorConfigV) -> JsonV {
    JsonV::Obj(
        seq![
            ("chargePointModel"@, JsonV::Str(cfg.model)),
            ("chargePointVendor"@, JsonV::Str(cfg.vendor)),
        ],
    )
}

/// The `Heartbeat.req` payload: empty.
pub open spec fn heartbeat_payload() -> JsonV {
    JsonV::Obj(Seq::empty())
}

/// The `Authorize.req` payload: the id tag.
pub open spec fn authorize_payload(cfg: MessageGeneratorConfigV) -> JsonV {
    JsonV::Obj(seq![("idTag"@, JsonV::Str(cfg.id_tag))])
}

/// The `StartTransaction.req` payload: connector 1, the id tag, a meter
/// start of zero and the timestamp.
pub open spec fn start_transaction_payload(cfg: MessageGeneratorConfigV, ts: Seq<char>) -> JsonV {
    JsonV::Obj(
        seq![
            ("connectorId"@, JsonV::Int(1)),
            ("idTag"@, JsonV::Str(cfg.id_tag)),
            ("meterStart"@, JsonV::Int(0)),
            ("timestamp"@, JsonV::Str(ts)),
        ],
    )
}

/// The `StopTransaction.req` payload: the id tag, a meter stop of ten, the
/// timestamp, and the transaction id being closed.
pub open spec fn stop_transaction_payload(
    cfg: MessageGeneratorConfigV,
    transaction_id: int,
    ts: Seq<char>,
) -> JsonV {
    JsonV::Obj(
        seq![
            ("idTag"@, JsonV::Str(cfg.id_tag)),
            ("meterStop"@, JsonV::Int(10)),
            ("timestamp"@, JsonV::Str(ts)),
            ("transactionId"@, JsonV::Int(transaction_id)),
        ],
    )
}

/// The `StatusNotification.req` payload: connector 1, no error, the status
/// in its 1.6 wire form, and the timestamp.
pub open spec fn status_notification_payload(
    status: CommonConnectorStatusType,
    ts: Seq<char>,
) -> JsonV {
    JsonV::Obj(
        seq![
            ("connectorId"@, JsonV::Int(1)),
            ("errorCode"@, JsonV::Str("NoError"@)),
            ("status"@, JsonV::Str(status.spec_v16_name())),
            ("timestamp"@, JsonV::Str(ts)),
        ],
    )
}

/// The `MeterValues.req` payload: connector 1, the transaction id, and one
/// meter value holding the mock reading set.
pub open spec fn meter_values_payload(
    transaction_id: int,
    ts: Seq<char>,
    readings: MeterReadings,
) -> JsonV {
    JsonV::Obj(
        seq![
            ("connectorId"@, JsonV::Int(1)),
            ("transactionId"@, JsonV::Int(transaction_id)),
            ("meterValue"@, JsonV::Arr(seq![meter_value_obj(ts, readings)])),
        ],
    )
}

/// The `DiagnosticsStatusNotification.req` payload: status `Uploaded`.
pub open spec fn diagnostics_status_payload() -> JsonV {
    JsonV::Obj(seq![("status"@, JsonV::Str("Uploaded"@))])
}

/// The `FirmwareStatusNotification.req` payload: status `Installed`.
pub open spec fn firmware_status_payload() -> JsonV {
    JsonV::Obj(seq![("status"@, JsonV::Str("Installed"@))])
}

/// The `DataTransfer.req` payload: the vendor id.
pub open spec fn data_transfer_payload(cfg: MessageGeneratorConfigV) -> JsonV {
    JsonV::Obj(seq![("vendorId"@, JsonV::Str(cfg.vendor))])
}

/// What every generator operation guarantees: the returned frame is a Call
/// for `action` carrying `payload`, under a message id that was not pending
/// before and is pending, mapped to `action`, afterwards.
pub open spec fn generated_call(
    pre: SharedState<OcppAction>,
    post: SharedState<OcppAction>,
    r: RawFrameV,
    action: OcppAction,
    payload: JsonV,
) -> bool {
    &&& r matches RawFrameV::Call { msg_id, action: a, payload: p } && a == action_name(action)
        && p == payload && !pre.pending().contains_key(msg_id) && post.pending()
        == pre.pending().insert(msg_id, action)
    &&& post.wf()
    &&& post.spec_transaction_id() == pre.spec_transaction_id()
    &&& pre.spec_next_id() <= post.spec_next_id() <= pre.spec_next_id() + 1
}

/// Registers a fresh message id for `action` and wraps `payload` in a Call
/// frame.
fn build_call(shared: &mut SharedState<OcppAction>, action: OcppAction, payload: Json) -> (r:
    RawFrame)
    requires
        old(shared).wf(),
        old(shared).spec_next_id() < u64::MAX,
    ensures
        generated_call(*old(shared), *final(shared), r@, action, json_view(payload)),
{
    let msg_id = shared.register(action);
    RawFrame::Call { msg_id, action: action.wire_name().to_owned(), payload }
}

/// The OCPP 1.6 message generator; it holds the charge point's identity and
/// works against the session's correlation table.
pub struct MessageGenerator {
    pub config: MessageGeneratorConfig,
}

impl MessageGenerator {
    /// A generator for a charge point with this identity.
    pub fn new(config: MessageGeneratorConfig) -> (r: MessageGenerator)
        ensures
            r.config@ == config@,
    {
        MessageGenerator { config }
    }

    /// The `BootNotification` Call.
    pub fn boot_notification(&self, shared: &mut SharedState<OcppAction>) -> (r: RawFrame)
        requires
            old(shared).wf(),
            old(shared).spec_next_id() < u64::MAX,
        ensures
            generated_call(
                *old(shared),
                *final(shared),
                r@,
                OcppAction::BootNotification,
                boot_notification_payload(self.config@),
            ),
    {
        let mut members: Vec<(String, Json)> = Vec::new();
        members.push((String::from_str("chargePointModel"), Json::Str(self.config.model.clone())));
        members.push((String::from_str("chargePointVendor"), Json::Str(self.config.vendor.clone())));
        let payload = Json::Obj(members);
        proof {
            lemma_member_views_of(payload->Obj_0@);
            let mv = member_views_of(payload->Obj_0@);
            assert(payload->Obj_0@.len() == 2);
            assert(mv[0] == ("chargePointModel"@, JsonV::Str(self.config.model@)));
            assert(mv[1] == ("chargePointVendor"@, JsonV::Str(self.config.vendor@)));
            assert(mv =~= boot_notification_payload(self.config@)->Obj_0);
            assert(json_view(payload) == JsonV::Obj(mv));
            assert(json_view(payload) =~~= boot_notification_payload(self.config@));
        }
        build_call(shared, OcppAction::BootNotification, payload)
    }

    /// The `Heartbeat` Call.
    pub fn heartbeat(&self, shared: &mut SharedState<OcppAction>) -> (r: RawFrame)
        requires
            old(shared).wf(),
            old(shared).spec_next_id() < u64::MAX,
        ensures
            generated_call(
                *old(shared),
                *final(shared),
                r@,
                OcppAction::Heartbeat,
                heartbeat_payload(),
            ),
    {
        let payload = Json::Obj(Vec::new());
        proof {
            assert(member_views_of(payload->Obj_0@) =~= Seq::<(Seq<char>, JsonV)>::empty());
            assert(json_view(payload) == heartbeat_payload());
        }
        build_call(shared, OcppAction::Heartbeat, payload)
    }

    /// The `Authorize` Call.
    pub fn authorize(&self, shared: &mut SharedState<OcppAction>) -> (r: RawFrame)
        requires
            old(shared).wf(),
            old(shared).spec_next_id() < u64::MAX,
        ensures
            generated_call(
                *old(shared),
                *final(shared),
                r@,
                OcppAction::Authorize,
                authorize_payload(self.config@),
            ),
    {
        let mut members: Vec<(String, Json)> = Vec::new();
        members.push((String::from_str("idTag"), Json::Str(self.config.id_tag.clone())));
        let payload = Json::Obj(members);
        proof {
            lemma_member_views_of(payload->Obj_0@);
            let mv = member_views_of(payload->Obj_0@);
            assert(payload->Obj_0@.len() == 1);
            assert(mv[0] == ("idTag"@, JsonV::Str(self.config.id_tag@)));
            assert(mv =~= authorize_payload(self.config@)->Obj_0);
            assert(json_view(payload) == JsonV::Obj(mv));
        }
        build_call(shared, OcppAction::Authorize, payload)
    }

    /// The `StartTransaction` Call, timestamped with `ts`.
    pub fn start_transaction(&self, shared: &mut SharedState<OcppAction>, ts: &str) -> (r:
        RawFrame)
        requires
            old(shared).wf(),
            old(shared).spec_next_id() < u64::MAX,
        ensures
            generated_call(
                *old(shared),
                *final(shared),
                r@,
                OcppAction::StartTransaction,
                start_transaction_payload(self.config@, ts@),
            ),
    {
        let mut members: Vec<(String, Json)> = Vec::new();
        members.push((String::from_str("connectorId"), Json::Int(1)));
        members.push((String::from_str("idTag"), Json::Str(self.config.id_tag.clone())));
        members.push((String::from_str("meterStart"), Json::Int(0)));
        members.push((String::from_str("timestamp"), Json::Str(ts.to_owned())));
        let payload = Json::Obj(members);
        proof {
            lemma_member_views_of(payload->Obj_0@);
            let mv = member_views_of(payload->Obj_0@);
            assert(payload->Obj_0@.len() == 4);
            assert(mv[0] == ("connectorId"@, JsonV::Int(1)));
            assert(mv[1] == ("idTag"@, JsonV::Str(self.config.id_tag@)));
            assert(mv[2] == ("meterStart"@, JsonV::Int(0)));
            assert(mv[3] == ("timestamp"@, JsonV::Str(ts@)));
            assert(mv =~= start_transaction_payload(self.config@, ts@)->Obj_0);
            assert(json_view(payload) == JsonV::Obj(mv));
        }
        build_call(shared, OcppAction::StartTransaction, payload)
    }

    /// The `StopTransaction` Call, timestamped with `ts`; the transaction id
    /// is the one the CSMS assigned, or `1` when none ever arrived.
    #[verifier::rlimit(30)]
    pub fn stop_transaction(&self, shared: &mut SharedState<OcppAction>, ts: &str) -> (r: RawFrame)
        requires
            old(shared).wf(),
            old(shared).spec_next_id() < u64::MAX,
        ensures
            generated_call(
                *old(shared),
                *final(shared),
                r@,
                OcppAction::StopTransaction,
                stop_transaction_payload(
                    self.config@,
                    match old(shared).spec_transaction_id() {
                        Some(tid) => tid as int,
                        None => 1,
                    },
                    ts@,
                ),
            ),
    {
        let tid: i32 = match shared.get_transaction_id() {
            Some(t) => t,
            None => 1,
        };
        let mut members: Vec<(String, Json)> = Vec::new();
        members.push((String::from_str("idTag"), Json::Str(self.config.id_tag.clone())));
        members.push((String::from_str("meterStop"), Json::Int(10)));
        members.push((String::from_str("timestamp"), Json::Str(ts.to_owned())));
        members.push((String::from_str("transactionId"), Json::Int(tid as i64)));
        let payload = Json::Obj(members);
        proof {
            lemma_member_views_of(payload->Obj_0@);
            let mv = member_views_of(payload->Obj_0@);
            let tid_spec: int = match old(shared).spec_transaction_id() {
                Some(t) => t as int,
                None => 1,
            };
            assert(tid as int == tid_spec);
            assert(payload->Obj_0@.len() == 4);
            assert(mv[0] == ("idTag"@, JsonV::Str(self.config.id_tag@)));
            assert(mv[1] == ("meterStop"@, JsonV::Int(10)));
            assert(mv[2] == ("timestamp"@, JsonV::Str(ts@)));
            assert(mv[3] == ("transactionId"@, JsonV::Int(tid_spec)));
            assert(mv =~= stop_transaction_payload(self.config@, tid_spec, ts@)->Obj_0);
            assert(json_view(payload) == JsonV::Obj(mv));
        }
        build_call(shared, OcppAction::StopTransaction, payload)
    }

    /// The `StatusNotification` Call for `status`, timestamped with `ts`.
    pub fn status_notification(
        &self,
        shared: &mut SharedState<OcppAction>,
        status: CommonConnectorStatusType,
        ts: &str,
    ) -> (r: RawFrame)
        requires
            old(shared).wf(),
            old(shared).spec_next_id() < u64::MAX,
        ensures
            generated_call(
                *old(shared),
                *final(shared),
                r@,
                OcppAction::StatusNotification,
                status_notification_payload(status, ts@),
            ),
    {
        let mut members: Vec<(String, Json)> = Vec::new();
        members.push((String::from_str("connectorId"), Json::Int(1)));
        members.push((String::from_str("errorCode"), Json::Str(String::from_str("NoError"))));
        members.push((String::from_str("status"), Json::Str(status.v16_name().to_owned())));
        members.push((String::from_str("timestamp"), Json::Str(ts.to_owned())));
        let payload = Json::Obj(members);
        proof {
            lemma_member_views_of(payload->Obj_0@);
            let mv = member_views_of(payload->Obj_0@);
            assert(payload->Obj_0@.len() == 4);
            assert(mv[0] == ("connectorId"@, JsonV::Int(1)));
            assert(mv[1] == ("errorCode"@, JsonV::Str("NoError"@)));
            assert(mv[2] == ("status"@, JsonV::Str(status.spec_v16_name())));
            assert(mv[3] == ("timestamp"@, JsonV::Str(ts@)));
            assert(mv =~= status_notification_payload(status, ts@)->Obj_0);
            assert(json_view(payload) == JsonV::Obj(mv));
        }
        build_call(shared, OcppAction::StatusNotification, payload)
    }

    /// The `MeterValues` Call for one mock reading set, timestamped with
    /// `ts` — but only when a transaction id has been assigned: without one
    /// no `MeterValues` frame is produced.
    #[verifier::rlimit(50)]
    pub fn meter_values(
        &self,
        shared: &mut SharedState<OcppAction>,
        readings: &MeterReadings,
        ts: &str,
    ) -> (r: Option<RawFrame>)
        requires
            old(shared).wf(),
            old(shared).spec_next_id() < u64::MAX,
            readings.wf(),
        ensures
            match r {
                Some(f) => old(shared).spec_transaction_id() matches Some(tid) && generated_call(
                    *old(shared),
                    *final(shared),
                    f@,
                    OcppAction::MeterValues,
                    meter_values_payload(tid as int, ts@, *readings),
                ),
                None => old(shared).spec_transaction_id() is None && *final(shared) == *old(
                    shared,
                ),
            },
    {
        let tid: i32 = match shared.get_transaction_id() {
            Some(t) => t,
            None => {
                return None;
            }
        };
        let mv = meter_value_json(ts, readings);
        let mut members: Vec<(String, Json)> = Vec::new();
        members.push((String::from_str("connectorId"), Json::Int(1)));
        members.push((String::from_str("transactionId"), Json::Int(tid as i64)));
        members.push((String::from_str("meterValue"), Json::Arr(vec![mv])));
        let payload = Json::Obj(members);
        proof {
            lemma_views_of(payload->Obj_0@[2].1->Arr_0@);
            assert(views_of(payload->Obj_0@[2].1->Arr_0@) =~= seq![meter_value_obj(ts@, *readings)]);
            lemma_member_views_of(payload->Obj_0@);
            let mv = member_views_of(payload->Obj_0@);
            assert(payload->Obj_0@.len() == 3);
            assert(mv[0] == ("connectorId"@, JsonV::Int(1)));
            assert(mv[1] == ("transactionId"@, JsonV::Int(tid as int)));
            assert(mv[2] == ("meterValue"@, JsonV::Arr(seq![meter_value_obj(ts@, *readings)])));
            assert(mv =~= meter_values_payload(tid as int, ts@, *readings)->Obj_0);
            assert(json_view(payload) == JsonV::Obj(mv));
        }
        Some(build_call(shared, OcppAction::MeterValues, payload))
    }

    /// The `DiagnosticsStatusNotification` Call.
    pub fn diagnostics_status_notification(&self, shared: &mut SharedState<OcppAction>) -> (r:
        RawFrame)
        requires
            old(shared).wf(),
            old(shared).spec_next_id() < u64::MAX,
        ensures
            generated_call(
                *old(shared),
                *final(shared),
                r@,
                OcppAction::DiagnosticsStatusNotification,
                diagnostics_status_payload(),
            ),
    {
        let mut members: Vec<(String, Json)> = Vec::new();
        members.push((String::from_str("status"), Json::Str(String::from_str("Uploaded"))));
        let payload = Json::Obj(members);
        proof {
            lemma_member_views_of(payload->Obj_0@);
            let mv = member_views_of(payload->Obj_0@);
            assert(payload->Obj_0@.len() == 1);
            assert(mv[0] == ("status"@, JsonV::Str("Uploaded"@)));
            assert(mv =~= diagnostics_status_payload()->Obj_0);
            assert(json_view(payload) == JsonV::Obj(mv));
        }
        build_call(shared, OcppAction::DiagnosticsStatusNotification, payload)
    }

    /// The `FirmwareStatusNotification` Call.
    pub fn firmware_status_notification(&self, shared: &mut SharedState<OcppAction>) -> (r:
        RawFrame)
        requires
            old(shared).wf(),
            old(shared).spec_next_id() < u64::MAX,
        ensures
            generated_call(
                *old(shared),
                *final(shared),
                r@,
                OcppAction::FirmwareStatusNotification,
                firmware_status_payload(),
            ),
    {
        let mut members: Vec<(String, Json)> = Vec::new();
        members.push((String::from_str("status"), Json::Str(String::from_str("Installed"))));
        let payload = Json::Obj(members);
        proof {
            lemma_member_views_of(payload->Obj_0@);
            let mv = member_views_of(payload->Obj_0@);
            assert(payload->Obj_0@.len() == 1);
            assert(mv[0] == ("status"@, JsonV::Str("Installed"@)));
            assert(mv =~= firmware_status_payload()->Obj_0);
            assert(json_view(payload) == JsonV::Obj(mv));
        }
        build_call(shared, OcppAction::FirmwareStatusNotification, payload)
    }

    /// The `DataTransfer` Call.
    pub fn data_transfer(&self, shared: &mut SharedState<OcppAction>) -> (r: RawFrame)
        requires
            old(shared).wf(),
            old(shared).spec_next_id() < u64::MAX,
        ensures
            generated_call(
                *old(shared),
                *final(shared),
                r@,
                OcppAction::DataTransfer,
                data_transfer_payload(self.config@),
            ),
    {
        let mut members: Vec<(String, Json)> = Vec::new();
        members.push((String::from_str("vendorId"), Json::Str(self.config.vendor.clone())));
        let payload = Json::Obj(members);
        proof {
            lemma_member_views_of(payload->Obj_0@);
            let mv = member_views_of(payload->Obj_0@);
            assert(payload->Obj_0@.len() == 1);
            assert(mv[0] == ("vendorId"@, JsonV::Str(self.config.vendor@)));
            assert(mv =~= data_transfer_payload(self.config@)->Obj_0);
            assert(json_view(payload) == JsonV::Obj(mv));
        }
        build_call(shared, OcppAction::DataTransfer, payload)
    }
}

} // verus!
