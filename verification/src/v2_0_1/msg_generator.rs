//! The OCPP 2.0.1 message generator: one operation per charge-point action,
//! each producing a Call frame with its payload pinned down field by field.

use vstd::prelude::*;
use crate::codec::{RawFrame, RawFrameV};
use crate::correlation::SharedState;
use crate::json::{Json, JsonV, json_view, member_views_of, lemma_member_views_of, views_of};
use crate::msg_generator::{MessageGeneratorConfig, MessageGeneratorConfigV};
use crate::types::CommonConnectorStatusType;
use crate::v2_0_1::{OcppAction, action_name};

verus! {

/// The `BootNotification` payload: the boot reason and the charging
/// station's model, vendor and firmware version.
pub open spec fn boot_notification_payload(cfg: MessageGeneratorConfigV) -> JsonV {
    JsonV::Obj(
        seq![
            ("reason"@, JsonV::Str("PowerUp"@)),
            (
                "chargingStation"@,
                JsonV::Obj(
                    seq![
                        ("model"@, JsonV::Str(cfg.model)),
                        ("vendorName"@, JsonV::Str(cfg.vendor)),
                        ("firmwareVersion"@, JsonV::Str("1.2.3"@)),
                    ],
                ),
            ),
        ],
    )
}

/// The `Heartbeat` payload: empty.
pub open spec fn heartbeat_payload() -> JsonV {
    JsonV::Obj(Seq::empty())
}

/// The `Authorize` payload: the id token with central type.
pub open spec fn authorize_payload(cfg: MessageGeneratorConfigV) -> JsonV {
    JsonV::Obj(
        seq![
            (
                "idToken"@,
                JsonV::Obj(
                    seq![("idToken"@, JsonV::Str(cfg.id_tag)), ("type"@, JsonV::Str("Central"@))],
                ),
            ),
        ],
    )
}

/// A `TransactionEvent` payload: the event type, timestamp, trigger
/// reason, sequence number one, and the fixed transaction id `42`.
pub open spec fn transaction_event_payload(
    event_type: Seq<char>,
    trigger: Seq<char>,
    ts: Seq<char>,
) -> JsonV {
    JsonV::Obj(
        seq![
            ("eventType"@, JsonV::Str(event_type)),
            ("timestamp"@, JsonV::Str(ts)),
            ("triggerReason"@, JsonV::Str(trigger)),
            ("seqNo"@, JsonV::Int(1)),
            ("transactionInfo"@, JsonV::Obj(seq![("transactionId"@, JsonV::Str("42"@))])),
        ],
    )
}

/// The `StatusNotification` payload: timestamp, the status in its 2.x wire
/// form, evse 1, connector 1.
pub open spec fn status_notification_payload(
    status: CommonConnectorStatusType,
    ts: Seq<char>,
) -> JsonV {
    JsonV::Obj(
        seq![
            ("timestamp"@, JsonV::Str(ts)),
            ("connectorStatus"@, JsonV::Str(status.spec_v2_name())),
            ("evseId"@, JsonV::Int(1)),
            ("connectorId"@, JsonV::Int(1)),
        ],
    )
}

/// The `MeterValues` payload: evse 1 and an empty meter value list.
pub open spec fn meter_values_payload() -> JsonV {
    JsonV::Obj(seq![("evseId"@, JsonV::Int(1)), ("meterValue"@, JsonV::Arr(Seq::empty()))])
}

/// The `FirmwareStatusNotification` payload: status `Installed`.
pub open spec fn firmware_status_payload() -> JsonV {
    JsonV::Obj(seq![("status"@, JsonV::Str("Installed"@))])
}

/// The `DataTransfer` payload: a test datum under the vendor id.
pub open spec fn data_transfer_payload(cfg: MessageGeneratorConfigV) -> JsonV {
    JsonV::Obj(seq![("data"@, JsonV::Str("test"@)), ("vendorId"@, JsonV::Str(cfg.vendor))])
}

/// What every generator operation guarantees: a Call for `action` carrying
/// `payload`, under a fresh message id now pending.
pub open spec fn generated_call(
    pre: SharedState<OcppAction>,
    post: SharedState<OcppAction>,
    r: RawFrameV,
    action: OcppAction,
    payload: JsonV,
) -> bool {
    &&& r matches RawFrameV::Call { msg_id, action: a, payload: p } && a == action_name(action)
        && p == payload && !pre.pending().contains_key(msg_id) && post.pending()
        == pre.pending().insert(msg_id, action)
    &&& post.wf()
    &&& post.spec_transaction_id() == pre.spec_transaction_id()
    &&& pre.spec_next_id() <= post.spec_next_id() <= pre.spec_next_id() + 1
}

/// Registers a fresh message id for `action` and wraps `payload` in a Call
/// frame.
fn build_call(shared: &mut SharedState<OcppAction>, action: OcppAction, payload: Json) -> (r:
    RawFrame)
    requires
        old(shared).wf(),
        old(shared).spec_next_id() < u64::MAX,
    ensures
        generated_call(*old(shared), *final(shared), r@, action, json_view(payload)),
{
    let msg_id = shared.register(action);
    RawFrame::Call { msg_id, action: action.wire_name().to_owned(), payload }
}

/// The OCPP 2.0.1 message generator.
pub struct V201MessageGenerator {
    pub config: MessageGeneratorConfig,
}

impl V201MessageGenerator {
    /// A generator for a charge point with this identity.
    pub fn new(config: MessageGeneratorConfig) -> (r: V201MessageGenerator)
        ensures
            r.config@ == config@,
    {
        V201MessageGenerator { config }
    }

    /// The `BootNotification` Call.
    pub fn boot_notification(&self, shared: &mut SharedState<OcppAction>) -> (r: RawFrame)
        requires
            old(shared).wf(),
            old(shared).spec_next_id() < u64::MAX,
        ensures
            generated_call(
                *old(shared),
                *final(shared),
                r@,
                OcppAction::BootNotification,
                boot_notification_payload(self.config@),
            ),
    {
        let mut station: Vec<(String, Json)> = Vec::new();
        station.push((String::from_str("model"), Json::Str(self.config.model.clone())));
        station.push((String::from_str("vendorName"), Json::Str(self.config.vendor.clone())));
        station.push((String::from_str("firmwareVersion"), Json::Str(String::from_str("1.2.3"))));
        let station = Json::Obj(station);
        proof {
            lemma_member_views_of(station->Obj_0@);
            let sv = member_views_of(station->Obj_0@);
            assert(sv =~= boot_notification_payload(self.config@)->Obj_0[1].1->Obj_0);
        }
        let mut members: Vec<(String, Json)> = Vec::new();
        members.push((String::from_str("reason"), Json::Str(String::from_str("PowerUp"))));
        members.push((String::from_str("chargingStation"), station));
        let payload = Json::Obj(members);
        proof {
            lemma_member_views_of(payload->Obj_0@);
            let mv = member_views_of(payload->Obj_0@);
            assert(mv =~= boot_notification_payload(self.config@)->Obj_0);
            assert(json_view(payload) == JsonV::Obj(mv));
        }
        build_call(shared, OcppAction::BootNotification, payload)
    }

    /// The `Heartbeat` Call.
    pub fn heartbeat(&self, shared: &mut SharedState<OcppAction>) -> (r: RawFrame)
        requires
            old(shared).wf(),
            old(shared).spec_next_id() < u64::MAX,
        ensures
            generated_call(
                *old(shared),
                *final(shared),
                r@,
                OcppAction::Heartbeat,
                heartbeat_payload(),
            ),
    {
        let payload = Json::Obj(Vec::new());
        proof {
            assert(member_views_of(payload->Obj_0@) =~= Seq::<(Seq<char>, JsonV)>::empty());
            assert(json_view(payload) == heartbeat_payload());
        }
        build_call(shared, OcppAction::Heartbeat, payload)
    }

    /// The `Authorize` Call.
    pub fn authorize(&self, shared: &mut SharedState<OcppAction>) -> (r: RawFrame)
        requires
            old(shared).wf(),
            old(shared).spec_next_id() < u64::MAX,
        ensures
            generated_call(
                *old(shared),
                *final(shared),
                r@,
                OcppAction::Authorize,
                authorize_payload(self.config@),
            ),
    {
        let mut token: Vec<(String, Json)> = Vec::new();
        token.push((String::from_str("idToken"), Json::Str(self.config.id_tag.clone())));
        token.push((String::from_str("type"), Json::Str(String::from_str("Central"))));
        let token = Json::Obj(token);
        proof {
            lemma_member_views_of(token->Obj_0@);
            assert(member_views_of(token->Obj_0@) =~= authorize_payload(
                self.config@,
            )->Obj_0[0].1->Obj_0);
        }
        let mut members: Vec<(String, Json)> = Vec::new();
        members.push((String::from_str("idToken"), token));
        let payload = Json::Obj(members);
        proof {
            lemma_member_views_of(payload->Obj_0@);
            let mv = member_views_of(payload->Obj_0@);
            assert(mv =~= authorize_payload(self.config@)->Obj_0);
            assert(json_view(payload) == JsonV::Obj(mv));
        }
        build_call(shared, OcppAction::Authorize, payload)
    }

    /// A `TransactionEvent` Call with this event type and trigger reason.
    fn transaction_event(
        &self,
        shared: &mut SharedState<OcppAction>,
        event_type: &str,
        trigger: &str,
        ts: &str,
    ) -> (r: RawFrame)
        requires
            old(shared).wf(),
            old(shared).spec_next_id() < u64::MAX,
        ensures
            generated_call(
                *old(shared),
                *final(shared),
                r@,
                OcppAction::TransactionEvent,
                transaction_event_payload(event_type@, trigger@, ts@),
            ),
    {
        let mut info: Vec<(String, Json)> = Vec::new();
        info.push((String::from_str("transactionId"), Json::Str(String::from_str("42"))));
        let info = Json::Obj(info);
        proof {
            lemma_member_views_of(info->Obj_0@);
            assert(member_views_of(info->Obj_0@) =~= transaction_event_payload(
                event_type@,
                trigger@,
                ts@,
            )->Obj_0[4].1->Obj_0);
        }
        let mut members: Vec<(String, Json)> = Vec::new();
        members.push((String::from_str("eventType"), Json::Str(event_type.to_owned())));
        members.push((String::from_str("timestamp"), Json::Str(ts.to_owned())));
        members.push((String::from_str("triggerReason"), Json::Str(trigger.to_owned())));
        members.push((String::from_str("seqNo"), Json::Int(1)));
        members.push((String::from_str("transactionInfo"), info));
        let payload = Json::Obj(members);
        proof {
            lemma_member_views_of(payload->Obj_0@);
            let mv = member_views_of(payload->Obj_0@);
            assert(mv =~= transaction_event_payload(event_type@, trigger@, ts@)->Obj_0);
            assert(json_view(payload) == JsonV::Obj(mv));
        }
        build_call(shared, OcppAction::TransactionEvent, payload)
    }

    /// The `TransactionEvent(Started)` Call that opens a transaction.
    pub fn start_transaction(&self, shared: &mut SharedState<OcppAction>, ts: &str) -> (r:
        RawFrame)
        requires
            old(shared).wf(),
            old(shared).spec_next_id() < u64::MAX,
        ensures
            generated_call(
                *old(shared),
                *final(shared),
                r@,
                OcppAction::TransactionEvent,
                transaction_event_payload("Started"@, "CablePluggedIn"@, ts@),
            ),
    {
        self.transaction_event(shared, "Started", "CablePluggedIn", ts)
    }

    /// The `TransactionEvent(Ended)` Call that closes a transaction.
    pub fn stop_transaction(&self, shared: &mut SharedState<OcppAction>, ts: &str) -> (r: RawFrame)
        requires
            old(shared).wf(),
            old(shared).spec_next_id() < u64::MAX,
        ensures
            generated_call(
                *old(shared),
                *final(shared),
                r@,
                OcppAction::TransactionEvent,
                transaction_event_payload("Ended"@, "RemoteStop"@, ts@),
            ),
    {
        self.transaction_event(shared, "Ended", "RemoteStop", ts)
    }

    /// The `StatusNotification` Call for `status`.
    pub fn status_notification(
        &self,
        shared: &mut SharedState<OcppAction>,
        status: CommonConnectorStatusType,
        ts: &str,
    ) -> (r: RawFrame)
        requires
            old(shared).wf(),
            old(shared).spec_next_id() < u64::MAX,
        ensures
            generated_call(
                *old(shared),
                *final(shared),
                r@,
                OcppAction::StatusNotification,
                status_notification_payload(status, ts@),
            ),
    {
        let mut members: Vec<(String, Json)> = Vec::new();
        members.push((String::from_str("timestamp"), Json::Str(ts.to_owned())));
        members.push((String::from_str("connectorStatus"), Json::Str(status.v2_name().to_owned())));
        members.push((String::from_str("evseId"), Json::Int(1)));
        members.push((String::from_str("connectorId"), Json::Int(1)));
        let payload = Json::Obj(members);
        proof {
            lemma_member_views_of(payload->Obj_0@);
            let mv = member_views_of(payload->Obj_0@);
            assert(mv =~= status_notification_payload(status, ts@)->Obj_0);
            assert(json_view(payload) == JsonV::Obj(mv));
        }
        build_call(shared, OcppAction::StatusNotification, payload)
    }

    /// The `MeterValues` Call.
    pub fn meter_values(&self, shared: &mut SharedState<OcppAction>) -> (r: RawFrame)
        requires
            old(shared).wf(),
            old(shared).spec_next_id() < u64::MAX,
        ensures
            generated_call(
                *old(shared),
                *final(shared),
                r@,
                OcppAction::MeterValues,
                meter_values_payload(),
            ),
    {
        let mut members: Vec<(String, Json)> = Vec::new();
        members.push((String::from_str("evseId"), Json::Int(1)));
        members.push((String::from_str("meterValue"), Json::Arr(Vec::new())));
        let payload = Json::Obj(members);
        proof {
            assert(views_of(payload->Obj_0@[1].1->Arr_0@) =~= Seq::<JsonV>::empty());
            lemma_member_views_of(payload->Obj_0@);
            let mv = member_views_of(payload->Obj_0@);
            assert(mv =~= meter_values_payload()->Obj_0);
            assert(json_view(payload) == JsonV::Obj(mv));
        }
        build_call(shared, OcppAction::MeterValues, payload)
    }

    /// The stand-in for a diagnostics status report, which OCPP 2.0.1 has
    /// no action of its own for: a plain `Heartbeat` Call.
    pub fn diagnostics_status_notification(&self, shared: &mut SharedState<OcppAction>) -> (r:
        RawFrame)
        requires
            old(shared).wf(),
            old(shared).spec_next_id() < u64::MAX,
        ensures
            generated_call(
                *old(shared),
                *final(shared),
                r@,
                OcppAction::Heartbeat,
                heartbeat_payload(),
            ),
    {
        self.heartbeat(shared)
    }

    /// The `FirmwareStatusNotification` Call.
    pub fn firmware_status_notification(&self, shared: &mut SharedState<OcppAction>) -> (r:
        RawFrame)
        requires
            old(shared).wf(),
            old(shared).spec_next_id() < u64::MAX,
        ensures
            generated_call(
                *old(shared),
                *final(shared),
                r@,
                OcppAction::FirmwareStatusNotification,
                firmware_status_payload(),
            ),
    {
        let mut members: Vec<(String, Json)> = Vec::new();
        members.push((String::from_str("status"), Json::Str(String::from_str("Installed"))));
        let payload = Json::Obj(members);
        proof {
            lemma_member_views_of(payload->Obj_0@);
            let mv = member_views_of(payload->Obj_0@);
            assert(mv =~= firmware_status_payload()->Obj_0);
            assert(json_view(payload) == JsonV::Obj(mv));
        }
        build_call(shared, OcppAction::FirmwareStatusNotification, payload)
    }

    /// The `DataTransfer` Call.
    pub fn data_transfer(&self, shared: &mut SharedState<OcppAction>) -> (r: RawFrame)
        requires
            old(shared).wf(),
            old(shared).spec_next_id() < u64::MAX,
        ensures
            generated_call(
                *old(shared),
                *final(shared),
                r@,
                OcppAction::DataTransfer,
                data_transfer_payload(self.config@),
            ),
    {
        let mut members: Vec<(String, Json)> = Vec::new();
        members.push((String::from_str("data"), Json::Str(String::from_str("test"))));
        members.push((String::from_str("vendorId"), Json::Str(self.config.vendor.clone())));
        let payload = Json::Obj(members);
        proof {
            lemma_member_views_of(payload->Obj_0@);
            let mv = member_views_of(payload->Obj_0@);
            assert(mv =~= data_transfer_payload(self.config@)->Obj_0);
            assert(json_view(payload) == JsonV::Obj(mv));
        }
        build_call(shared, OcppAction::DataTransfer, payload)
    }
}

} // verus!
