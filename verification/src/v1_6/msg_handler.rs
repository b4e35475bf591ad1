//! The OCPP 1.6 message handler: parses inbound frames, resolves their
//! actions against the catalog, answers CSMS-originated Calls, and settles
//! the correlation entry of every CallResult and CallError.

use vstd::prelude::*;
use crate::codec::{RawFrame, RawFrameV, FrameError, frame_of_json, frame_decode_json,
    spec_read_frame};
use crate::correlation::SharedState;
use crate::json::{Json, JsonV, json_view, obj_lookup, member_views_of, lemma_member_views_of,
    views_of};
use crate::json_parse::parse_json;
use crate::types::CommonOcppAction;
use crate::v1_6::{OcppAction, action_of_name};

verus! {

/// An inbound frame with its action resolved against the 1.6 catalog.
#[derive(Debug, PartialEq, Eq)]
pub enum OcppMessageFrame {
    Call { msg_id: String, action: OcppAction, payload: Json },
    CallResult { msg_id: String, payload: Json },
    CallError { msg_id: String, error_code: String, description: String, details: Json },
}

/// The mathematical model of a resolved frame.
#[verifier::ext_equal]
pub enum OcppMessageFrameV {
    Call { msg_id: Seq<char>, action: OcppAction, payload: JsonV },
    CallResult { msg_id: Seq<char>, payload: JsonV },
    CallError { msg_id: Seq<char>, error_code: Seq<char>, description: Seq<char>, details: JsonV },
}

impl View for OcppMessageFrame {
    type V = OcppMessageFrameV;

    open spec fn view(&self) -> OcppMessageFrameV {
        match self {
            OcppMessageFrame::Call { msg_id, action, payload } => OcppMessageFrameV::Call {
                msg_id: msg_id@,
                action: *action,
                payload: json_view(*payload),
            },
            OcppMessageFrame::CallResult { msg_id, payload } => OcppMessageFrameV::CallResult {
                msg_id: msg_id@,
                payload: json_view(*payload),
            },
            OcppMessageFrame::CallError { msg_id, error_code, description, details } =>
                OcppMessageFrameV::CallError {
                msg_id: msg_id@,
                error_code: error_code@,
                description: description@,
                details: json_view(*details),
            },
        }
    }
}

/// Resolves the action string of a decoded frame against the 1.6 catalog:
/// a Call whose action is not in the catalog is `UnknownAction`, carrying
/// the message id so that a CallError can answer it.
pub open spec fn resolve_frame(raw: RawFrameV) -> Result<OcppMessageFrameV, Seq<char>> {
    match raw {
        RawFrameV::Call { msg_id, action, payload } => match action_of_name(action) {
            Some(a) => Ok(OcppMessageFrameV::Call { msg_id, action: a, payload }),
            None => Err(msg_id),
        },
        RawFrameV::CallResult { msg_id, payload } => Ok(
            OcppMessageFrameV::CallResult { msg_id, payload },
        ),
        RawFrameV::CallError { msg_id, error_code, description, details } => Ok(
            OcppMessageFrameV::CallError { msg_id, error_code, description, details },
        ),
    }
}

/// The CallResult payload answering a CSMS-originated Call: an empty
/// configuration key list for `GetConfiguration`, and the vendor-neutral
/// acknowledgment `{"status":"Accepted"}` for every other CSMS action.
pub open spec fn call_response_payload(action: OcppAction) -> JsonV {
    if action == OcppAction::GetConfiguration {
        JsonV::Obj(seq![("configurationKey"@, JsonV::Arr(Seq::empty()))])
    } else {
        JsonV::Obj(seq![("status"@, JsonV::Str("Accepted"@))])
    }
}

/// The CallError frame answering a Call whose action the catalog does not
/// know: code `NotImplemented`, description `Unknown action`, empty details.
pub open spec fn not_implemented_error(msg_id: Seq<char>) -> RawFrameV {
    RawFrameV::CallError {
        msg_id,
        error_code: "NotImplemented"@,
        description: "Unknown action"@,
        details: JsonV::Obj(Seq::empty()),
    }
}

/// The common tag of a charge-point-originated action.
pub open spec fn spec_common_of(a: OcppAction) -> Option<CommonOcppAction> {
    match a {
        OcppAction::BootNotification => Some(CommonOcppAction::BootNotification),
        OcppAction::Heartbeat => Some(CommonOcppAction::Heartbeat),
        OcppAction::Authorize => Some(CommonOcppAction::Authorize),
        OcppAction::StartTransaction => Some(CommonOcppAction::StartTransaction),
        OcppAction::StopTransaction => Some(CommonOcppAction::StopTransaction),
        OcppAction::StatusNotification => Some(CommonOcppAction::StatusNotification),
        OcppAction::MeterValues => Some(CommonOcppAction::MeterValues),
        OcppAction::DiagnosticsStatusNotification => Some(
            CommonOcppAction::DiagnosticsStatusNotification,
        ),
        OcppAction::FirmwareStatusNotification => Some(
            CommonOcppAction::FirmwareStatusNotification,
        ),
        OcppAction::DataTransfer => Some(CommonOcppAction::DataTransfer),
        _ => None,
    }
}

/// The common tag of a charge-point-originated action.
pub fn common_of(a: OcppAction) -> (r: Option<CommonOcppAction>)
    ensures
        r == spec_common_of(a),
{
    match a {
        OcppAction::BootNotification => Some(CommonOcppAction::BootNotification),
        OcppAction::Heartbeat => Some(CommonOcppAction::Heartbeat),
        OcppAction::Authorize => Some(CommonOcppAction::Authorize),
        OcppAction::StartTransaction => Some(CommonOcppAction::StartTransaction),
        OcppAction::StopTransaction => Some(CommonOcppAction::StopTransaction),
        OcppAction::StatusNotification => Some(CommonOcppAction::StatusNotification),
        OcppAction::MeterValues => Some(CommonOcppAction::MeterValues),
        OcppAction::DiagnosticsStatusNotification => Some(
            CommonOcppAction::DiagnosticsStatusNotification,
        ),
        OcppAction::FirmwareStatusNotification => Some(
            CommonOcppAction::FirmwareStatusNotification,
        ),
        OcppAction::DataTransfer => Some(CommonOcppAction::DataTransfer),
        _ => None,
    }
}

/// The transaction id in a `StartTransaction.conf` payload, when the
/// payload carries an integer `transactionId` that fits an `i32`.
pub open spec fn transaction_id_of(payload: JsonV) -> Option<i32> {
    match obj_lookup(payload, "transactionId"@) {
        Some(JsonV::Int(t)) => if i32::MIN <= t <= i32::MAX {
            Some(t as i32)
        } else {
            None
        },
        _ => None,
    }
}

/// The wire frame of a resolved frame: the action written out as its name.
pub open spec fn raw_of_resolved(f: OcppMessageFrameV) -> RawFrameV {
    match f {
        OcppMessageFrameV::Call { msg_id, action, payload } => RawFrameV::Call {
            msg_id,
            action: crate::v1_6::action_name(action),
            payload,
        },
        OcppMessageFrameV::CallResult { msg_id, payload } => RawFrameV::CallResult {
            msg_id,
            payload,
        },
        OcppMessageFrameV::CallError { msg_id, error_code, description, details } =>
            RawFrameV::CallError { msg_id, error_code, description, details },
    }
}

/// The full round trip for resolved frames: a frame written to its JSON
/// array, read back, and resolved against the catalog is the same frame —
/// the action name resolves to the action it named.
pub proof fn lemma_resolved_frame_round_trip(f: OcppMessageFrameV)
    ensures
        frame_of_json(crate::codec::frame_json(raw_of_resolved(f))) == Some(raw_of_resolved(f)),
        resolve_frame(raw_of_resolved(f)) == Ok::<OcppMessageFrameV, Seq<char>>(f),
{
    crate::codec::lemma_frame_round_trip(raw_of_resolved(f));
    match f {
        OcppMessageFrameV::Call { msg_id, action, payload } => {
            crate::v1_6::lemma_action_name_round_trip(action);
        }
        _ => {}
    }
}

/// The OCPP 1.6 message handler.
pub struct V16MessageHandler {}

impl V16MessageHandler {
    /// A handler; it keeps no state of its own and works against the
    /// session's correlation table.
    pub fn new() -> (r: V16MessageHandler) {
        V16MessageHandler {}
    }

    /// Parses one wire text into a resolved 1.6 frame: the text is read as
    /// [`spec_read_frame`] reads it and the action resolved as
    /// [`resolve_frame`] does.  Text that is not JSON or not a frame shape
    /// is `MalformedFrame`; a Call with an action outside the catalog is
    /// `UnknownAction` with its message id.
    pub fn parse_ocpp_message(&self, text: &str) -> (r: Result<OcppMessageFrame, FrameError>)
        ensures
            match r {
                Ok(f) => spec_read_frame(text@) matches Some(raw) && resolve_frame(raw) == Ok::<
                    OcppMessageFrameV,
                    Seq<char>,
                >(f@),
                Err(FrameError::UnknownAction { msg_id }) => spec_read_frame(text@) matches Some(
                    raw,
                ) && resolve_frame(raw) == Err::<OcppMessageFrameV, Seq<char>>(msg_id@),
                Err(FrameError::MalformedFrame) => spec_read_frame(text@) is None,
            },
    {
        let j = match parse_json(text) {
            Some(j) => j,
            None => {
                return Err(FrameError::MalformedFrame);
            }
        };
        let ghost jv = json_view(j);
        let raw = match frame_decode_json(j) {
            Ok(raw) => raw,
            Err(e) => {
                return Err(FrameError::MalformedFrame);
            }
        };
        match raw {
            RawFrame::Call { msg_id, action, payload } => {
                match OcppAction::from_name(action.as_str()) {
                    Some(a) => {
                        Ok(OcppMessageFrame::Call { msg_id, action: a, payload })
                    }
                    None => {
                        Err(FrameError::UnknownAction { msg_id })
                    }
                }
            }
            RawFrame::CallResult { msg_id, payload } => {
                Ok(OcppMessageFrame::CallResult { msg_id, payload })
            }
            RawFrame::CallError { msg_id, error_code, description, details } => {
                Ok(OcppMessageFrame::CallError { msg_id, error_code, description, details })
            }
        }
    }

    /// Answers a CSMS-originated Call: a CallResult under the same message
    /// id, with the payload [`call_response_payload`] fixes for the action.
    pub fn handle_call(&self, msg_id: String, action: OcppAction, _payload: &Json) -> (r: RawFrame)
        ensures
            r@ == (RawFrameV::CallResult {
                msg_id: msg_id@,
                payload: call_response_payload(action),
            }),
    {
        let ghost m = msg_id@;
        let payload = if matches!(action, OcppAction::GetConfiguration) {
            let mut members: Vec<(String, Json)> = Vec::new();
            members.push((String::from_str("configurationKey"), Json::Arr(Vec::new())));
            let p = Json::Obj(members);
            proof {
                lemma_member_views_of(p->Obj_0@);
                let mv = member_views_of(p->Obj_0@);
                assert(p->Obj_0@.len() == 1);
                assert(p->Obj_0@[0].1->Arr_0@ =~= Seq::<Json>::empty());
                assert(views_of(p->Obj_0@[0].1->Arr_0@) =~= Seq::<JsonV>::empty());
                assert(mv[0] == ("configurationKey"@, JsonV::Arr(Seq::<JsonV>::empty())));
                assert(mv =~= call_response_payload(action)->Obj_0);
                assert(json_view(p) == JsonV::Obj(mv));
            }
            p
        } else {
            let mut members: Vec<(String, Json)> = Vec::new();
            members.push((String::from_str("status"), Json::Str(String::from_str("Accepted"))));
            let p = Json::Obj(members);
            proof {
                lemma_member_views_of(p->Obj_0@);
                let mv = member_views_of(p->Obj_0@);
                assert(p->Obj_0@.len() == 1);
                assert(mv[0] == ("status"@, JsonV::Str("Accepted"@)));
                assert(mv =~= call_response_payload(action)->Obj_0);
                assert(json_view(p) == JsonV::Obj(mv));
            }
            p
        };
        RawFrame::CallResult { msg_id, payload }
    }

    /// Answers a Call whose action the catalog does not know: the
    /// `NotImplemented` CallError under the same message id.
    pub fn handle_unknown_action(&self, msg_id: String) -> (r: RawFrame)
        ensures
            r@ == not_implemented_error(msg_id@),
    {
        let ghost m = msg_id@;
        let details = Json::Obj(Vec::new());
        proof {
            assert(member_views_of(details->Obj_0@) =~= Seq::<(Seq<char>, JsonV)>::empty());
            assert(json_view(details) == JsonV::Obj(Seq::<(Seq<char>, JsonV)>::empty()));
        }
        let r = RawFrame::CallError {
            msg_id,
            error_code: String::from_str("NotImplemented"),
            description: String::from_str("Unknown action"),
            details,
        };
        assert(r@ == not_implemented_error(m));
        r
    }

    /// Settles the correlation entry of an inbound CallResult: takes the
    /// originating action out of the table; when that action is
    /// `StartTransaction` and the payload carries a usable `transactionId`,
    /// stores it in the session state.  Returns the common tag of the
    /// originating action so the session engine can advance.
    pub fn handle_call_result(
        &self,
        shared: &mut SharedState<OcppAction>,
        msg_id: &str,
        payload: &Json,
    ) -> (r: Option<CommonOcppAction>)
        requires
            old(shared).wf(),
        ensures
            final(shared).wf(),
            final(shared).spec_next_id() == old(shared).spec_next_id(),
            match old(shared).pending().contains_key(msg_id@) {
                true => {
                    let a = old(shared).pending()[msg_id@];
                    &&& r == spec_common_of(a)
                    &&& final(shared).pending() == old(shared).pending().remove(msg_id@)
                    &&& final(shared).spec_transaction_id() == (if a
                        == OcppAction::StartTransaction && transaction_id_of(
                        json_view(*payload),
                    ) is Some {
                        transaction_id_of(json_view(*payload))
                    } else {
                        old(shared).spec_transaction_id()
                    })
                },
                false => r is None && *final(shared) == *old(shared),
            },
    {
        let action = match shared.take_msg(msg_id) {
            Some(a) => a,
            None => {
                return None;
            }
        };
        if matches!(action, OcppAction::StartTransaction) {
            match crate::json::obj_get(payload, "transactionId") {
                Some(Json::Int(t)) => {
                    let t = *t;
                    if i32::MIN as i64 <= t && t <= i32::MAX as i64 {
                        shared.transaction_id(t as i32);
                    }
                }
                _ => {}
            }
        }
        common_of(action)
    }

    /// Notes an inbound CallError: the correlation entry is settled and
    /// nothing further happens.
    pub fn handle_call_error(&self, shared: &mut SharedState<OcppAction>, msg_id: &str) -> (r:
        Option<OcppAction>)
        requires
            old(shared).wf(),
        ensures
            final(shared).wf(),
            final(shared).spec_next_id() == old(shared).spec_next_id(),
            final(shared).spec_transaction_id() == old(shared).spec_transaction_id(),
            match old(shared).pending().contains_key(msg_id@) {
                true => r == Some(old(shared).pending()[msg_id@]) && final(shared).pending() == old(
                    shared,
                ).pending().remove(msg_id@),
                false => r is None && *final(shared) == *old(shared),
            },
    {
        shared.take_msg(msg_id)
    }
}

} // verus!
