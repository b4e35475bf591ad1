//! The OCPP 2.0.1 message handler: parses inbound frames against the 2.x
//! catalog and settles correlation entries.

use vstd::prelude::*;
use crate::codec::{RawFrame, RawFrameV, FrameError, frame_decode_json, spec_read_frame};
use crate::correlation::SharedState;
use crate::json::{Json, JsonV, json_view};
use crate::json_parse::parse_json;
use crate::v2_0_1::{OcppAction, action_of_name};

verus! {

/// An inbound frame with its action resolved against the 2.x catalog.
#[derive(Debug, PartialEq, Eq)]
pub enum V201MessageFrame {
    Call { msg_id: String, action: OcppAction, payload: Json },
    CallResult { msg_id: String, payload: Json },
    CallError { msg_id: String, error_code: String, description: String, details: Json },
}

/// The mathematical model of a resolved frame.
#[verifier::ext_equal]
pub enum V201MessageFrameV {
    Call { msg_id: Seq<char>, action: OcppAction, payload: JsonV },
    CallResult { msg_id: Seq<char>, payload: JsonV },
    CallError { msg_id: Seq<char>, error_code: Seq<char>, description: Seq<char>, details: JsonV },
}

impl View for V201MessageFrame {
    type V = V201MessageFrameV;

    open spec fn view(&self) -> V201MessageFrameV {
        match self {
            V201MessageFrame::Call { msg_id, action, payload } => V201MessageFrameV::Call {
                msg_id: msg_id@,
                action: *action,
                payload: json_view(*payload),
            },
            V201MessageFrame::CallResult { msg_id, payload } => V201MessageFrameV::CallResult {
                msg_id: msg_id@,
                payload: json_view(*payload),
            },
            V201MessageFrame::CallError { msg_id, error_code, description, details } =>
                V201MessageFrameV::CallError {
                msg_id: msg_id@,
                error_code: error_code@,
                description: description@,
                details: json_view(*details),
            },
        }
    }
}

/// Resolves the action string of a decoded frame against the 2.x catalog.
pub open spec fn resolve_frame(raw: RawFrameV) -> Result<V201MessageFrameV, Seq<char>> {
    match raw {
        RawFrameV::Call { msg_id, action, payload } => match action_of_name(action) {
            Some(a) => Ok(V201MessageFrameV::Call { msg_id, action: a, payload }),
            None => Err(msg_id),
        },
        RawFrameV::CallResult { msg_id, payload } => Ok(
            V201MessageFrameV::CallResult { msg_id, payload },
        ),
        RawFrameV::CallError { msg_id, error_code, description, details } => Ok(
            V201MessageFrameV::CallError { msg_id, error_code, description, details },
        ),
    }
}

/// The OCPP 2.0.1 message handler.
pub struct V201MessageHandler {}

impl V201MessageHandler {
    /// A handler; it keeps no state of its own.
    pub fn new() -> (r: V201MessageHandler) {
        V201MessageHandler {}
    }

    /// Parses one wire text into a resolved 2.x frame: the text is read as
    /// [`spec_read_frame`] reads it and the action resolved as
    /// [`resolve_frame`] does.
    pub fn parse_ocpp_message(&self, text: &str) -> (r: Result<V201MessageFrame, FrameError>)
        ensures
            match r {
                Ok(f) => spec_read_frame(text@) matches Some(raw) && resolve_frame(raw) == Ok::<
                    V201MessageFrameV,
                    Seq<char>,
                >(f@),
                Err(FrameError::UnknownAction { msg_id }) => spec_read_frame(text@) matches Some(
                    raw,
                ) && resolve_frame(raw) == Err::<V201MessageFrameV, Seq<char>>(msg_id@),
                Err(FrameError::MalformedFrame) => spec_read_frame(text@) is None,
            },
    {
        let j = match parse_json(text) {
            Some(j) => j,
            None => {
                return Err(FrameError::MalformedFrame);
            }
        };
        let ghost jv = json_view(j);
        let raw = match frame_decode_json(j) {
            Ok(raw) => raw,
            Err(_) => {
                return Err(FrameError::MalformedFrame);
            }
        };
        match raw {
            RawFrame::Call { msg_id, action, payload } => {
                match OcppAction::from_name(action.as_str()) {
                    Some(a) => {
                        Ok(V201MessageFrame::Call { msg_id, action: a, payload })
                    }
                    None => {
                        Err(FrameError::UnknownAction { msg_id })
                    }
                }
            }
            RawFrame::CallResult { msg_id, payload } => {
                Ok(V201MessageFrame::CallResult { msg_id, payload })
            }
            RawFrame::CallError { msg_id, error_code, description, details } => {
                Ok(V201MessageFrame::CallError { msg_id, error_code, description, details })
            }
        }
    }

    /// Settles the correlation entry of an inbound CallResult, returning
    /// the action that awaited it.
    pub fn handle_call_result(&self, shared: &mut SharedState<OcppAction>, msg_id: &str) -> (r:
        Option<OcppAction>)
        requires
            old(shared).wf(),
        ensures
            final(shared).wf(),
            match old(shared).pending().contains_key(msg_id@) {
                true => r == Some(old(shared).pending()[msg_id@]) && final(shared).pending() == old(
                    shared,
                ).pending().remove(msg_id@),
                false => r is None && *final(shared) == *old(shared),
            },
    {
        shared.take_msg(msg_id)
    }

    /// Notes an inbound CallError: the correlation entry is settled.
    pub fn handle_call_error(&self, shared: &mut SharedState<OcppAction>, msg_id: &str) -> (r:
        Option<OcppAction>)
        requires
            old(shared).wf(),
        ensures
            final(shared).wf(),
            match old(shared).pending().contains_key(msg_id@) {
                true => r == Some(old(shared).pending()[msg_id@]) && final(shared).pending() == old(
                    shared,
                ).pending().remove(msg_id@),
                false => r is None && *final(shared) == *old(shared),
            },
    {
        shared.take_msg(msg_id)
    }
}

} // verus!
