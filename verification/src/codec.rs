//! The version-neutral OCPP frame envelope and its JSON array encoding.
//!
//! Every OCPP message travels as a JSON array whose first element selects the
//! kind: `[2,id,action,payload]` for a Call, `[3,id,payload]` for a
//! CallResult, `[4,id,code,description,details]` for a CallError.  The action
//! is kept as its wire string here; each protocol version resolves it against
//! its own catalog.

use vstd::prelude::*;
use crate::json::{Json, JsonV, json_view, json_text, views_of, lemma_views_of, json_to_string};

verus! {

/// An OCPP message frame, with the action still in wire-string form.
#[derive(Debug, PartialEq, Eq)]
pub enum RawFrame {
    Call { msg_id: String, action: String, payload: Json },
    CallResult { msg_id: String, payload: Json },
    CallError { msg_id: String, error_code: String, description: String, details: Json },
}

/// The mathematical model of a frame.
#[verifier::ext_equal]
pub enum RawFrameV {
    Call { msg_id: Seq<char>, action: Seq<char>, payload: JsonV },
    CallResult { msg_id: Seq<char>, payload: JsonV },
    CallError { msg_id: Seq<char>, error_code: Seq<char>, description: Seq<char>, details: JsonV },
}

impl View for RawFrame {
    type V = RawFrameV;

    open spec fn view(&self) -> RawFrameV {
        match self {
            RawFrame::Call { msg_id, action, payload } => RawFrameV::Call {
                msg_id: msg_id@,
                action: action@,
                payload: json_view(*payload),
            },
            RawFrame::CallResult { msg_id, payload } => RawFrameV::CallResult {
                msg_id: msg_id@,
                payload: json_view(*payload),
            },
            RawFrame::CallError { msg_id, error_code, description, details } => RawFrameV::CallError {
                msg_id: msg_id@,
                error_code: error_code@,
                description: description@,
                details: json_view(*details),
            },
        }
    }
}

/// Why an incoming text could not be read as a frame.
#[derive(Debug, PartialEq, Eq)]
pub enum FrameError {
    /// Not a JSON array of one of the three frame shapes.
    MalformedFrame,
    /// A well-formed Call whose action string is not in the version's
    /// catalog; carries the message id so that a CallError can answer it.
    UnknownAction { msg_id: String },
}

/// The JSON array that carries a frame.
pub open spec fn frame_json(f: RawFrameV) -> JsonV {
    match f {
        RawFrameV::Call { msg_id, action, payload } => JsonV::Arr(
            seq![JsonV::Int(2), JsonV::Str(msg_id), JsonV::Str(action), payload],
        ),
        RawFrameV::CallResult { msg_id, payload } => JsonV::Arr(
            seq![JsonV::Int(3), JsonV::Str(msg_id), payload],
        ),
        RawFrameV::CallError { msg_id, error_code, description, details } => JsonV::Arr(
            seq![
                JsonV::Int(4),
                JsonV::Str(msg_id),
                JsonV::Str(error_code),
                JsonV::Str(description),
                details,
            ],
        ),
    }
}

/// Reads a frame out of a JSON value: `2` must head a four-element array
/// with string id and action, `3` a three-element array with string id,
/// `4` an array of at least four with string id, code and description,
/// whose fifth element (the details; an empty object when absent) closes
/// the frame.  Every other shape is malformed.
pub open spec fn frame_of_json(v: JsonV) -> Option<RawFrameV> {
    match v {
        JsonV::Arr(items) => {
            if items.len() == 4 && items[0] == JsonV::Int(2) && items[1] is Str
                && items[2] is Str {
                Some(RawFrameV::Call {
                    msg_id: items[1]->Str_0,
                    action: items[2]->Str_0,
                    payload: items[3],
                })
            } else if items.len() == 3 && items[0] == JsonV::Int(3) && items[1] is Str {
                Some(RawFrameV::CallResult { msg_id: items[1]->Str_0, payload: items[2] })
            } else if items.len() >= 4 && items[0] == JsonV::Int(4) && items[1] is Str
                && items[2] is Str && items[3] is Str {
                Some(RawFrameV::CallError {
                    msg_id: items[1]->Str_0,
                    error_code: items[2]->Str_0,
                    description: items[3]->Str_0,
                    details: if items.len() >= 5 {
                        items[4]
                    } else {
                        JsonV::Obj(Seq::empty())
                    },
                })
            } else {
                None
            }
        }
        _ => None,
    }
}

/// Decoding inverts encoding: a frame read back from its own JSON array is
/// the same frame.
pub proof fn lemma_frame_round_trip(f: RawFrameV)
    ensures
        frame_of_json(frame_json(f)) == Some(f),
{
    match f {
        RawFrameV::Call { msg_id, action, payload } => {
            let items = seq![JsonV::Int(2), JsonV::Str(msg_id), JsonV::Str(action), payload];
            assert(items.len() == 4);
            assert(frame_of_json(frame_json(f)) == Some(f));
        }
        RawFrameV::CallResult { msg_id, payload } => {
            let items = seq![JsonV::Int(3), JsonV::Str(msg_id), payload];
            assert(items.len() == 3);
            assert(frame_of_json(frame_json(f)) == Some(f));
        }
        RawFrameV::CallError { msg_id, error_code, description, details } => {
            let items = seq![
                JsonV::Int(4),
                JsonV::Str(msg_id),
                JsonV::Str(error_code),
                JsonV::Str(description),
                details,
            ];
            assert(items.len() == 5);
            assert(frame_of_json(frame_json(f)) == Some(f));
        }
    }
}

impl RawFrame {
    /// The JSON array for this frame.
    pub fn to_json(self) -> (j: Json)
        ensures
            json_view(j) == frame_json(self@),
    {
        let ghost fv = self@;
        let j = match self {
            RawFrame::Call { msg_id, action, payload } => {
                let ghost m = msg_id@;
                let ghost a = action@;
                let ghost p = json_view(payload);
                let items = vec![Json::Int(2), Json::Str(msg_id), Json::Str(action), payload];
                proof {
                    lemma_views_of(items@);
                    assert(views_of(items@) =~= seq![
                        JsonV::Int(2),
                        JsonV::Str(m),
                        JsonV::Str(a),
                        p,
                    ]);
                }
                Json::Arr(items)
            }
            RawFrame::CallResult { msg_id, payload } => {
                let ghost m = msg_id@;
                let ghost p = json_view(payload);
                let items = vec![Json::Int(3), Json::Str(msg_id), payload];
                proof {
                    lemma_views_of(items@);
                    assert(views_of(items@) =~= seq![JsonV::Int(3), JsonV::Str(m), p]);
                }
                Json::Arr(items)
            }
            RawFrame::CallError { msg_id, error_code, description, details } => {
                let ghost m = msg_id@;
                let ghost c = error_code@;
                let ghost d = description@;
                let ghost p = json_view(details);
                let items = vec![
                    Json::Int(4),
                    Json::Str(msg_id),
                    Json::Str(error_code),
                    Json::Str(description),
                    details,
                ];
                proof {
                    lemma_views_of(items@);
                    assert(views_of(items@) =~= seq![
                        JsonV::Int(4),
                        JsonV::Str(m),
                        JsonV::Str(c),
                        JsonV::Str(d),
                        p,
                    ]);
                }
                Json::Arr(items)
            }
        };
        assert(json_view(j) == frame_json(fv));
        j
    }

    /// The wire text for this frame: the compact JSON of its array.
    pub fn encode(self) -> (s: String)
        ensures
            s@ == json_text(frame_json(self@)),
    {
        let j = self.to_json();
        json_to_string(&j)
    }
}

/// The reading of one wire text as a frame: the JSON reading of the text,
/// then the frame shape.
pub open spec fn spec_read_frame(text: Seq<char>) -> Option<RawFrameV> {
    match crate::json_parse::spec_parse_json(text) {
        Some(jv) => frame_of_json(jv),
        None => None,
    }
}

/// Reads a frame out of a JSON value, as [`frame_of_json`] describes;
/// `MalformedFrame` exactly when no frame shape fits.
pub fn frame_decode_json(j: Json) -> (r: Result<RawFrame, FrameError>)
    ensures
        match r {
            Ok(f) => frame_of_json(json_view(j)) == Some(f@),
            Err(e) => frame_of_json(json_view(j)) is None && e == FrameError::MalformedFrame,
        },
{
    let mut items = match j {
        Json::Arr(items) => items,
        _ => {
            return Err(FrameError::MalformedFrame);
        }
    };
    proof {
        lemma_views_of(items@);
    }
    let ghost iv = views_of(items@);
    assert(json_view(j) == JsonV::Arr(iv));
    let n = items.len();
    if n == 0 {
        return Err(FrameError::MalformedFrame);
    }
    let tag: i64 = match &items[0] {
        Json::Int(t) => *t,
        _ => {
            return Err(FrameError::MalformedFrame);
        }
    };
    assert(iv[0] == JsonV::Int(tag as int));
    if tag == 2 && n == 4 {
        let payload = items.pop().unwrap();
        let action = items.pop().unwrap();
        let msg_id = items.pop().unwrap();
        match (msg_id, action) {
            (Json::Str(msg_id), Json::Str(action)) => {
                assert(iv[1] == JsonV::Str(msg_id@));
                assert(iv[2] == JsonV::Str(action@));
                assert(iv[3] == json_view(payload));
                let f = RawFrame::Call { msg_id, action, payload };
                assert(frame_of_json(json_view(j)) =~~= Some(f@));
                Ok(f)
            }
            _ => Err(FrameError::MalformedFrame),
        }
    } else if tag == 3 && n == 3 {
        let payload = items.pop().unwrap();
        let msg_id = items.pop().unwrap();
        match msg_id {
            Json::Str(msg_id) => {
                assert(iv[1] == JsonV::Str(msg_id@));
                assert(iv[2] == json_view(payload));
                let f = RawFrame::CallResult { msg_id, payload };
                assert(frame_of_json(json_view(j)) =~~= Some(f@));
                Ok(f)
            }
            _ => Err(FrameError::MalformedFrame),
        }
    } else if tag == 4 && n >= 4 {
        let details = if n >= 5 {
            items.truncate(5);
            let d = items.pop().unwrap();
            assert(json_view(d) == iv[4]);
            d
        } else {
            let d = Json::Obj(Vec::new());
            assert(json_view(d) =~= JsonV::Obj(Seq::empty()));
            d
        };
        let ghost dv = json_view(details);
        items.truncate(4);
        let description = items.pop().unwrap();
        let error_code = items.pop().unwrap();
        let msg_id = items.pop().unwrap();
        match (msg_id, error_code, description) {
            (Json::Str(msg_id), Json::Str(error_code), Json::Str(description)) => {
                assert(iv[1] == JsonV::Str(msg_id@));
                assert(iv[2] == JsonV::Str(error_code@));
                assert(iv[3] == JsonV::Str(description@));
                let f = RawFrame::CallError { msg_id, error_code, description, details };
                assert(frame_of_json(json_view(j)) =~~= Some(f@));
                Ok(f)
            }
            _ => Err(FrameError::MalformedFrame),
        }
    } else {
        Err(FrameError::MalformedFrame)
    }
}

} // verus!
