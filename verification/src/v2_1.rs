//! The OCPP 2.1 surface: it shares the 2.x action catalog and frame
//! handling with 2.0.1.

use vstd::prelude::*;
use crate::codec::{FrameError, spec_read_frame};
use crate::v2_0_1::msg_handler::{V201MessageFrame, V201MessageFrameV, resolve_frame};

pub use crate::v2_0_1::OcppAction;

verus! {

/// The OCPP 2.1 message handler: frame handling is shared with 2.0.1.
pub struct V21MessageHandler {}

impl V21MessageHandler {
    /// A handler; it keeps no state of its own.
    pub fn new() -> (r: V21MessageHandler) {
        V21MessageHandler {}
    }

    /// Parses one wire text against the 2.x catalog, with the same
    /// reading as the 2.0.1 handler.
    pub fn parse_ocpp_message(&self, text: &str) -> (r: Result<V201MessageFrame, FrameError>)
        ensures
            match r {
                Ok(f) => spec_read_frame(text@) matches Some(raw) && resolve_frame(raw) == Ok::<
                    V201MessageFrameV,
                    Seq<char>,
                >(f@),
                Err(FrameError::UnknownAction { msg_id }) => spec_read_frame(text@) matches Some(
                    raw,
                ) && resolve_frame(raw) == Err::<V201MessageFrameV, Seq<char>>(msg_id@),
                Err(FrameError::MalformedFrame) => spec_read_frame(text@) is None,
            },
    {
        let inner = crate::v2_0_1::msg_handler::V201MessageHandler::new();
        inner.parse_ocpp_message(text)
    }
}

} // verus!
