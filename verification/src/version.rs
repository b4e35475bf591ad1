//! The supported OCPP protocol versions and their wire names, as carried in
//! the WebSocket subprotocol header.

use vstd::prelude::*;

verus! {

/// An OCPP protocol version supported by the simulator.
#[derive(Clone, Copy, Debug, PartialEq, Eq, Structural)]
pub enum OcppVersion {
    V1_6,
    V2_0_1,
    V2_1,
}

impl OcppVersion {
    /// The subprotocol header string that identifies this version on the wire.
    pub open spec fn spec_header(self) -> Seq<char> {
        match self {
            OcppVersion::V1_6 => "ocpp1.6"@,
            OcppVersion::V2_0_1 => "ocpp2.0.1"@,
            OcppVersion::V2_1 => "ocpp2.1"@,
        }
    }

    /// The wire name of this version: `ocpp1.6`, `ocpp2.0.1` or `ocpp2.1`.
    pub fn header(self) -> (r: &'static str)
        ensures
            r@ == self.spec_header(),
    {
        match self {
            OcppVersion::V1_6 => "ocpp1.6",
            OcppVersion::V2_0_1 => "ocpp2.0.1",
            OcppVersion::V2_1 => "ocpp2.1",
        }
    }

    /// Recognizes a subprotocol header string; `None` for any string that is
    /// not one of the three version names.
    pub fn from(header: &str) -> (r: Option<OcppVersion>)
        ensures
            match r {
                Some(v) => header@ == v.spec_header(),
                None => forall|v: OcppVersion| header@ != v.spec_header(),
            },
    {
        if crate::strutil::str_eq(header, "ocpp1.6") {
            Some(OcppVersion::V1_6)
        } else if crate::strutil::str_eq(header, "ocpp2.0.1") {
            Some(OcppVersion::V2_0_1)
        } else if crate::strutil::str_eq(header, "ocpp2.1") {
            Some(OcppVersion::V2_1)
        } else {
            None
        }
    }
}

} // verus!
