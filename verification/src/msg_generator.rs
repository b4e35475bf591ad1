//! The version-neutral message generator configuration: the identity a
//! simulated charge point presents to the CSMS, with a builder that fills
//! unset fields from the defaults.

use vstd::prelude::*;

verus! {

/// The identity a charge point reports: serial number, vendor, model, and
/// the id tag it authorizes with.
pub struct MessageGeneratorConfig {
    pub serial_number: String,
    pub vendor: String,
    pub model: String,
    pub id_tag: String,
}

/// The default charge point identity.
pub open spec fn default_config_v() -> MessageGeneratorConfigV {
    MessageGeneratorConfigV {
        serial_number: "ocpp-charge-point-simulator"@,
        vendor: "ocpp-rust"@,
        model: "ocpp-rust-v1"@,
        id_tag: "7e181c99"@,
    }
}

/// The model of a generator configuration: its four strings.
pub struct MessageGeneratorConfigV {
    pub serial_number: Seq<char>,
    pub vendor: Seq<char>,
    pub model: Seq<char>,
    pub id_tag: Seq<char>,
}

impl View for MessageGeneratorConfig {
    type V = MessageGeneratorConfigV;

    open spec fn view(&self) -> MessageGeneratorConfigV {
        MessageGeneratorConfigV {
            serial_number: self.serial_number@,
            vendor: self.vendor@,
            model: self.model@,
            id_tag: self.id_tag@,
        }
    }
}

impl Default for MessageGeneratorConfig {
    /// The identity used when the configuration sets nothing.
    fn default() -> (r: MessageGeneratorConfig)
        ensures
            r@ == default_config_v(),
    {
        MessageGeneratorConfig {
            serial_number: String::from_str("ocpp-charge-point-simulator"),
            vendor: String::from_str("ocpp-rust"),
            model: String::from_str("ocpp-rust-v1"),
            id_tag: String::from_str("7e181c99"),
        }
    }
}

/// Builds a [`MessageGeneratorConfig`], falling back to the defaults for
/// any field left unset.
pub struct MessageGeneratorConfigBuilder {
    serial_number: Option<String>,
    vendor: Option<String>,
    model: Option<String>,
    id_tag: Option<String>,
}

/// The model of a builder: which fields were set, and to what.
pub struct MessageGeneratorConfigBuilderV {
    pub serial_number: Option<Seq<char>>,
    pub vendor: Option<Seq<char>>,
    pub model: Option<Seq<char>>,
    pub id_tag: Option<Seq<char>>,
}

impl View for MessageGeneratorConfigBuilder {
    type V = MessageGeneratorConfigBuilderV;

    closed spec fn view(&self) -> MessageGeneratorConfigBuilderV {
        MessageGeneratorConfigBuilderV {
            serial_number: match self.serial_number {
                Some(s) => Some(s@),
                None => None,
            },
            vendor: match self.vendor {
                Some(s) => Some(s@),
                None => None,
            },
            model: match self.model {
                Some(s) => Some(s@),
                None => None,
            },
            id_tag: match self.id_tag {
                Some(s) => Some(s@),
                None => None,
            },
        }
    }
}

/// The configuration a builder produces: each set field, else its default.
pub open spec fn built_config(b: MessageGeneratorConfigBuilderV) -> MessageGeneratorConfigV {
    MessageGeneratorConfigV {
        serial_number: match b.serial_number {
            Some(s) => s,
            None => default_config_v().serial_number,
        },
        vendor: match b.vendor {
            Some(s) => s,
            None => default_config_v().vendor,
        },
        model: match b.model {
            Some(s) => s,
            None => default_config_v().model,
        },
        id_tag: match b.id_tag {
            Some(s) => s,
            None => default_config_v().id_tag,
        },
    }
}

impl MessageGeneratorConfigBuilder {
    /// A builder with nothing set.
    pub fn new() -> (r: MessageGeneratorConfigBuilder)
        ensures
            r@.serial_number is None,
            r@.vendor is None,
            r@.model is None,
            r@.id_tag is None,
    {
        MessageGeneratorConfigBuilder { serial_number: None, vendor: None, model: None, id_tag: None }
    }

    /// Sets the serial number.
    pub fn serial_number(self, id: String) -> (r: MessageGeneratorConfigBuilder)
        ensures
            r@ == (MessageGeneratorConfigBuilderV { serial_number: Some(id@), ..self@ }),
    {
        MessageGeneratorConfigBuilder { serial_number: Some(id), ..self }
    }

    /// Sets the vendor name.
    pub fn vendor(self, vendor: String) -> (r: MessageGeneratorConfigBuilder)
        ensures
            r@ == (MessageGeneratorConfigBuilderV { vendor: Some(vendor@), ..self@ }),
    {
        MessageGeneratorConfigBuilder { vendor: Some(vendor), ..self }
    }

    /// Sets the model name.
    pub fn model(self, model: String) -> (r: MessageGeneratorConfigBuilder)
        ensures
            r@ == (MessageGeneratorConfigBuilderV { model: Some(model@), ..self@ }),
    {
        MessageGeneratorConfigBuilder { model: Some(model), ..self }
    }

    /// Sets the id tag.
    pub fn id_tag(self, id_tag: String) -> (r: MessageGeneratorConfigBuilder)
        ensures
            r@ == (MessageGeneratorConfigBuilderV { id_tag: Some(id_tag@), ..self@ }),
    {
        MessageGeneratorConfigBuilder { id_tag: Some(id_tag), ..self }
    }

    /// The configuration: every set field, and the default for the rest.
    pub fn build(self) -> (r: MessageGeneratorConfig)
        ensures
            r@ == built_config(self@),
    {
        let config_default = MessageGeneratorConfig::default();
        MessageGeneratorConfig {
            serial_number: match self.serial_number {
                Some(s) => s,
                None => config_default.serial_number,
            },
            vendor: match self.vendor {
                Some(s) => s,
                None => config_default.vendor,
            },
            model: match self.model {
                Some(s) => s,
                None => config_default.model,
            },
            id_tag: match self.id_tag {
                Some(s) => s,
                None => config_default.id_tag,
            },
        }
    }
}

} // verus!
