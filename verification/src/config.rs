//! The resolved configuration record and the root context that hands it to
//! each exchange.
use crate::fields::{
    flag_field_or_true, read_flag_or_true, read_text_or_empty, read_texts_or_empty, read_u64_or,
    text_field_or_empty, texts_field_or_empty, u64_field_or,
};
use crate::json::{get_member, json_parse, member, models, parse, value_model, Json};
use crate::og_connector::opt_view;
use serde_json::Value;
use vstd::prelude::*;

verus! {

/// The timeout of a moderation call, in milliseconds, where none is configured.
pub fn default_timeout() -> (r: u64)
    ensures
        r == 5000,
{
    5000
}

/// The value of a checking flag where none is configured.
pub fn default_true() -> (r: bool)
    ensures
        r,
{
    true
}

/// What the connector needs to know to reach the moderation service.
#[derive(Debug, PartialEq, Eq)]
pub struct OGConnectorConfig {
    /// Destination route of the moderation service.
    pub og_cluster: String,
    /// Base URL of the moderation service; its scheme is dropped for the
    /// authority header.
    pub og_base_url: String,
    /// Bearer credential.
    pub og_api_key: String,
    /// Application or tenant identifier; empty when there is none.
    pub application_id: String,
    /// Timeout of one moderation call.
    pub timeout_ms: u64,
    pub enable_input_detection: bool,
    pub enable_output_detection: bool,
}

/// A configuration as a specification sees it.
pub struct ConfigView {
    pub og_cluster: Seq<char>,
    pub og_base_url: Seq<char>,
    pub og_api_key: Seq<char>,
    pub application_id: Seq<char>,
    pub timeout_ms: u64,
    pub enable_input_detection: bool,
    pub enable_output_detection: bool,
}

impl View for OGConnectorConfig {
    type V = ConfigView;

    open spec fn view(&self) -> ConfigView {
        ConfigView {
            og_cluster: self.og_cluster@,
            og_base_url: self.og_base_url@,
            og_api_key: self.og_api_key@,
            application_id: self.application_id@,
            timeout_ms: self.timeout_ms,
            enable_input_detection: self.enable_input_detection,
            enable_output_detection: self.enable_output_detection,
        }
    }
}

impl Default for OGConnectorConfig {
    /// The empty record: no route, no credential, nothing enabled.
    fn default() -> (r: Self)
        ensures
            r@ == (ConfigView {
                og_cluster: Seq::empty(),
                og_base_url: Seq::empty(),
                og_api_key: Seq::empty(),
                application_id: Seq::empty(),
                timeout_ms: 0,
                enable_input_detection: false,
                enable_output_detection: false,
            }),
    {
        OGConnectorConfig {
            og_cluster: String::new(),
            og_base_url: String::new(),
            og_api_key: String::new(),
            application_id: String::new(),
            timeout_ms: 0,
            enable_input_detection: false,
            enable_output_detection: false,
        }
    }
}

impl Clone for OGConnectorConfig {
    fn clone(&self) -> (r: Self)
        ensures
            r@ == self@,
    {
        OGConnectorConfig {
            og_cluster: self.og_cluster.clone(),
            og_base_url: self.og_base_url.clone(),
            og_api_key: self.og_api_key.clone(),
            application_id: self.application_id.clone(),
            timeout_ms: self.timeout_ms,
            enable_input_detection: self.enable_input_detection,
            enable_output_detection: self.enable_output_detection,
        }
    }
}

/// The configuration that a JSON object holds. Every field may be missing:
/// texts are then empty, the timeout is five seconds and both checks are on.
pub open spec fn config_of(j: Json) -> Option<ConfigView> {
    if j is Object && text_field_or_empty(j, "og_cluster"@) is Some && text_field_or_empty(
        j,
        "og_base_url"@,
    ) is Some && text_field_or_empty(j, "og_api_key"@) is Some && text_field_or_empty(
        j,
        "application_id"@,
    ) is Some && u64_field_or(j, "timeout_ms"@, 5000) is Some && flag_field_or_true(
        j,
        "enable_input_detection"@,
    ) is Some && flag_field_or_true(j, "enable_output_detection"@) is Some {
        Some(
            ConfigView {
                og_cluster: text_field_or_empty(j, "og_cluster"@)->0,
                og_base_url: text_field_or_empty(j, "og_base_url"@)->0,
                og_api_key: text_field_or_empty(j, "og_api_key"@)->0,
                application_id: text_field_or_empty(j, "application_id"@)->0,
                timeout_ms: u64_field_or(j, "timeout_ms"@, 5000)->0,
                enable_input_detection: flag_field_or_true(j, "enable_input_detection"@)->0,
                enable_output_detection: flag_field_or_true(j, "enable_output_detection"@)->0,
            },
        )
    } else {
        None
    }
}

/// The configuration of one rule of the gateway's format: a configuration
/// object that may also list the routes it is for.
pub open spec fn rule_of(j: Json) -> Option<ConfigView> {
    if texts_field_or_empty(j, "_match_route_"@) is Some {
        config_of(j)
    } else {
        None
    }
}

/// Whether every element of an array is a well-formed rule.
pub open spec fn all_rules(a: Seq<Json>) -> bool {
    forall|i: int| 0 <= i < a.len() ==> rule_of(#[trigger] a[i]) is Some
}

/// The rules of a document in the gateway's format, which lists them under
/// `_rules_`. `None` where the document is not in that format.
pub open spec fn rules_of(j: Json) -> Option<Seq<Json>> {
    if j is Object {
        match member(j, "_rules_"@) {
            None => Some(Seq::empty()),
            Some(Json::Array(a)) => if all_rules(a) {
                Some(a)
            } else {
                None
            },
            Some(_) => None,
        }
    } else {
        None
    }
}

/// The configuration that a document resolves to: that of its first rule
/// where it is in the gateway's format and has a rule, else the one that its
/// own fields give.
pub open spec fn resolved_config(j: Json) -> Option<ConfigView> {
    match rules_of(j) {
        Some(a) => if a.len() > 0 {
            rule_of(a[0])
        } else {
            config_of(j)
        },
        None => config_of(j),
    }
}

/// The configuration that the bytes of a plugin configuration resolve to.
pub open spec fn configured(bytes: Seq<u8>) -> Option<ConfigView> {
    match json_parse(bytes) {
        Some(j) => resolved_config(j),
        None => None,
    }
}

/// The configuration of a root context after it was handed these bytes: what
/// they resolve to, or what it had where they are missing, empty or resolve to
/// nothing.
pub open spec fn after_configure(before: Option<ConfigView>, bytes: Option<Seq<u8>>) -> Option<
    ConfigView,
> {
    match bytes {
        Some(b) => if b.len() > 0 && configured(b) is Some {
            configured(b)
        } else {
            before
        },
        None => before,
    }
}

impl OGConnectorConfig {
    /// Reads a configuration from a JSON object.
    pub fn from_value(v: &Value) -> (r: Option<Self>)
        ensures
            opt_view(r) == config_of(value_model(*v)),
    {
        if !v.is_object() {
            return None;
        }
        let og_cluster = read_text_or_empty(v, "og_cluster")?;
        let og_base_url = read_text_or_empty(v, "og_base_url")?;
        let og_api_key = read_text_or_empty(v, "og_api_key")?;
        let application_id = read_text_or_empty(v, "application_id")?;
        let timeout_ms = read_u64_or(v, "timeout_ms", default_timeout())?;
        let enable_input_detection = read_flag_or_true(v, "enable_input_detection")?;
        let enable_output_detection = read_flag_or_true(v, "enable_output_detection")?;
        Some(
            OGConnectorConfig {
                og_cluster,
                og_base_url,
                og_api_key,
                application_id,
                timeout_ms,
                enable_input_detection,
                enable_output_detection,
            },
        )
    }

    /// Reads the configuration of one rule of the gateway's format.
    pub fn from_rule(v: &Value) -> (r: Option<Self>)
        ensures
            opt_view(r) == rule_of(value_model(*v)),
    {
        match read_texts_or_empty(v, "_match_route_") {
            Some(_) => OGConnectorConfig::from_value(v),
            None => None,
        }
    }

    /// Reads the configuration of the first rule of a document in the
    /// gateway's format. `None` where the document is not in that format or
    /// has no rule.
    fn from_rules(v: &Value) -> (r: Option<Self>)
        ensures
            opt_view(r) == (match rules_of(value_model(*v)) {
                Some(a) => if a.len() > 0 {
                    rule_of(a[0])
                } else {
                    None
                },
                None => None,
            }),
    {
        if !v.is_object() {
            return None;
        }
        let field = match get_member(v, "_rules_") {
            Some(f) => f,
            None => return None,
        };
        let rules = match field.as_array() {
            Some(a) => a,
            None => return None,
        };
        let ghost a = models(rules@);
        let mut first: Option<OGConnectorConfig> = None;
        let mut i: usize = 0;
        while i < rules.len()
            invariant
                i <= rules.len(),
                a == models(rules@),
                rules_of(value_model(*v)) == (if all_rules(a) {
                    Some(a)
                } else {
                    None
                }),
                forall|k: int| 0 <= k < i ==> rule_of(#[trigger] a[k]) is Some,
                i > 0 ==> opt_view(first) == rule_of(a[0]),
                i == 0 ==> first is None,
            decreases rules.len() - i,
        {
            match OGConnectorConfig::from_rule(&rules[i]) {
                Some(c) => {
                    if i == 0 {
                        first = Some(c);
                    }
                },
                None => {
                    assert(rule_of(a[i as int]) is None);
                    return None;
                },
            }
            i += 1;
        }
        first
    }

    /// Resolves a parsed plugin configuration.
    pub fn resolve(v: &Value) -> (r: Option<Self>)
        ensures
            opt_view(r) == resolved_config(value_model(*v)),
    {
        match OGConnectorConfig::from_rules(v) {
            Some(c) => Some(c),
            None => OGConnectorConfig::from_value(v),
        }
    }

    /// Resolves the bytes of a plugin configuration. Two formats are read: the
    /// gateway's, with the configuration in the first rule under `_rules_`,
    /// and the plain one, with the fields at the top.
    pub fn from_slice(bytes: &[u8]) -> (r: Option<Self>)
        ensures
            opt_view(r) == configured(bytes@),
    {
        match parse(bytes) {
            Some(v) => OGConnectorConfig::resolve(&v),
            None => None,
        }
    }
}

/// The root context: holds the configuration, if one was resolved.
#[derive(Debug)]
pub struct OGConnectorRoot {
    pub config: Option<OGConnectorConfig>,
}

impl OGConnectorRoot {
    /// A root context without a configuration.
    pub fn new() -> (r: Self)
        ensures
            r.config is None,
    {
        OGConnectorRoot { config: None }
    }

    /// Takes the bytes of the plugin configuration, `None` where the host has
    /// none. The root keeps what they resolve to; where they resolve to
    /// nothing it keeps what it had, and exchanges go unchecked while it has
    /// nothing. The host is told to go on in every case.
    pub fn on_configure(&mut self, config_bytes: Option<&[u8]>) -> (r: bool)
        ensures
            r,
            opt_view(final(self).config) == after_configure(
                opt_view(old(self).config),
                match config_bytes {
                    Some(b) => Some(b@),
                    None => None,
                },
            ),
    {
        let bytes = match config_bytes {
            Some(b) => b,
            None => return true,
        };
        if bytes.len() == 0 {
            return true;
        }
        match OGConnectorConfig::from_slice(bytes) {
            Some(c) => {
                self.config = Some(c);
            },
            None => {},
        }
        true
    }
}

} // verus!
