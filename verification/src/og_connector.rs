//! The moderation service's replies: their shape, and how they are read from
//! JSON.
//!
//! A reply is a JSON object. Only `action` must be there; every other field
//! may be missing and then has its empty value. A field that is there with
//! the wrong type makes the whole reply malformed, and so does a body that is
//! not JSON or not an object. Fields that the schema does not name are
//! ignored.
use crate::extract::opt_text;
use crate::fields::{
    flag_field_or_false, i32_field_or_zero, opt_array_field, opt_text_field, read_flag_or_false,
    read_i32_or_zero, read_opt_array, read_opt_text, read_text, read_text_or_empty,
    read_texts_or_empty, read_u16, text_field, text_field_or_empty, texts_field_or_empty,
    u16_field,
};
use crate::json::{
    get_member, json_parse, member, models, object_keys, parse, texts, value_model, Json,
};
use serde_json::Value;
use vstd::prelude::*;

verus! {

/// The view of an optional value.
pub open spec fn opt_view<T: View>(o: Option<T>) -> Option<T::V> {
    match o {
        Some(x) => Some(x@),
        None => None,
    }
}

/// The view of a value that may be missing, of a reader that may fail.
pub open spec fn opt_opt_view<T: View>(o: Option<Option<T>>) -> Option<Option<T::V>> {
    match o {
        Some(x) => Some(opt_view(x)),
        None => None,
    }
}

/// Copies a list of texts.
pub fn clone_texts(items: &Vec<String>) -> (r: Vec<String>)
    ensures
        texts(r@) == texts(items@),
{
    let mut out: Vec<String> = Vec::new();
    let mut i: usize = 0;
    while i < items.len()
        invariant
            i <= items.len(),
            out.len() == i,
            forall|k: int| 0 <= k < i ==> (#[trigger] out@[k])@ == items@[k]@,
        decreases items.len() - i,
    {
        out.push(items[i].clone());
        i += 1;
    }
    assert(texts(out@) =~= texts(items@));
    out
}

/// Copies a text that may be missing.
pub fn clone_opt_text(t: &Option<String>) -> (r: Option<String>)
    ensures
        opt_text(r) == opt_text(*t),
{
    match t {
        Some(s) => Some(s.clone()),
        None => None,
    }
}

/// Risk found in one category.
#[derive(Debug, PartialEq, Eq)]
pub struct RiskInfo {
    /// `high_risk`, `medium_risk`, `low_risk` or `no_risk`.
    pub risk_level: String,
    /// The categories that were detected.
    pub categories: Vec<String>,
    /// How many entities were found (data risk only).
    pub entity_count: i32,
}

/// A [`RiskInfo`] as a specification sees it.
pub struct RiskInfoView {
    pub risk_level: Seq<char>,
    pub categories: Seq<Seq<char>>,
    pub entity_count: i32,
}

impl View for RiskInfo {
    type V = RiskInfoView;

    open spec fn view(&self) -> RiskInfoView {
        RiskInfoView {
            risk_level: self.risk_level@,
            categories: texts(self.categories@),
            entity_count: self.entity_count,
        }
    }
}

/// The risk record of a category of which nothing is said.
pub open spec fn no_risk_info() -> RiskInfoView {
    RiskInfoView { risk_level: Seq::empty(), categories: Seq::empty(), entity_count: 0 }
}

impl Default for RiskInfo {
    fn default() -> (r: Self)
        ensures
            r@ == no_risk_info(),
    {
        let r = RiskInfo { risk_level: String::new(), categories: Vec::new(), entity_count: 0 };
        assert(texts(r.categories@) =~= Seq::<Seq<char>>::empty());
        r
    }
}

impl Clone for RiskInfo {
    fn clone(&self) -> (r: Self)
        ensures
            r@ == self@,
    {
        RiskInfo {
            risk_level: self.risk_level.clone(),
            categories: clone_texts(&self.categories),
            entity_count: self.entity_count,
        }
    }
}

/// A ready-made HTTP response: status, content type and body.
#[derive(Debug, PartialEq, Eq)]
pub struct HttpResponse {
    pub code: u16,
    pub content_type: String,
    pub body: String,
}

/// An [`HttpResponse`] as a specification sees it.
pub struct HttpResponseView {
    pub code: u16,
    pub content_type: Seq<char>,
    pub body: Seq<char>,
}

impl View for HttpResponse {
    type V = HttpResponseView;

    open spec fn view(&self) -> HttpResponseView {
        HttpResponseView { code: self.code, content_type: self.content_type@, body: self.body@ }
    }
}

impl Clone for HttpResponse {
    fn clone(&self) -> (r: Self)
        ensures
            r@ == self@,
    {
        HttpResponse {
            code: self.code,
            content_type: self.content_type.clone(),
            body: self.body.clone(),
        }
    }
}

/// Summary of what the moderation service detected.
#[derive(Debug, PartialEq, Eq)]
pub struct DetectionResult {
    pub blacklist_hit: bool,
    pub blacklist_keywords: Vec<String>,
    pub whitelist_hit: bool,
    pub data_risk: RiskInfo,
    pub compliance_risk: RiskInfo,
    pub security_risk: RiskInfo,
    pub overall_risk_level: String,
    pub matched_scanners: Vec<String>,
    pub error: Option<String>,
}

/// A [`DetectionResult`] as a specification sees it.
pub struct DetectionResultView {
    pub blacklist_hit: bool,
    pub blacklist_keywords: Seq<Seq<char>>,
    pub whitelist_hit: bool,
    pub data_risk: RiskInfoView,
    pub compliance_risk: RiskInfoView,
    pub security_risk: RiskInfoView,
    pub overall_risk_level: Seq<char>,
    pub matched_scanners: Seq<Seq<char>>,
    pub error: Option<Seq<char>>,
}

impl View for DetectionResult {
    type V = DetectionResultView;

    open spec fn view(&self) -> DetectionResultView {
        DetectionResultView {
            blacklist_hit: self.blacklist_hit,
            blacklist_keywords: texts(self.blacklist_keywords@),
            whitelist_hit: self.whitelist_hit,
            data_risk: self.data_risk@,
            compliance_risk: self.compliance_risk@,
            security_risk: self.security_risk@,
            overall_risk_level: self.overall_risk_level@,
            matched_scanners: texts(self.matched_scanners@),
            error: opt_text(self.error),
        }
    }
}

/// The detection summary of a reply that holds none.
pub open spec fn no_detection() -> DetectionResultView {
    DetectionResultView {
        blacklist_hit: false,
        blacklist_keywords: Seq::empty(),
        whitelist_hit: false,
        data_risk: no_risk_info(),
        compliance_risk: no_risk_info(),
        security_risk: no_risk_info(),
        overall_risk_level: Seq::empty(),
        matched_scanners: Seq::empty(),
        error: None,
    }
}

impl Default for DetectionResult {
    fn default() -> (r: Self)
        ensures
            r@ == no_detection(),
    {
        let r = DetectionResult {
            blacklist_hit: false,
            blacklist_keywords: Vec::new(),
            whitelist_hit: false,
            data_risk: RiskInfo::default(),
            compliance_risk: RiskInfo::default(),
            security_risk: RiskInfo::default(),
            overall_risk_level: String::new(),
            matched_scanners: Vec::new(),
            error: None,
        };
        assert(texts(r.blacklist_keywords@) =~= Seq::<Seq<char>>::empty());
        assert(texts(r.matched_scanners@) =~= Seq::<Seq<char>>::empty());
        r
    }
}

impl Clone for DetectionResult {
    fn clone(&self) -> (r: Self)
        ensures
            r@ == self@,
    {
        DetectionResult {
            blacklist_hit: self.blacklist_hit,
            blacklist_keywords: clone_texts(&self.blacklist_keywords),
            whitelist_hit: self.whitelist_hit,
            data_risk: self.data_risk.clone(),
            compliance_risk: self.compliance_risk.clone(),
            security_risk: self.security_risk.clone(),
            overall_risk_level: self.overall_risk_level.clone(),
            matched_scanners: clone_texts(&self.matched_scanners),
            error: clone_opt_text(&self.error),
        }
    }
}

/// The alternate model to which a request is rerouted.
#[derive(Debug, PartialEq, Eq)]
pub struct PrivateModelInfo {
    /// Base URL of the alternate model; empty where the reply gives none.
    pub api_base_url: String,
    /// Credential that replaces the request's own.
    pub api_key: Option<String>,
    pub model_name: String,
    pub provider: Option<String>,
    /// Destination route for the rerouted request.
    pub higress_cluster: Option<String>,
}

/// A [`PrivateModelInfo`] as a specification sees it.
pub struct PrivateModelView {
    pub api_base_url: Seq<char>,
    pub api_key: Option<Seq<char>>,
    pub model_name: Seq<char>,
    pub provider: Option<Seq<char>>,
    pub higress_cluster: Option<Seq<char>>,
}

impl View for PrivateModelInfo {
    type V = PrivateModelView;

    open spec fn view(&self) -> PrivateModelView {
        PrivateModelView {
            api_base_url: self.api_base_url@,
            api_key: opt_text(self.api_key),
            model_name: self.model_name@,
            provider: opt_text(self.provider),
            higress_cluster: opt_text(self.higress_cluster),
        }
    }
}

/// The table built by taking the pairs in their order, a later pair replacing
/// an earlier one with the same key.
pub open spec fn pairs_map(s: Seq<(String, String)>) -> Map<Seq<char>, Seq<char>>
    decreases s.len(),
{
    if s.len() == 0 {
        Map::empty()
    } else {
        pairs_map(s.drop_last()).insert(s.last().0@, s.last().1@)
    }
}

/// The placeholder-to-original table that undoes an anonymization.
#[derive(Debug, PartialEq, Eq)]
pub struct RestoreMapping {
    pub entries: Vec<(String, String)>,
}

impl View for RestoreMapping {
    type V = Map<Seq<char>, Seq<char>>;

    open spec fn view(&self) -> Map<Seq<char>, Seq<char>> {
        pairs_map(self.entries@)
    }
}

impl Clone for RestoreMapping {
    fn clone(&self) -> (r: Self)
        ensures
            r@ == self@,
    {
        let mut out: Vec<(String, String)> = Vec::new();
        let mut i: usize = 0;
        while i < self.entries.len()
            invariant
                i <= self.entries.len(),
                out.len() == i,
                pairs_map(out@) == pairs_map(self.entries@.take(i as int)),
            decreases self.entries.len() - i,
        {
            let ghost before = out@;
            let k = self.entries[i].0.clone();
            let v = self.entries[i].1.clone();
            out.push((k, v));
            proof {
                assert(out@.drop_last() =~= before);
                assert(self.entries@.take(i + 1).drop_last() =~= self.entries@.take(i as int));
            }
            i += 1;
        }
        assert(self.entries@.take(i as int) =~= self.entries@);
        RestoreMapping { entries: out }
    }
}

/// The reply to an input check.
#[derive(Debug, PartialEq, Eq)]
pub struct OGInputResponse {
    /// `block`, `replace`, `anonymize`, `proxy_response`,
    /// `switch_private_model`; anything else lets the request pass.
    pub action: String,
    pub request_id: String,
    pub detection_result: DetectionResult,
    pub block_response: Option<HttpResponse>,
    pub replace_response: Option<HttpResponse>,
    pub anonymized_messages: Option<Vec<Value>>,
    pub session_id: Option<String>,
    pub restore_mapping: Option<RestoreMapping>,
    /// The answer of an alternate model that the service asked itself.
    pub proxy_response: Option<HttpResponse>,
    pub private_model: Option<PrivateModelInfo>,
    pub bypass_token: Option<String>,
    pub bypass_header: Option<String>,
}

/// An [`OGInputResponse`] as a specification sees it.
pub struct InputResponseView {
    pub action: Seq<char>,
    pub request_id: Seq<char>,
    pub detection_result: DetectionResultView,
    pub block_response: Option<HttpResponseView>,
    pub replace_response: Option<HttpResponseView>,
    pub anonymized_messages: Option<Seq<Json>>,
    pub session_id: Option<Seq<char>>,
    pub restore_mapping: Option<Map<Seq<char>, Seq<char>>>,
    pub proxy_response: Option<HttpResponseView>,
    pub private_model: Option<PrivateModelView>,
    pub bypass_token: Option<Seq<char>>,
    pub bypass_header: Option<Seq<char>>,
}

impl View for OGInputResponse {
    type V = InputResponseView;

    open spec fn view(&self) -> InputResponseView {
        InputResponseView {
            action: self.action@,
            request_id: self.request_id@,
            detection_result: self.detection_result@,
            block_response: opt_view(self.block_response),
            replace_response: opt_view(self.replace_response),
            anonymized_messages: match self.anonymized_messages {
                Some(m) => Some(models(m@)),
                None => None,
            },
            session_id: opt_text(self.session_id),
            restore_mapping: opt_view(self.restore_mapping),
            proxy_response: opt_view(self.proxy_response),
            private_model: opt_view(self.private_model),
            bypass_token: opt_text(self.bypass_token),
            bypass_header: opt_text(self.bypass_header),
        }
    }
}

/// The reply to an output check.
#[derive(Debug, PartialEq, Eq)]
pub struct OGOutputResponse {
    /// `block`, `restore`, `anonymize`; anything else lets the response pass.
    pub action: String,
    pub request_id: String,
    pub detection_result: DetectionResult,
    pub block_response: Option<HttpResponse>,
    pub replace_response: Option<HttpResponse>,
    pub restored_content: Option<String>,
    pub anonymized_content: Option<String>,
    /// The content as it was, where the response passes.
    pub content: Option<String>,
    /// What a streamed response still holds back.
    pub buffer_pending: Option<String>,
}

/// An [`OGOutputResponse`] as a specification sees it.
pub struct OutputResponseView {
    pub action: Seq<char>,
    pub request_id: Seq<char>,
    pub detection_result: DetectionResultView,
    pub block_response: Option<HttpResponseView>,
    pub replace_response: Option<HttpResponseView>,
    pub restored_content: Option<Seq<char>>,
    pub anonymized_content: Option<Seq<char>>,
    pub content: Option<Seq<char>>,
    pub buffer_pending: Option<Seq<char>>,
}

impl View for OGOutputResponse {
    type V = OutputResponseView;

    open spec fn view(&self) -> OutputResponseView {
        OutputResponseView {
            action: self.action@,
            request_id: self.request_id@,
            detection_result: self.detection_result@,
            block_response: opt_view(self.block_response),
            replace_response: opt_view(self.replace_response),
            restored_content: opt_text(self.restored_content),
            anonymized_content: opt_text(self.anonymized_content),
            content: opt_text(self.content),
            buffer_pending: opt_text(self.buffer_pending),
        }
    }
}

/// The risk record that a JSON value holds.
pub open spec fn risk_info_of(j: Json) -> Option<RiskInfoView> {
    if j is Object && text_field_or_empty(j, "risk_level"@) is Some && texts_field_or_empty(
        j,
        "categories"@,
    ) is Some && i32_field_or_zero(j, "entity_count"@) is Some {
        Some(
            RiskInfoView {
                risk_level: text_field_or_empty(j, "risk_level"@)->0,
                categories: texts_field_or_empty(j, "categories"@)->0,
                entity_count: i32_field_or_zero(j, "entity_count"@)->0,
            },
        )
    } else {
        None
    }
}

/// A field that holds a risk record, the empty record where it is missing.
pub open spec fn risk_field(j: Json, key: Seq<char>) -> Option<RiskInfoView> {
    match member(j, key) {
        None => Some(no_risk_info()),
        Some(x) => risk_info_of(x),
    }
}

/// The detection summary that a JSON value holds.
pub open spec fn detection_result_of(j: Json) -> Option<DetectionResultView> {
    if j is Object && flag_field_or_false(j, "blacklist_hit"@) is Some && texts_field_or_empty(
        j,
        "blacklist_keywords"@,
    ) is Some && flag_field_or_false(j, "whitelist_hit"@) is Some && risk_field(j, "data_risk"@)
        is Some && risk_field(j, "compliance_risk"@) is Some && risk_field(j, "security_risk"@)
        is Some && text_field_or_empty(j, "overall_risk_level"@) is Some && texts_field_or_empty(
        j,
        "matched_scanners"@,
    ) is Some && opt_text_field(j, "error"@) is Some {
        Some(
            DetectionResultView {
                blacklist_hit: flag_field_or_false(j, "blacklist_hit"@)->0,
                blacklist_keywords: texts_field_or_empty(j, "blacklist_keywords"@)->0,
                whitelist_hit: flag_field_or_false(j, "whitelist_hit"@)->0,
                data_risk: risk_field(j, "data_risk"@)->0,
                compliance_risk: risk_field(j, "compliance_risk"@)->0,
                security_risk: risk_field(j, "security_risk"@)->0,
                overall_risk_level: text_field_or_empty(j, "overall_risk_level"@)->0,
                matched_scanners: texts_field_or_empty(j, "matched_scanners"@)->0,
                error: opt_text_field(j, "error"@)->0,
            },
        )
    } else {
        None
    }
}

/// A field that holds a detection summary, the empty summary where it is
/// missing.
pub open spec fn detection_field(j: Json, key: Seq<char>) -> Option<DetectionResultView> {
    match member(j, key) {
        None => Some(no_detection()),
        Some(x) => detection_result_of(x),
    }
}

/// The HTTP response that a JSON value holds: all three fields must be there.
pub open spec fn http_response_of(j: Json) -> Option<HttpResponseView> {
    if j is Object && u16_field(j, "code"@) is Some && text_field(j, "content_type"@) is Some
        && text_field(j, "body"@) is Some {
        Some(
            HttpResponseView {
                code: u16_field(j, "code"@)->0,
                content_type: text_field(j, "content_type"@)->0,
                body: text_field(j, "body"@)->0,
            },
        )
    } else {
        None
    }
}

/// A field that holds an HTTP response, and may be missing or null.
pub open spec fn opt_http_field(j: Json, key: Seq<char>) -> Option<Option<HttpResponseView>> {
    match member(j, key) {
        None => Some(None),
        Some(Json::Null) => Some(None),
        Some(x) => match http_response_of(x) {
            Some(h) => Some(Some(h)),
            None => None,
        },
    }
}

/// The alternate model that a JSON value holds: `model_name` must be there.
pub open spec fn private_model_of(j: Json) -> Option<PrivateModelView> {
    if j is Object && text_field_or_empty(j, "api_base_url"@) is Some && opt_text_field(
        j,
        "api_key"@,
    ) is Some && text_field(j, "model_name"@) is Some && opt_text_field(j, "provider"@) is Some
        && opt_text_field(j, "higress_cluster"@) is Some {
        Some(
            PrivateModelView {
                api_base_url: text_field_or_empty(j, "api_base_url"@)->0,
                api_key: opt_text_field(j, "api_key"@)->0,
                model_name: text_field(j, "model_name"@)->0,
                provider: opt_text_field(j, "provider"@)->0,
                higress_cluster: opt_text_field(j, "higress_cluster"@)->0,
            },
        )
    } else {
        None
    }
}

/// A field that holds an alternate model, and may be missing or null.
pub open spec fn opt_private_model_field(j: Json, key: Seq<char>) -> Option<
    Option<PrivateModelView>,
> {
    match member(j, key) {
        None => Some(None),
        Some(Json::Null) => Some(None),
        Some(x) => match private_model_of(x) {
            Some(p) => Some(Some(p)),
            None => None,
        },
    }
}

/// Whether every value of an object is a string.
pub open spec fn all_string_values(m: Map<Seq<char>, Json>) -> bool {
    forall|k: Seq<char>| m.dom().contains(k) ==> (#[trigger] m[k]) is String
}

/// The restore table that a JSON value holds: an object whose values are all
/// strings.
pub open spec fn mapping_of(j: Json) -> Option<Map<Seq<char>, Seq<char>>> {
    match j {
        Json::Object(m) => if all_string_values(m) {
            Some(m.map_values(|x: Json| x->String_0))
        } else {
            None
        },
        _ => None,
    }
}

/// A field that holds a restore table, and may be missing or null.
pub open spec fn opt_mapping_field(j: Json, key: Seq<char>) -> Option<
    Option<Map<Seq<char>, Seq<char>>>,
> {
    match member(j, key) {
        None => Some(None),
        Some(Json::Null) => Some(None),
        Some(x) => match mapping_of(x) {
            Some(m) => Some(Some(m)),
            None => None,
        },
    }
}

/// The reply to an input check that a JSON value holds.
pub open spec fn input_response_of(j: Json) -> Option<InputResponseView> {
    if j is Object && text_field(j, "action"@) is Some && text_field_or_empty(j, "request_id"@)
        is Some && detection_field(j, "detection_result"@) is Some && opt_http_field(
        j,
        "block_response"@,
    ) is Some && opt_http_field(j, "replace_response"@) is Some && opt_array_field(
        j,
        "anonymized_messages"@,
    ) is Some && opt_text_field(j, "session_id"@) is Some && opt_mapping_field(
        j,
        "restore_mapping"@,
    ) is Some && opt_http_field(j, "proxy_response"@) is Some && opt_private_model_field(
        j,
        "private_model"@,
    ) is Some && opt_text_field(j, "bypass_token"@) is Some && opt_text_field(
        j,
        "bypass_header"@,
    ) is Some {
        Some(
            InputResponseView {
                action: text_field(j, "action"@)->0,
                request_id: text_field_or_empty(j, "request_id"@)->0,
                detection_result: detection_field(j, "detection_result"@)->0,
                block_response: opt_http_field(j, "block_response"@)->0,
                replace_response: opt_http_field(j, "replace_response"@)->0,
                anonymized_messages: opt_array_field(j, "anonymized_messages"@)->0,
                session_id: opt_text_field(j, "session_id"@)->0,
                restore_mapping: opt_mapping_field(j, "restore_mapping"@)->0,
                proxy_response: opt_http_field(j, "proxy_response"@)->0,
                private_model: opt_private_model_field(j, "private_model"@)->0,
                bypass_token: opt_text_field(j, "bypass_token"@)->0,
                bypass_header: opt_text_field(j, "bypass_header"@)->0,
            },
        )
    } else {
        None
    }
}

/// The reply to an output check that a JSON value holds.
pub open spec fn output_response_of(j: Json) -> Option<OutputResponseView> {
    if j is Object && text_field(j, "action"@) is Some && text_field_or_empty(j, "request_id"@)
        is Some && detection_field(j, "detection_result"@) is Some && opt_http_field(
        j,
        "block_response"@,
    ) is Some && opt_http_field(j, "replace_response"@) is Some && opt_text_field(
        j,
        "restored_content"@,
    ) is Some && opt_text_field(j, "anonymized_content"@) is Some && opt_text_field(
        j,
        "content"@,
    ) is Some && opt_text_field(j, "buffer_pending"@) is Some {
        Some(
            OutputResponseView {
                action: text_field(j, "action"@)->0,
                request_id: text_field_or_empty(j, "request_id"@)->0,
                detection_result: detection_field(j, "detection_result"@)->0,
                block_response: opt_http_field(j, "block_response"@)->0,
                replace_response: opt_http_field(j, "replace_response"@)->0,
                restored_content: opt_text_field(j, "restored_content"@)->0,
                anonymized_content: opt_text_field(j, "anonymized_content"@)->0,
                content: opt_text_field(j, "content"@)->0,
                buffer_pending: opt_text_field(j, "buffer_pending"@)->0,
            },
        )
    } else {
        None
    }
}

/// The reply to an input check that a body holds; `None` where the body is
/// malformed.
pub open spec fn decoded_input(body: Seq<u8>) -> Option<InputResponseView> {
    match json_parse(body) {
        Some(j) => input_response_of(j),
        None => None,
    }
}

/// The reply to an output check that a body holds; `None` where the body is
/// malformed.
pub open spec fn decoded_output(body: Seq<u8>) -> Option<OutputResponseView> {
    match json_parse(body) {
        Some(j) => output_response_of(j),
        None => None,
    }
}

impl RiskInfo {
    /// Reads a risk record from a JSON value.
    pub fn from_value(v: &Value) -> (r: Option<Self>)
        ensures
            opt_view(r) == risk_info_of(value_model(*v)),
    {
        if !v.is_object() {
            return None;
        }
        let risk_level = read_text_or_empty(v, "risk_level")?;
        let categories = read_texts_or_empty(v, "categories")?;
        let entity_count = read_i32_or_zero(v, "entity_count")?;
        Some(RiskInfo { risk_level, categories, entity_count })
    }

    /// Reads the risk record under `key`, the empty record where the key is
    /// missing.
    pub fn from_field(obj: &Value, key: &str) -> (r: Option<Self>)
        ensures
            opt_view(r) == risk_field(value_model(*obj), key@),
    {
        match get_member(obj, key) {
            Some(x) => RiskInfo::from_value(x),
            None => Some(RiskInfo::default()),
        }
    }
}

impl DetectionResult {
    /// Reads a detection summary from a JSON value.
    pub fn from_value(v: &Value) -> (r: Option<Self>)
        ensures
            opt_view(r) == detection_result_of(value_model(*v)),
    {
        if !v.is_object() {
            return None;
        }
        let blacklist_hit = read_flag_or_false(v, "blacklist_hit")?;
        let blacklist_keywords = read_texts_or_empty(v, "blacklist_keywords")?;
        let whitelist_hit = read_flag_or_false(v, "whitelist_hit")?;
        let data_risk = RiskInfo::from_field(v, "data_risk")?;
        let compliance_risk = RiskInfo::from_field(v, "compliance_risk")?;
        let security_risk = RiskInfo::from_field(v, "security_risk")?;
        let overall_risk_level = read_text_or_empty(v, "overall_risk_level")?;
        let matched_scanners = read_texts_or_empty(v, "matched_scanners")?;
        let error = read_opt_text(v, "error")?;
        Some(
            DetectionResult {
                blacklist_hit,
                blacklist_keywords,
                whitelist_hit,
                data_risk,
                compliance_risk,
                security_risk,
                overall_risk_level,
                matched_scanners,
                error,
            },
        )
    }

    /// Reads the detection summary under `key`, the empty summary where the
    /// key is missing.
    pub fn from_field(obj: &Value, key: &str) -> (r: Option<Self>)
        ensures
            opt_view(r) == detection_field(value_model(*obj), key@),
    {
        match get_member(obj, key) {
            Some(x) => DetectionResult::from_value(x),
            None => Some(DetectionResult::default()),
        }
    }
}

impl HttpResponse {
    /// Reads an HTTP response from a JSON value.
    pub fn from_value(v: &Value) -> (r: Option<Self>)
        ensures
            opt_view(r) == http_response_of(value_model(*v)),
    {
        if !v.is_object() {
            return None;
        }
        let code = read_u16(v, "code")?;
        let content_type = read_text(v, "content_type")?;
        let body = read_text(v, "body")?;
        Some(HttpResponse { code, content_type, body })
    }

    /// Reads the HTTP response under `key`; `Some(None)` where the key is
    /// missing or null.
    pub fn from_field(obj: &Value, key: &str) -> (r: Option<Option<Self>>)
        ensures
            opt_opt_view(r) == opt_http_field(value_model(*obj), key@),
    {
        match get_member(obj, key) {
            Some(x) => {
                if x.is_null() {
                    Some(None)
                } else {
                    match HttpResponse::from_value(x) {
                        Some(h) => Some(Some(h)),
                        None => None,
                    }
                }
            },
            None => Some(None),
        }
    }
}

impl PrivateModelInfo {
    /// Reads an alternate model from a JSON value.
    pub fn from_value(v: &Value) -> (r: Option<Self>)
        ensures
            opt_view(r) == private_model_of(value_model(*v)),
    {
        if !v.is_object() {
            return None;
        }
        let api_base_url = read_text_or_empty(v, "api_base_url")?;
        let api_key = read_opt_text(v, "api_key")?;
        let model_name = read_text(v, "model_name")?;
        let provider = read_opt_text(v, "provider")?;
        let higress_cluster = read_opt_text(v, "higress_cluster")?;
        Some(PrivateModelInfo { api_base_url, api_key, model_name, provider, higress_cluster })
    }

    /// Reads the alternate model under `key`; `Some(None)` where the key is
    /// missing or null.
    pub fn from_field(obj: &Value, key: &str) -> (r: Option<Option<Self>>)
        ensures
            opt_opt_view(r) == opt_private_model_field(value_model(*obj), key@),
    {
        match get_member(obj, key) {
            Some(x) => {
                if x.is_null() {
                    Some(None)
                } else {
                    match PrivateModelInfo::from_value(x) {
                        Some(p) => Some(Some(p)),
                        None => None,
                    }
                }
            },
            None => Some(None),
        }
    }
}

impl RestoreMapping {
    /// Reads a restore table from a JSON value.
    pub fn from_value(v: &Value) -> (r: Option<Self>)
        ensures
            opt_view(r) == mapping_of(value_model(*v)),
    {
        if !v.is_object() {
            return None;
        }
        let keys = object_keys(v);
        let ghost m = value_model(*v)->Object_0;
        let mut entries: Vec<(String, String)> = Vec::new();
        let mut i: usize = 0;
        while i < keys.len()
            invariant
                i <= keys.len(),
                value_model(*v) == Json::Object(m),
                texts(keys@).to_set() == m.dom(),
                forall|k: int| 0 <= k < i ==> m.dom().contains(#[trigger] keys@[k]@),
                forall|k: int| 0 <= k < i ==> m[#[trigger] keys@[k]@] is String,
                pairs_map(entries@) == Map::new(
                    |t: Seq<char>| exists|k: int| 0 <= k < i && (#[trigger] keys@[k])@ == t,
                    |t: Seq<char>| m[t]->String_0,
                ),
            decreases keys.len() - i,
        {
            let key = &keys[i];
            proof {
                assert(texts(keys@)[i as int] == key@);
                assert(texts(keys@).contains(key@));
                assert(texts(keys@).to_set().contains(key@));
            }
            let field = match get_member(v, key.as_str()) {
                Some(x) => x,
                None => {
                    proof {
                        assert(false);
                    }
                    return None;
                },
            };
            let text = match field.as_str() {
                Some(s) => s.to_owned(),
                None => {
                    assert(!all_string_values(m)) by {
                        assert(!(m[key@] is String));
                    }
                    return None;
                },
            };
            let ghost before = entries@;
            let ghost shown = pairs_map(before);
            entries.push((key.clone(), text));
            proof {
                assert(entries@.drop_last() =~= before);
                let want = Map::new(
                    |t: Seq<char>| exists|k: int| 0 <= k < i + 1 && (#[trigger] keys@[k])@ == t,
                    |t: Seq<char>| m[t]->String_0,
                );
                assert(pairs_map(entries@) == shown.insert(key@, m[key@]->String_0));
                assert forall|t: Seq<char>| want.dom().contains(t) implies #[trigger] shown.insert(
                    key@,
                    m[key@]->String_0,
                ).dom().contains(t) by {
                    let k = choose|k: int| 0 <= k < i + 1 && (#[trigger] keys@[k])@ == t;
                    if k < i {
                        assert(shown.dom().contains(t));
                    }
                }
                assert(keys@[i as int]@ == key@);
                assert(pairs_map(entries@) =~= want);
            }
            i += 1;
        }
        proof {
            assert forall|t: Seq<char>| m.dom().contains(t) implies (#[trigger] m[t]) is String by {
                assert(texts(keys@).to_set().contains(t));
                assert(texts(keys@).contains(t));
                let k = choose|k: int| 0 <= k < texts(keys@).len() && texts(keys@)[k] == t;
                assert(keys@[k]@ == t);
            }
            assert(all_string_values(m));
            assert forall|t: Seq<char>| m.dom().contains(t) implies pairs_map(
                entries@,
            ).dom().contains(t) by {
                assert(texts(keys@).to_set().contains(t));
                assert(texts(keys@).contains(t));
                let k = choose|k: int| 0 <= k < texts(keys@).len() && texts(keys@)[k] == t;
                assert(keys@[k]@ == t);
            }
            assert(pairs_map(entries@) =~= m.map_values(|x: Json| x->String_0));
        }
        Some(RestoreMapping { entries })
    }

    /// Reads the restore table under `key`; `Some(None)` where the key is
    /// missing or null.
    pub fn from_field(obj: &Value, key: &str) -> (r: Option<Option<Self>>)
        ensures
            opt_opt_view(r) == opt_mapping_field(value_model(*obj), key@),
    {
        match get_member(obj, key) {
            Some(x) => {
                if x.is_null() {
                    Some(None)
                } else {
                    match RestoreMapping::from_value(x) {
                        Some(m) => Some(Some(m)),
                        None => None,
                    }
                }
            },
            None => Some(None),
        }
    }
}

impl OGInputResponse {
    /// Reads the reply to an input check from a JSON value.
    pub fn from_value(v: &Value) -> (r: Option<Self>)
        ensures
            opt_view(r) == input_response_of(value_model(*v)),
    {
        if !v.is_object() {
            return None;
        }
        let action = read_text(v, "action")?;
        let request_id = read_text_or_empty(v, "request_id")?;
        let detection_result = DetectionResult::from_field(v, "detection_result")?;
        let block_response = HttpResponse::from_field(v, "block_response")?;
        let replace_response = HttpResponse::from_field(v, "replace_response")?;
        let anonymized_messages = read_opt_array(v, "anonymized_messages")?;
        let session_id = read_opt_text(v, "session_id")?;
        let restore_mapping = RestoreMapping::from_field(v, "restore_mapping")?;
        let proxy_response = HttpResponse::from_field(v, "proxy_response")?;
        let private_model = PrivateModelInfo::from_field(v, "private_model")?;
        let bypass_token = read_opt_text(v, "bypass_token")?;
        let bypass_header = read_opt_text(v, "bypass_header")?;
        Some(
            OGInputResponse {
                action,
                request_id,
                detection_result,
                block_response,
                replace_response,
                anonymized_messages,
                session_id,
                restore_mapping,
                proxy_response,
                private_model,
                bypass_token,
                bypass_header,
            },
        )
    }

    /// Reads the reply to an input check from the body of the moderation
    /// service's answer. `None` where the body is malformed.
    pub fn from_slice(body: &[u8]) -> (r: Option<Self>)
        ensures
            opt_view(r) == decoded_input(body@),
    {
        match parse(body) {
            Some(v) => OGInputResponse::from_value(&v),
            None => None,
        }
    }
}

impl OGOutputResponse {
    /// Reads the reply to an output check from a JSON value.
    pub fn from_value(v: &Value) -> (r: Option<Self>)
        ensures
            opt_view(r) == output_response_of(value_model(*v)),
    {
        if !v.is_object() {
            return None;
        }
        let action = read_text(v, "action")?;
        let request_id = read_text_or_empty(v, "request_id")?;
        let detection_result = DetectionResult::from_field(v, "detection_result")?;
        let block_response = HttpResponse::from_field(v, "block_response")?;
        let replace_response = HttpResponse::from_field(v, "replace_response")?;
        let restored_content = read_opt_text(v, "restored_content")?;
        let anonymized_content = read_opt_text(v, "anonymized_content")?;
        let content = read_opt_text(v, "content")?;
        let buffer_pending = read_opt_text(v, "buffer_pending")?;
        Some(
            OGOutputResponse {
                action,
                request_id,
                detection_result,
                block_response,
                replace_response,
                restored_content,
                anonymized_content,
                content,
                buffer_pending,
            },
        )
    }

    /// Reads the reply to an output check from the body of the moderation
    /// service's answer. `None` where the body is malformed.
    pub fn from_slice(body: &[u8]) -> (r: Option<Self>)
        ensures
            opt_view(r) == decoded_output(body@),
    {
        match parse(body) {
            Some(v) => OGOutputResponse::from_value(&v),
            None => None,
        }
    }
}


/// What a verdict asks for. Each action carries what the service sent along
/// for it, which may be nothing.
#[derive(Debug, PartialEq, Eq)]
pub enum VerdictAction {
    /// Let the traffic pass as it is.
    Pass,
    /// Answer the client with this response in place of the traffic.
    Block { response: Option<HttpResponse> },
    /// Answer the client with this response in place of the upstream's.
    Replace { response: Option<HttpResponse> },
    /// Send the request on with these messages in place of its own.
    Anonymize { messages: Option<Vec<Value>> },
    /// Answer the client with what an alternate model said.
    ProxyResponse { response: Option<HttpResponse> },
    /// Send the request on to an alternate model.
    SwitchModel {
        private_model: Option<PrivateModelInfo>,
        bypass_token: Option<String>,
        bypass_header: Option<String>,
    },
    /// Put this content, with placeholders resolved, in the response.
    Restore { content: Option<String> },
    /// Put this content, with placeholders in it, in the response.
    AnonymizeOutput { content: Option<String> },
}

/// A [`VerdictAction`] as a specification sees it.
pub enum VerdictActionView {
    Pass,
    Block { response: Option<HttpResponseView> },
    Replace { response: Option<HttpResponseView> },
    Anonymize { messages: Option<Seq<Json>> },
    ProxyResponse { response: Option<HttpResponseView> },
    SwitchModel {
        private_model: Option<PrivateModelView>,
        bypass_token: Option<Seq<char>>,
        bypass_header: Option<Seq<char>>,
    },
    Restore { content: Option<Seq<char>> },
    AnonymizeOutput { content: Option<Seq<char>> },
}

impl View for VerdictAction {
    type V = VerdictActionView;

    open spec fn view(&self) -> VerdictActionView {
        match *self {
            VerdictAction::Pass => VerdictActionView::Pass,
            VerdictAction::Block { response } => VerdictActionView::Block {
                response: opt_view(response),
            },
            VerdictAction::Replace { response } => VerdictActionView::Replace {
                response: opt_view(response),
            },
            VerdictAction::Anonymize { messages } => VerdictActionView::Anonymize {
                messages: match messages {
                    Some(m) => Some(models(m@)),
                    None => None,
                },
            },
            VerdictAction::ProxyResponse { response } => VerdictActionView::ProxyResponse {
                response: opt_view(response),
            },
            VerdictAction::SwitchModel {
                private_model,
                bypass_token,
                bypass_header,
            } => VerdictActionView::SwitchModel {
                private_model: opt_view(private_model),
                bypass_token: opt_text(bypass_token),
                bypass_header: opt_text(bypass_header),
            },
            VerdictAction::Restore { content } => VerdictActionView::Restore {
                content: opt_text(content),
            },
            VerdictAction::AnonymizeOutput { content } => VerdictActionView::AnonymizeOutput {
                content: opt_text(content),
            },
        }
    }
}

/// The verdict of an input check: what it asks for, and what it issues for
/// the restoration of the response.
#[derive(Debug, PartialEq, Eq)]
pub struct InputVerdict {
    pub action: VerdictAction,
    pub session_id: Option<String>,
    pub restore_mapping: Option<RestoreMapping>,
}

/// An [`InputVerdict`] as a specification sees it.
pub struct InputVerdictView {
    pub action: VerdictActionView,
    pub session_id: Option<Seq<char>>,
    pub restore_mapping: Option<Map<Seq<char>, Seq<char>>>,
}

impl View for InputVerdict {
    type V = InputVerdictView;

    open spec fn view(&self) -> InputVerdictView {
        InputVerdictView {
            action: self.action@,
            session_id: opt_text(self.session_id),
            restore_mapping: opt_view(self.restore_mapping),
        }
    }
}

/// What the reply to an input check asks for. An action that the connector
/// does not know lets the request pass.
pub open spec fn input_action(v: InputResponseView) -> VerdictActionView {
    if v.action == "block"@ {
        VerdictActionView::Block { response: v.block_response }
    } else if v.action == "replace"@ {
        VerdictActionView::Replace { response: v.replace_response }
    } else if v.action == "anonymize"@ {
        VerdictActionView::Anonymize { messages: v.anonymized_messages }
    } else if v.action == "proxy_response"@ {
        VerdictActionView::ProxyResponse { response: v.proxy_response }
    } else if v.action == "switch_private_model"@ {
        VerdictActionView::SwitchModel {
            private_model: v.private_model,
            bypass_token: v.bypass_token,
            bypass_header: v.bypass_header,
        }
    } else {
        VerdictActionView::Pass
    }
}

/// The verdict that the reply to an input check holds.
pub open spec fn input_verdict(v: InputResponseView) -> InputVerdictView {
    InputVerdictView {
        action: input_action(v),
        session_id: v.session_id,
        restore_mapping: v.restore_mapping,
    }
}

/// What the reply to an output check asks for. An action that the connector
/// does not know lets the response pass.
pub open spec fn output_action(v: OutputResponseView) -> VerdictActionView {
    if v.action == "block"@ {
        VerdictActionView::Block { response: v.block_response }
    } else if v.action == "anonymize"@ {
        VerdictActionView::AnonymizeOutput { content: v.anonymized_content }
    } else if v.action == "restore"@ {
        VerdictActionView::Restore { content: v.restored_content }
    } else {
        VerdictActionView::Pass
    }
}

/// The verdict of the input check that a body holds; `None` where the body
/// is malformed.
pub open spec fn input_verdict_of(body: Seq<u8>) -> Option<InputVerdictView> {
    match decoded_input(body) {
        Some(v) => Some(input_verdict(v)),
        None => None,
    }
}

/// What the verdict of the output check that a body holds asks for; `None`
/// where the body is malformed.
pub open spec fn output_action_of(body: Seq<u8>) -> Option<VerdictActionView> {
    match decoded_output(body) {
        Some(v) => Some(output_action(v)),
        None => None,
    }
}

impl OGInputResponse {
    /// The verdict that this reply holds. Of the payloads that the reply
    /// brings, the verdict keeps the one that its action names.
    pub fn into_verdict(self) -> (r: InputVerdict)
        ensures
            r@ == input_verdict(self@),
    {
        let OGInputResponse {
            action,
            request_id: _,
            detection_result: _,
            block_response,
            replace_response,
            anonymized_messages,
            session_id,
            restore_mapping,
            proxy_response,
            private_model,
            bypass_token,
            bypass_header,
        } = self;
        let action = if str::eq(action.as_str(), "block") {
            VerdictAction::Block { response: block_response }
        } else if str::eq(action.as_str(), "replace") {
            VerdictAction::Replace { response: replace_response }
        } else if str::eq(action.as_str(), "anonymize") {
            VerdictAction::Anonymize { messages: anonymized_messages }
        } else if str::eq(action.as_str(), "proxy_response") {
            VerdictAction::ProxyResponse { response: proxy_response }
        } else if str::eq(action.as_str(), "switch_private_model") {
            VerdictAction::SwitchModel { private_model, bypass_token, bypass_header }
        } else {
            VerdictAction::Pass
        };
        InputVerdict { action, session_id, restore_mapping }
    }
}

impl OGOutputResponse {
    /// What this reply asks for. Of the payloads that the reply brings, the
    /// action keeps the one that it names.
    pub fn into_action(self) -> (r: VerdictAction)
        ensures
            r@ == output_action(self@),
    {
        if str::eq(self.action.as_str(), "block") {
            VerdictAction::Block { response: self.block_response }
        } else if str::eq(self.action.as_str(), "anonymize") {
            VerdictAction::AnonymizeOutput { content: self.anonymized_content }
        } else if str::eq(self.action.as_str(), "restore") {
            VerdictAction::Restore { content: self.restored_content }
        } else {
            VerdictAction::Pass
        }
    }
}

impl InputVerdict {
    /// Reads the verdict of an input check from the body of the moderation
    /// service's answer. `None` where the body is malformed.
    pub fn from_slice(body: &[u8]) -> (r: Option<Self>)
        ensures
            opt_view(r) == input_verdict_of(body@),
    {
        match OGInputResponse::from_slice(body) {
            Some(v) => Some(v.into_verdict()),
            None => None,
        }
    }
}

impl VerdictAction {
    /// Reads what the verdict of an output check asks for from the body of
    /// the moderation service's answer. `None` where the body is malformed.
    pub fn from_output_slice(body: &[u8]) -> (r: Option<Self>)
        ensures
            opt_view(r) == output_action_of(body@),
    {
        match OGOutputResponse::from_slice(body) {
            Some(v) => Some(v.into_action()),
            None => None,
        }
    }
}

} // verus!
