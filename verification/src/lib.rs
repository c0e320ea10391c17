//! Content-safety interception for LLM-facing HTTP traffic.
//!
//! One exchange is a client request paired with its eventual response. The
//! connector buffers each body, has a moderation service judge it, and applies
//! the verdict before traffic goes on. The host runtime owns all I/O: it feeds
//! events in and carries out the host calls that come back.
pub mod client;
pub mod config;
pub mod connector;
pub mod extract;
pub mod fields;
pub mod host;
pub mod json;
pub mod laws;
pub mod og_connector;
pub mod text;

pub use config::{default_timeout, default_true, OGConnectorConfig, OGConnectorRoot};
pub use connector::{ConnectorState, OGConnector};
pub use og_connector::{
    DetectionResult, HttpResponse, OGInputResponse, OGOutputResponse, RiskInfo, VerdictAction,
};
pub use text::safe_truncate;
