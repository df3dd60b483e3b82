//! The decisions of a Lambda web adapter: how it is configured, when the web server behind it
//! counts as ready, and what request a Lambda event becomes.

pub mod adapter;
pub mod environment;
pub mod extension;
pub mod forward;
pub mod headers;
pub mod options;
pub mod readiness;
pub mod server_url;
pub mod text;

pub use adapter::{Adapter, OptionsError, RunPlan};
pub use environment::Environment;
pub use extension::{
    next_event_request, register_request, runtime_api, ExtensionError, ExtensionMethod,
    ExtensionRequest,
};
pub use forward::{AppRequest, FetchError, InboundRequest, LambdaEvent};
pub use options::{variable_names, AdapterOptions, LambdaInvokeMode, Protocol};
pub use readiness::{
    probe_of, ArrivalAction, ArrivalEvent, InitOutcome, Probe, ProbeReply, INIT_TIME_LIMIT_MILLIS,
    READY_AT_START, RETRY_INTERVAL_MILLIS,
};
pub use text::{decimal_text, parse_bool, parse_u16, trim_base_path};
