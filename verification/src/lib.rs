//! The request and redirect engine of a command-line HTTP client.
//!
//! A run is prepared from a [`RequestConfig`], which checks everything that
//! can be checked before a request is made. From then on the engine is a
//! state machine: [`plan_request`] says what the next hop sends,
//! [`advance`] takes what came back and says what to put out and how the
//! run goes on. The caller does the sending and the writing.
//!
//! Every function states in its contract what it returns, over the
//! mathematical values of its arguments; the module `laws` proves what
//! holds of whole runs.

pub mod engine;
pub mod error;
pub mod headers;
pub mod laws;
pub mod plan;
pub mod render;
pub mod resolve;
pub mod response;
pub mod run;
pub mod session;
pub mod text;
pub mod url;

pub use crate::engine::{advance, decide, Event, Next, Step, MAX_REDIRECTS};
pub use crate::error::{classify, format_reqwest_error, ClientError, Diagnostic, DiagnosticKind,
    ErrorCategory, TransportFailure};
pub use crate::headers::{parse_header, Header, HeaderSet};
pub use crate::plan::{plan_request, HopState, RequestPlan};
pub use crate::resolve::{parse_resolve, ResolveTarget};
pub use crate::response::{HttpVersion, ResponseHeader, ResponseSnapshot};
pub use crate::run::{replay, simulate, RunOutcome, RunReport};
pub use crate::session::{prepare, RequestConfig, Session};
pub use crate::url::normalize_url;
