//! Call identities, progress states and zero-copy response headers of a
//! non-blocking HTTP client.
//!
//! Every exchange is named by a [`Call`]; the engine that owns the sockets
//! keeps the derived [`CallRef`] to route readiness events. What the engine
//! reports after each step is a [`SendState`] or a [`RecvState`], and the
//! headers of a [`Response`] are read in place from the bytes it received.

pub mod body;
pub mod call;
pub mod config;
pub mod header;
pub mod response;
pub mod simple_call;
pub mod state;
pub mod text;

pub use body::ResponseBody;
pub use call::Call;
pub use call::CallRef;
pub use config::HttpcCfg;
pub use header::Header;
pub use header::Headers;
pub use header::RawHeader;
pub use header::MAX_HEADERS;
pub use response::Response;
pub use simple_call::Phase;
pub use simple_call::SimpleCall;
pub use state::Error;
pub use state::RecvState;
pub use state::SendState;
