//! The rules of a sandboxed host for Station Modules, stated and proved:
//! the bookkeeping of a peer-to-peer request/response protocol, the sandbox of
//! the module loader, and the reporting of what a module does.
//!
//! The library decides; it performs no input or output. The programs around
//! it wait for the network, read the disk and write to the console, and hand
//! the library what they found.

pub mod cli;
pub mod daemon;
pub mod peer;
pub mod runtime;
pub mod text;

pub use peer::behaviour::{
    InboundFailure, OutboundFailure, RequestId, RequestResponse, RequestResponseConfig,
    RequestResponseEvent, RequestResponseMessage,
};
pub use peer::handler::{RequestResponseHandler, RequestResponseHandlerEvent};
pub use peer::node::PeerNode;
pub use peer::protocol::{ProtocolInfo, RequestPayload, RequestProtocol, ResponsePayload};
pub use runtime::console_reporter::{ConsoleReporter, JobCompletionTracker};
pub use runtime::ext::ZinniaPermissions;
pub use runtime::module_loader::{get_module_root, ZinniaModuleLoader};
pub use runtime::reporter::{LogLevel, RecordingReporter, Reporter};
pub use runtime::runtime::{lassie_config, run_js_module, BootstrapOptions};
