//! Peer federation for herald instances: a registry of known peers and the
//! agents they expose, the decisions of the discovery watcher, and the
//! planning of a task relayed to a remote agent.

pub mod discovery;
pub mod discovery_laws;
pub mod json;
pub mod peer;
pub mod registry;
pub mod registry_laws;
pub mod relay;
pub mod search;
pub mod session_notify;
pub mod text;
pub mod tool;

pub use crate::discovery::{
    browser_step, service_registration, BrowserAction, BrowserEvent, ServiceRegistration,
    BROWSE_RETRY_SECS, SERVICE_TYPE,
};
pub use crate::peer::{AgentInfo, PeerHealth, PeerSource, PeerState};
pub use crate::registry::PeerRegistry;
pub use crate::relay::{PeerClientError, RelayRequest, RelayResponse};
pub use crate::tool::{
    DelegateToRemoteAgentTool, RelayCall, ToolDefinition, ToolError, ToolParameter,
};
