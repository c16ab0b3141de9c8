//! Provider-side logic for talking to OpenAI-compatible chat endpoints.

pub mod config;
pub mod error;
pub mod json;
pub mod openai;
pub mod protocol;
pub mod proto;
pub mod serde_bridge;
pub mod settings;
pub mod text;
pub mod tools;
pub mod warp_adapter;

pub use config::{runtime_config, set_runtime_config, OpenAiConfig, RuntimeConfigStore};
pub use error::AIApiError;
pub use openai::OpenAiAdapter;
pub use protocol::{protocol_from_value, Protocol};
pub use settings::{AiProtocol, AiProviderPageAction};
pub use tools::registry::{ToolDefinition, ToolRegistry};
pub use warp_adapter::WarpServerAdapter;
