//! Core of a plugin bridge: the boundary form of plugin metadata, the
//! callback registry, the per-instance context, and the streaming
//! protocol with its lifecycle state machine.

pub mod api;
pub mod boundary;
pub mod callbacks;
pub mod clock;
pub mod handler;
pub mod json;
pub mod message;
pub mod metadata;
pub mod symbols;
pub mod text;

pub use api::placeholder_for_compatibility;
pub use callbacks::{
    clear_host_callbacks, get_host_callbacks, set_host_callbacks, CallbackRegistry, Dispatch,
    HostCallbacks,
};
pub use handler::{HandlerError, PluginHandler};
pub use message::plugin_message::{send_message_to_frontend, PluginMessage};
pub use message::stream_message::{
    PluginStreamMessage, StreamControlData, StreamDataData, StreamEndData, StreamError, StreamInfo,
    StreamKind, StreamMessageData, StreamMessageWrapper, StreamRegistry, StreamStartData,
    StreamStatus,
};
pub use metadata::{
    convert_ffi_to_metadata, free_plugin_metadata_ffi, HistoryMessage, PluginInstanceContext,
    PluginMetadata, PluginMetadataFFI,
};
pub use symbols::PluginWrapper;
