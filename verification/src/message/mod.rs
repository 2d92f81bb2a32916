//! Messages from a plugin to the host front end: single messages and
//! streams of chunks.

pub mod plugin_message;
pub mod stream_message;
