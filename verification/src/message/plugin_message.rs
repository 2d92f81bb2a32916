//! Single messages from a plugin to the front end.

use crate::callbacks::HostCallbacks;
use crate::clock::{now_millis, now_nanos};
use crate::handler::PluginHandler;
use crate::json::{json_string, json_string_text};
use crate::metadata::PluginInstanceContext;
use crate::text::{decimal, decimal_text};
use vstd::prelude::*;
use vstd::string::*;

verus! {

/// The id of the message made at `nanos` nanoseconds after the epoch.
pub open spec fn message_id_text(nanos: nat) -> Seq<char> {
    "message_"@ + decimal_text(nanos)
}

/// The id of the message made at `nanos` nanoseconds after the epoch.
pub fn message_id_for(nanos: u128) -> (id: String)
    ensures
        id@ == message_id_text(nanos as nat),
{
    let mut id = "message_".to_string();
    id.append(decimal(nanos).as_str());
    id
}

/// An id for a new message, made from the time. Two messages made in the
/// same nanosecond share their id: ids tell messages apart for people, and
/// nothing is looked up by them.
pub fn generate_message_id() -> (id: String)
    ensures
        exists|nanos: nat| id@ == #[trigger] message_id_text(nanos),
{
    message_id_for(now_nanos())
}

/// The payload of a plugin message: a JSON object with its keys in
/// alphabetical order.
pub open spec fn plugin_message_text(
    plugin_id: Seq<char>,
    instance_id: Seq<char>,
    message_id: Seq<char>,
    content: Seq<char>,
    timestamp: nat,
) -> Seq<char> {
    "{\"content\":"@ + json_string_text(content) + ",\"instance_id\":"@ + json_string_text(
        instance_id,
    ) + ",\"message_id\":"@ + json_string_text(message_id)
        + ",\"message_type\":\"plugin_message\",\"plugin_id\":"@ + json_string_text(plugin_id)
        + ",\"timestamp\":"@ + decimal_text(timestamp) + "}"@
}

/// Writes the payload of a plugin message. The time is in milliseconds
/// since the epoch.
pub fn plugin_message_payload(
    plugin_id: &str,
    instance_id: &str,
    message_id: &str,
    content: &str,
    timestamp: u64,
) -> (payload: String)
    ensures
        payload@ == plugin_message_text(
            plugin_id@,
            instance_id@,
            message_id@,
            content@,
            timestamp as nat,
        ),
{
    let mut payload = "{\"content\":".to_string();
    payload.append(json_string(content).as_str());
    payload.append(",\"instance_id\":");
    payload.append(json_string(instance_id).as_str());
    payload.append(",\"message_id\":");
    payload.append(json_string(message_id).as_str());
    payload.append(",\"message_type\":\"plugin_message\",\"plugin_id\":");
    payload.append(json_string(plugin_id).as_str());
    payload.append(",\"timestamp\":");
    payload.append(decimal(timestamp as u128).as_str());
    payload.append("}");
    payload
}

/// Makes the payload of a plugin message and drops it: without the
/// context of an instance there is no host to hand it to, so nothing is
/// ever sent this way. Messages go out through
/// `PluginInstanceContext::send_message_to_frontend`.
pub fn send_message_to_frontend(plugin_id: &str, instance_id: &str, content: &str) -> (sent: bool)
    ensures
        !sent,
{
    let message_id = generate_message_id();
    let _ = plugin_message_payload(
        plugin_id,
        instance_id,
        message_id.as_str(),
        content,
        now_millis(),
    );
    false
}

/// Sending messages to the front end through the context of an instance.
pub trait PluginMessage<H: HostCallbacks> {
    /// Sends a message to the front end and tells whether the host took
    /// it. An instance without callbacks sends nothing.
    fn send_message_to_frontend(
        &self,
        content: &str,
        plugin_ctx: &PluginInstanceContext<H>,
    ) -> (sent: bool)
        ensures
            plugin_ctx.callbacks is None ==> !sent,
    ;
}

impl<T: PluginHandler> PluginMessage<T::Host> for T {
    fn send_message_to_frontend(
        &self,
        content: &str,
        plugin_ctx: &PluginInstanceContext<T::Host>,
    ) -> (sent: bool) {
        plugin_ctx.send_message_to_frontend(content)
    }
}

} // verus!
