//! What a plugin implements: the steps of its life and the handling of
//! messages, each with a default.

use crate::callbacks::HostCallbacks;
use crate::metadata::{HistoryMessage, PluginInstanceContext, PluginMetadata};
use crate::text::{decimal, decimal_text};
use vstd::prelude::*;
use vstd::string::*;

verus! {

/// Why a step of a plugin failed.
#[derive(Debug, Clone)]
pub struct HandlerError {
    pub message: String,
}

/// The context with which an instance starts: the metadata as given, the
/// callbacks attached, and no history. Metadata without an instance id
/// cannot start an instance.
pub fn default_initialize<H: HostCallbacks>(callbacks: H, metadata: PluginMetadata) -> (context:
    Result<PluginInstanceContext<H>, HandlerError>)
    ensures
        context is Ok <==> metadata.instance_id is Some,
        context matches Ok(c) ==> c.instance_id@ == metadata.instance_id->Some_0@ && c.metadata
            == metadata && c.callbacks == Some(callbacks) && c.history is None,
        context matches Err(e) ==> e.message@
            == "Instance ID is required for plugin initialization"@,
{
    let instance_id = match &metadata.instance_id {
        Some(id) => Some(id.clone()),
        None => None,
    };
    match instance_id {
        Some(id) => {
            let mut context = PluginInstanceContext::new(id, metadata);
            context.set_callbacks(callbacks);
            Ok(context)
        },
        None => Err(
            HandlerError {
                message: "Instance ID is required for plugin initialization".to_string(),
            },
        ),
    }
}

/// What the default answer says of the history: nothing for a plugin that
/// did not ask for history, else how many messages there are, or that
/// there are none on record.
pub open spec fn history_note_text(require_history: bool, stored: Option<nat>) -> Seq<char> {
    if !require_history {
        Seq::empty()
    } else {
        match stored {
            Some(n) => "（包含 "@ + decimal_text(n) + " 条历史记录）"@,
            None => "（无历史记录）"@,
        }
    }
}

/// The number of messages in a stored history.
pub open spec fn stored_len(history: Option<Vec<HistoryMessage>>) -> Option<nat> {
    match history {
        Some(h) => Some(h@.len()),
        None => None,
    }
}

/// What the default answer says of the history of an instance.
pub fn history_note<H: HostCallbacks>(plugin_ctx: &PluginInstanceContext<H>) -> (note: String)
    ensures
        note@ == history_note_text(
            plugin_ctx.metadata.require_history,
            stored_len(plugin_ctx.history),
        ),
{
    if plugin_ctx.get_metadata().require_history {
        match plugin_ctx.get_history() {
            Some(history) => {
                let mut note = "（包含 ".to_string();
                note.append(decimal(history.len() as u128).as_str());
                note.append(" 条历史记录）");
                note
            },
            None => "（无历史记录）".to_string(),
        }
    } else {
        String::new()
    }
}

/// The default answer to a message: an echo that names the plugin.
pub open spec fn echo_text(name: Seq<char>, message: Seq<char>, note: Seq<char>) -> Seq<char> {
    "Echo from "@ + name + ": "@ + message + note
}

/// What the default handler tells the front end of a message.
pub open spec fn receipt_text(name: Seq<char>, message: Seq<char>, note: Seq<char>) -> Seq<char> {
    "["@ + name + "]收到消息："@ + message + note
}

/// Writes the default answer to a message.
pub fn echo_response(name: &str, message: &str, note: &str) -> (response: String)
    ensures
        response@ == echo_text(name@, message@, note@),
{
    let mut response = "Echo from ".to_string();
    response.append(name);
    response.append(": ");
    response.append(message);
    response.append(note);
    response
}

/// Writes what the default handler tells the front end of a message.
pub fn receipt(name: &str, message: &str, note: &str) -> (text: String)
    ensures
        text@ == receipt_text(name@, message@, note@),
{
    let mut text = "[".to_string();
    text.append(name);
    text.append("]收到消息：");
    text.append(message);
    text.append(note);
    text
}

/// The default handling of a message: the front end is told of it, and the
/// answer is an echo, whether or not the front end listened.
pub fn default_handle_message<H: HostCallbacks>(
    message: &str,
    plugin_ctx: &PluginInstanceContext<H>,
) -> (response: String)
    ensures
        response@ == echo_text(
            plugin_ctx.metadata.name@,
            message@,
            history_note_text(plugin_ctx.metadata.require_history, stored_len(plugin_ctx.history)),
        ),
{
    let note = history_note(plugin_ctx);
    let name = plugin_ctx.get_metadata().name.as_str();
    let response = echo_response(name, message, note.as_str());
    let _ = plugin_ctx.send_message_to_frontend(receipt(name, message, note.as_str()).as_str());
    response
}

/// A plugin, as its host drives it. Every step but the drawing of the
/// interface has a default; a plugin replaces the steps it cares for.
/// Nothing is assumed of a step that a plugin has replaced.
pub trait PluginHandler {
    /// The callbacks of the host that this plugin runs under.
    type Host: HostCallbacks;

    /// What the host passes to every drawing of the interface.
    type Context;

    /// The interface that the plugin draws on.
    type Ui;

    /// Makes the context of the instance. This runs once, before the
    /// plugin is mounted.
    fn initialize(&mut self, callbacks: Self::Host, metadata: PluginMetadata) -> Result<
        PluginInstanceContext<Self::Host>,
        HandlerError,
    > {
        default_initialize(callbacks, metadata)
    }

    /// Draws the interface, whenever the user did something or the
    /// interface has to change.
    fn update_ui(
        &mut self,
        ctx: &Self::Context,
        ui: &mut Self::Ui,
        plugin_ctx: &PluginInstanceContext<Self::Host>,
    );

    /// Runs when the plugin is mounted.
    fn on_mount(&mut self, plugin_ctx: &PluginInstanceContext<Self::Host>) -> Result<
        (),
        HandlerError,
    > {
        default_step(plugin_ctx)
    }

    /// Runs when the plugin is disposed of.
    fn on_dispose(&mut self, plugin_ctx: &PluginInstanceContext<Self::Host>) -> Result<
        (),
        HandlerError,
    > {
        default_step(plugin_ctx)
    }

    /// Runs when the plugin is connected.
    fn on_connect(&mut self, plugin_ctx: &PluginInstanceContext<Self::Host>) -> Result<
        (),
        HandlerError,
    > {
        default_step(plugin_ctx)
    }

    /// Runs when the plugin is disconnected.
    fn on_disconnect(&mut self, plugin_ctx: &PluginInstanceContext<Self::Host>) -> Result<
        (),
        HandlerError,
    > {
        default_step(plugin_ctx)
    }

    /// Answers a message.
    fn handle_message(&mut self, message: &str, plugin_ctx: &PluginInstanceContext<Self::Host>)
        -> Result<String, HandlerError> {
        Ok(default_handle_message(message, plugin_ctx))
    }

    /// The metadata of the plugin.
    fn get_metadata<'a>(&self, plugin_ctx: &'a PluginInstanceContext<Self::Host>)
        -> &'a PluginMetadata {
        plugin_ctx.get_metadata()
    }
}

/// The default of a step in the life of a plugin, be it mounting,
/// disposal, connection or disconnection: there is nothing to do, and
/// nothing fails.
pub fn default_step<H: HostCallbacks>(plugin_ctx: &PluginInstanceContext<H>) -> (done: Result<
    (),
    HandlerError,
>)
    ensures
        done is Ok,
{
    Ok(())
}

} // verus!
