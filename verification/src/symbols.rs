//! The entry points through which a host drives a plugin. Each answers
//! with a status code and nothing finer: zero for success, minus one for
//! failure.

use crate::boundary::{
    c_string, can_cross_boundary, crosses_boundary, read_c_buffer, to_c_buffer,
};
use crate::handler::{HandlerError, PluginHandler};
use crate::metadata::{
    boundary_form, convert_ffi_to_metadata, metadata_crosses, PluginInstanceContext,
    PluginMetadata, PluginMetadataFFI,
};
use vstd::prelude::*;
use vstd::string::*;

verus! {

/// The status code of a step that succeeded.
pub const STATUS_OK: i32 = 0;

/// The status code of a step that failed.
pub const STATUS_FAILED: i32 = -1;

/// The status code for the outcome of a step.
pub open spec fn status_of_outcome(succeeded: bool) -> i32 {
    if succeeded {
        STATUS_OK
    } else {
        STATUS_FAILED
    }
}

/// The status code for the outcome of a step.
pub fn status_code(succeeded: bool) -> (status: i32)
    ensures
        status == status_of_outcome(succeeded),
{
    if succeeded {
        STATUS_OK
    } else {
        STATUS_FAILED
    }
}

/// What the host gets for an answer of the plugin: the answer in a buffer
/// and the status of success, or no buffer and the status of failure. An
/// answer that cannot cross the boundary is a failure.
pub open spec fn reply_of(response: Option<Seq<char>>) -> (i32, Option<Seq<u8>>) {
    match response {
        Some(text) => if crosses_boundary(text) {
            (STATUS_OK, Some(c_string(text)))
        } else {
            (STATUS_FAILED, None)
        },
        None => (STATUS_FAILED, None),
    }
}

/// Packs the answer of the plugin for the host. `None` stands for a
/// handler that failed.
pub fn pack_reply(response: Option<String>) -> (reply: (i32, Option<Vec<u8>>))
    ensures
        reply.0 == reply_of(
            match response {
                Some(r) => Some(r@),
                None => None,
            },
        ).0,
        (match reply.1 {
            Some(buf) => Some(buf@),
            None => None,
        }) == reply_of(
            match response {
                Some(r) => Some(r@),
                None => None,
            },
        ).1,
{
    match response {
        Some(text) => {
            if can_cross_boundary(text.as_str()) {
                (STATUS_OK, Some(to_c_buffer(text.as_str())))
            } else {
                (STATUS_FAILED, None)
            }
        },
        None => (STATUS_FAILED, None),
    }
}

/// A plugin with the context of its instance. The context is there from
/// a successful initialization on.
pub struct PluginWrapper<P: PluginHandler> {
    pub handler: P,
    pub context: Option<PluginInstanceContext<P::Host>>,
}

impl<P: PluginHandler> PluginWrapper<P> {
    /// Wraps a plugin that has not been initialized.
    pub fn new(handler: P) -> (wrapper: Self)
        ensures
            wrapper.handler == handler,
            wrapper.context is None,
    {
        PluginWrapper { handler, context: None }
    }

    /// Initializes the plugin with the callbacks of the host and the
    /// metadata that came across the boundary. The context that the
    /// plugin makes is kept; a plugin that fails leaves the wrapper's
    /// context as it was.
    pub fn initialize(&mut self, callbacks: P::Host, metadata_ffi: &PluginMetadataFFI) -> (status:
        i32)
        ensures
            status == STATUS_OK || status == STATUS_FAILED,
            status == STATUS_OK ==> final(self).context is Some,
            status == STATUS_FAILED ==> final(self).context == old(self).context,
    {
        let metadata = convert_ffi_to_metadata(metadata_ffi);
        let outcome = self.handler.initialize(callbacks, metadata);
        self.keep_context(outcome)
    }

    /// Settles an initialization once the plugin has answered: the context
    /// that the plugin made is kept and the step succeeds, or the plugin
    /// failed, the step fails, and the context stays as it was.
    pub fn keep_context(
        &mut self,
        outcome: Result<PluginInstanceContext<P::Host>, HandlerError>,
    ) -> (status: i32)
        ensures
            match outcome {
                Ok(context) => status == STATUS_OK && final(self).context == Some(context),
                Err(_) => status == STATUS_FAILED && final(self).context == old(self).context,
            },
            final(self).handler == old(self).handler,
    {
        match outcome {
            Ok(context) => {
                self.context = Some(context);
                status_code(true)
            },
            Err(_) => status_code(false),
        }
    }

    /// Lets the plugin draw its interface. A plugin that has not been
    /// initialized is left alone, and so is the interface. Never a failure.
    pub fn update_ui(&mut self, ctx: &P::Context, ui: &mut P::Ui) -> (status: i32)
        ensures
            status == STATUS_OK,
            final(self).context == old(self).context,
            old(self).context is None ==> final(self).handler == old(self).handler && *final(ui)
                == *old(ui),
    {
        match &self.context {
            Some(plugin_context) => {
                self.handler.update_ui(ctx, ui, plugin_context);
            },
            None => {},
        }
        STATUS_OK
    }

    /// Tells the plugin that it is mounted. A plugin that has not been
    /// initialized is not told and stays as it is, and the step fails.
    pub fn on_mount(&mut self) -> (status: i32)
        ensures
            status == STATUS_OK || status == STATUS_FAILED,
            old(self).context is None ==> status == STATUS_FAILED && final(self).handler
                == old(self).handler,
            final(self).context == old(self).context,
    {
        match &self.context {
            Some(plugin_context) => status_code(self.handler.on_mount(plugin_context).is_ok()),
            None => STATUS_FAILED,
        }
    }

    /// Tells the plugin that it is disposed of. A plugin that has not been
    /// initialized is not told and stays as it is, and the step fails.
    pub fn on_dispose(&mut self) -> (status: i32)
        ensures
            status == STATUS_OK || status == STATUS_FAILED,
            old(self).context is None ==> status == STATUS_FAILED && final(self).handler
                == old(self).handler,
            final(self).context == old(self).context,
    {
        match &self.context {
            Some(plugin_context) => status_code(self.handler.on_dispose(plugin_context).is_ok()),
            None => STATUS_FAILED,
        }
    }

    /// Tells the plugin that it is connected. A plugin that has not been
    /// initialized is not told and stays as it is, and the step fails.
    pub fn on_connect(&mut self) -> (status: i32)
        ensures
            status == STATUS_OK || status == STATUS_FAILED,
            old(self).context is None ==> status == STATUS_FAILED && final(self).handler
                == old(self).handler,
            final(self).context == old(self).context,
    {
        match &self.context {
            Some(plugin_context) => status_code(self.handler.on_connect(plugin_context).is_ok()),
            None => STATUS_FAILED,
        }
    }

    /// Tells the plugin that it is disconnected. A plugin that has not
    /// been initialized is not told and stays as it is, and the step fails.
    pub fn on_disconnect(&mut self) -> (status: i32)
        ensures
            status == STATUS_OK || status == STATUS_FAILED,
            old(self).context is None ==> status == STATUS_FAILED && final(self).handler
                == old(self).handler,
            final(self).context == old(self).context,
    {
        match &self.context {
            Some(plugin_context) => status_code(
                self.handler.on_disconnect(plugin_context).is_ok(),
            ),
            None => STATUS_FAILED,
        }
    }

    /// Hands a message of the host to the plugin and packs the answer. The
    /// message is read from its buffer, tolerating malformed UTF-8. There
    /// is an answer exactly when the status is that of success. A plugin
    /// that has not been initialized is not asked and stays as it is.
    pub fn handle_message(&mut self, message: &[u8]) -> (reply: (i32, Option<Vec<u8>>))
        ensures
            reply.0 == STATUS_OK || reply.0 == STATUS_FAILED,
            reply.0 == STATUS_OK <==> reply.1 is Some,
            reply.1 matches Some(buf) ==> exists|text: Seq<char>|
                crosses_boundary(text) && buf@ == #[trigger] c_string(text),
            old(self).context is None ==> reply.0 == STATUS_FAILED && final(self).handler
                == old(self).handler,
            final(self).context == old(self).context,
    {
        let text = read_c_buffer(message);
        match &self.context {
            Some(plugin_context) => {
                let response = match self.handler.handle_message(text.as_str(), plugin_context) {
                    Ok(r) => Some(r),
                    Err(_) => None,
                };
                pack_reply(response)
            },
            None => (STATUS_FAILED, None),
        }
    }

    /// The metadata of the plugin in its boundary form, for the host to
    /// release. A plugin that has not been initialized has metadata
    /// without any buffer. There is no boundary form, and no result, for
    /// metadata with a string that cannot cross the boundary.
    pub fn get_metadata(&self) -> (boundary: Option<PluginMetadataFFI>)
        ensures
            self.context is None ==> boundary is Some && boundary->Some_0@
                == PluginMetadataFFI::empty_view(),
            boundary matches Some(b) ==> self.context is None || exists|m: PluginMetadata|
                metadata_crosses(m@) && b@ == #[trigger] boundary_form(m@),
    {
        match &self.context {
            Some(plugin_context) => {
                let metadata = self.handler.get_metadata(plugin_context);
                metadata.try_to_ffi()
            },
            None => Some(PluginMetadataFFI::empty()),
        }
    }
}

} // verus!
