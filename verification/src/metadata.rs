//! Plugin metadata in its native form and in the form that crosses the
//! module boundary, and the context of one plugin instance.

use crate::boundary::{
    buffer_text, c_string, can_cross_boundary, crosses_boundary, decode_reply,
    lemma_buffer_round_trip, read_c_buffer, reply_text, to_c_buffer,
};
use crate::callbacks::{Dispatch, HostCallbacks};
use crate::clock::{now_millis, now_nanos, now_secs};
use crate::json::{json_string, json_string_text};
use crate::message::plugin_message::{
    message_id_for, message_id_text, plugin_message_payload, plugin_message_text,
};
use crate::message::stream_message::{
    batch_result, cancel_check, conclude, control_result, data_result, end_result, envelope_text,
    pause_check, resume_check, start_streams, stream_id_for, stream_id_text,
    PluginStreamMessage, StreamError, StreamKind, StreamMessageData, StreamMessageWrapper,
    StreamRegistry, StreamStatus,
};
use crate::text::{decimal, decimal_text, text_of};
use vstd::prelude::*;
use vstd::string::*;

verus! {

/// What a host knows of a plugin.
#[derive(Debug, Clone)]
pub struct PluginMetadata {
    pub id: String,
    pub disabled: bool,
    pub name: String,
    pub description: String,
    pub version: String,
    pub author: Option<String>,
    /// Where the plugin's library file is.
    pub library_path: Option<String>,
    /// Where the plugin's configuration file is.
    pub config_path: String,
    /// The instance, once the plugin has been initialized.
    pub instance_id: Option<String>,
    /// Whether the instance is to be given the history of its session.
    pub require_history: bool,
}

/// Metadata as a value.
pub struct MetadataView {
    pub id: Seq<char>,
    pub disabled: bool,
    pub name: Seq<char>,
    pub description: Seq<char>,
    pub version: Seq<char>,
    pub author: Option<Seq<char>>,
    pub library_path: Option<Seq<char>>,
    pub config_path: Seq<char>,
    pub instance_id: Option<Seq<char>>,
    pub require_history: bool,
}

impl View for PluginMetadata {
    type V = MetadataView;

    open spec fn view(&self) -> MetadataView {
        MetadataView {
            id: self.id@,
            disabled: self.disabled,
            name: self.name@,
            description: self.description@,
            version: self.version@,
            author: text_of(self.author),
            library_path: text_of(self.library_path),
            config_path: self.config_path@,
            instance_id: text_of(self.instance_id),
            require_history: self.require_history,
        }
    }
}

/// Metadata in the form that crosses the boundary: one buffer for each
/// string, and no buffer (a null pointer on the other side) for an
/// optional string that is absent.
#[derive(Debug, Clone)]
pub struct PluginMetadataFFI {
    pub id: Option<Vec<u8>>,
    pub disabled: bool,
    pub name: Option<Vec<u8>>,
    pub description: Option<Vec<u8>>,
    pub version: Option<Vec<u8>>,
    pub author: Option<Vec<u8>>,
    pub library_path: Option<Vec<u8>>,
    pub config_path: Option<Vec<u8>>,
    pub instance_id: Option<Vec<u8>>,
    pub require_history: bool,
}

/// Boundary metadata as a value.
pub struct BoundaryView {
    pub id: Option<Seq<u8>>,
    pub disabled: bool,
    pub name: Option<Seq<u8>>,
    pub description: Option<Seq<u8>>,
    pub version: Option<Seq<u8>>,
    pub author: Option<Seq<u8>>,
    pub library_path: Option<Seq<u8>>,
    pub config_path: Option<Seq<u8>>,
    pub instance_id: Option<Seq<u8>>,
    pub require_history: bool,
}

/// The bytes of an optional buffer.
pub open spec fn bytes_of(b: Option<Vec<u8>>) -> Option<Seq<u8>> {
    match b {
        Some(buf) => Some(buf@),
        None => None,
    }
}

impl View for PluginMetadataFFI {
    type V = BoundaryView;

    open spec fn view(&self) -> BoundaryView {
        BoundaryView {
            id: bytes_of(self.id),
            disabled: self.disabled,
            name: bytes_of(self.name),
            description: bytes_of(self.description),
            version: bytes_of(self.version),
            author: bytes_of(self.author),
            library_path: bytes_of(self.library_path),
            config_path: bytes_of(self.config_path),
            instance_id: bytes_of(self.instance_id),
            require_history: self.require_history,
        }
    }
}

/// Whether an optional text, where present, can cross the boundary.
pub open spec fn optional_crosses(s: Option<Seq<char>>) -> bool {
    match s {
        Some(t) => crosses_boundary(t),
        None => true,
    }
}

/// Whether every string of the metadata can cross the boundary.
pub open spec fn metadata_crosses(m: MetadataView) -> bool {
    &&& crosses_boundary(m.id)
    &&& crosses_boundary(m.name)
    &&& crosses_boundary(m.description)
    &&& crosses_boundary(m.version)
    &&& crosses_boundary(m.config_path)
    &&& optional_crosses(m.author)
    &&& optional_crosses(m.library_path)
    &&& optional_crosses(m.instance_id)
}

/// The buffer for an optional text: none where the text is absent.
pub open spec fn optional_buffer(s: Option<Seq<char>>) -> Option<Seq<u8>> {
    match s {
        Some(t) => Some(c_string(t)),
        None => None,
    }
}

/// The boundary form of metadata: a required string always gets a buffer,
/// an optional one only where it is present.
pub open spec fn boundary_form(m: MetadataView) -> BoundaryView {
    BoundaryView {
        id: Some(c_string(m.id)),
        disabled: m.disabled,
        name: Some(c_string(m.name)),
        description: Some(c_string(m.description)),
        version: Some(c_string(m.version)),
        author: optional_buffer(m.author),
        library_path: optional_buffer(m.library_path),
        config_path: Some(c_string(m.config_path)),
        instance_id: optional_buffer(m.instance_id),
        require_history: m.require_history,
    }
}

/// The text of a required string read from its buffer. A missing buffer
/// reads as the empty text.
pub open spec fn required_text(b: Option<Seq<u8>>) -> Seq<char> {
    match b {
        Some(buf) => buffer_text(buf),
        None => Seq::empty(),
    }
}

/// The text of an optional string read from its buffer. A missing buffer
/// reads as an absent string, never as an empty one.
pub open spec fn optional_text(b: Option<Seq<u8>>) -> Option<Seq<char>> {
    match b {
        Some(buf) => Some(buffer_text(buf)),
        None => None,
    }
}

/// The native form of boundary metadata.
pub open spec fn native_form(b: BoundaryView) -> MetadataView {
    MetadataView {
        id: required_text(b.id),
        disabled: b.disabled,
        name: required_text(b.name),
        description: required_text(b.description),
        version: required_text(b.version),
        author: optional_text(b.author),
        library_path: optional_text(b.library_path),
        config_path: required_text(b.config_path),
        instance_id: optional_text(b.instance_id),
        require_history: b.require_history,
    }
}

/// One for a buffer that is there, nothing for one that is not.
pub open spec fn buffer_weight(b: Option<Seq<u8>>) -> nat {
    if b is Some {
        1
    } else {
        0
    }
}

/// The number of buffers that boundary metadata holds.
pub open spec fn buffer_count(b: BoundaryView) -> nat {
    buffer_weight(b.id) + buffer_weight(b.name) + buffer_weight(b.description) + buffer_weight(
        b.version,
    ) + buffer_weight(b.config_path) + buffer_weight(b.author) + buffer_weight(b.library_path)
        + buffer_weight(b.instance_id)
}

/// One for an optional text that is present, nothing for an absent one.
pub open spec fn presence_weight(s: Option<Seq<char>>) -> nat {
    if s is Some {
        1
    } else {
        0
    }
}

/// Metadata that goes to its boundary form and back comes out as it went
/// in, field for field, whichever optional fields are set.
pub proof fn law_metadata_round_trip(m: MetadataView)
    requires
        metadata_crosses(m),
    ensures
        native_form(boundary_form(m)) == m,
{
    lemma_buffer_round_trip(m.id);
    lemma_buffer_round_trip(m.name);
    lemma_buffer_round_trip(m.description);
    lemma_buffer_round_trip(m.version);
    lemma_buffer_round_trip(m.config_path);
    if m.author is Some {
        lemma_buffer_round_trip(m.author->Some_0);
    }
    if m.library_path is Some {
        lemma_buffer_round_trip(m.library_path->Some_0);
    }
    if m.instance_id is Some {
        lemma_buffer_round_trip(m.instance_id->Some_0);
    }
}

/// The boundary form holds one buffer for each of the five required
/// strings and one for each optional string that is present: these are
/// the buffers that releasing it gives back, no more and no fewer.
pub proof fn law_buffers_made(m: MetadataView)
    ensures
        buffer_count(boundary_form(m)) == 5 + presence_weight(m.author) + presence_weight(
            m.library_path,
        ) + presence_weight(m.instance_id),
{
}

/// Whether an optional string, where present, can cross the boundary.
fn optional_can_cross(s: &Option<String>) -> (ok: bool)
    ensures
        ok == optional_crosses(text_of(*s)),
{
    match s {
        Some(t) => can_cross_boundary(t.as_str()),
        None => true,
    }
}

/// The buffer for an optional string.
fn optional_to_buffer(s: &Option<String>) -> (buf: Option<Vec<u8>>)
    requires
        optional_crosses(text_of(*s)),
    ensures
        bytes_of(buf) == optional_buffer(text_of(*s)),
{
    match s {
        Some(t) => Some(to_c_buffer(t.as_str())),
        None => None,
    }
}

/// Reads a required string from its buffer.
fn required_from_buffer(b: &Option<Vec<u8>>) -> (text: String)
    ensures
        text@ == required_text(bytes_of(*b)),
{
    match b {
        Some(buf) => read_c_buffer(buf.as_slice()),
        None => String::new(),
    }
}

/// Reads an optional string from its buffer.
fn optional_from_buffer(b: &Option<Vec<u8>>) -> (text: Option<String>)
    ensures
        text_of(text) == optional_text(bytes_of(*b)),
{
    match b {
        Some(buf) => Some(read_c_buffer(buf.as_slice())),
        None => None,
    }
}

/// One if a buffer is there.
fn weight(b: &Option<Vec<u8>>) -> (n: usize)
    ensures
        n == buffer_weight(bytes_of(*b)),
{
    if b.is_some() {
        1
    } else {
        0
    }
}

impl PluginMetadata {
    /// Whether every string of the metadata can cross the boundary.
    pub fn can_cross(&self) -> (ok: bool)
        ensures
            ok == metadata_crosses(self@),
    {
        can_cross_boundary(self.id.as_str()) && can_cross_boundary(self.name.as_str())
            && can_cross_boundary(self.description.as_str()) && can_cross_boundary(
            self.version.as_str(),
        ) && can_cross_boundary(self.config_path.as_str()) && optional_can_cross(&self.author)
            && optional_can_cross(&self.library_path) && optional_can_cross(&self.instance_id)
    }

    /// The boundary form of the metadata. The buffers belong to the
    /// caller, who gives them back with `free_plugin_metadata_ffi`.
    pub fn to_ffi(&self) -> (boundary: PluginMetadataFFI)
        requires
            metadata_crosses(self@),
        ensures
            boundary@ == boundary_form(self@),
    {
        let id = to_c_buffer(self.id.as_str());
        let name = to_c_buffer(self.name.as_str());
        let description = to_c_buffer(self.description.as_str());
        let version = to_c_buffer(self.version.as_str());
        let config_path = to_c_buffer(self.config_path.as_str());
        let instance_id = optional_to_buffer(&self.instance_id);
        let author = optional_to_buffer(&self.author);
        let library_path = optional_to_buffer(&self.library_path);
        PluginMetadataFFI {
            id: Some(id),
            disabled: self.disabled,
            name: Some(name),
            description: Some(description),
            version: Some(version),
            author,
            library_path,
            config_path: Some(config_path),
            instance_id,
            require_history: self.require_history,
        }
    }

    /// The boundary form of the metadata, where it has one.
    pub fn try_to_ffi(&self) -> (boundary: Option<PluginMetadataFFI>)
        ensures
            boundary is Some <==> metadata_crosses(self@),
            boundary matches Some(b) ==> b@ == boundary_form(self@),
    {
        if self.can_cross() {
            Some(self.to_ffi())
        } else {
            None
        }
    }
}

impl PluginMetadataFFI {
    /// Boundary metadata without any buffer, as a value.
    pub open spec fn empty_view() -> BoundaryView {
        BoundaryView {
            id: None,
            disabled: false,
            name: None,
            description: None,
            version: None,
            author: None,
            library_path: None,
            config_path: None,
            instance_id: None,
            require_history: false,
        }
    }

    /// Boundary metadata without any buffer.
    pub fn empty() -> (boundary: PluginMetadataFFI)
        ensures
            boundary@ == Self::empty_view(),
    {
        PluginMetadataFFI {
            id: None,
            disabled: false,
            name: None,
            description: None,
            version: None,
            author: None,
            library_path: None,
            config_path: None,
            instance_id: None,
            require_history: false,
        }
    }
}

/// Releases every buffer of boundary metadata and tells how many there
/// were. The metadata is used up: nothing can be released twice.
pub fn free_plugin_metadata_ffi(metadata: PluginMetadataFFI) -> (released: usize)
    ensures
        released == buffer_count(metadata@),
{
    let released = weight(&metadata.id) + weight(&metadata.name) + weight(&metadata.description)
        + weight(&metadata.version) + weight(&metadata.config_path) + weight(&metadata.author)
        + weight(&metadata.library_path) + weight(&metadata.instance_id);
    released
}

/// The native form of boundary metadata. The buffers are read, not taken:
/// they still belong to whoever made them. A required string without a
/// buffer is read as the empty string.
pub fn convert_ffi_to_metadata(metadata_ffi: &PluginMetadataFFI) -> (metadata: PluginMetadata)
    ensures
        metadata@ == native_form(metadata_ffi@),
{
    let id = required_from_buffer(&metadata_ffi.id);
    let name = required_from_buffer(&metadata_ffi.name);
    let description = required_from_buffer(&metadata_ffi.description);
    let version = required_from_buffer(&metadata_ffi.version);
    let author = optional_from_buffer(&metadata_ffi.author);
    let library_path = optional_from_buffer(&metadata_ffi.library_path);
    let config_path = required_from_buffer(&metadata_ffi.config_path);
    let instance_id = optional_from_buffer(&metadata_ffi.instance_id);
    PluginMetadata {
        id,
        disabled: metadata_ffi.disabled,
        name,
        description,
        version,
        author,
        library_path,
        config_path,
        instance_id,
        require_history: metadata_ffi.require_history,
    }
}

/// One message of a session's history.
#[derive(Debug, Clone)]
pub struct HistoryMessage {
    pub id: String,
    /// `normal` or `streaming`.
    pub message_type: String,
    /// `completed`, `active`, `paused`, `error` or `cancelled`.
    pub status: String,
    pub content: String,
    pub plugin_id: String,
    /// `user`, `plugin` or `system`.
    pub role: String,
    /// When the message was made, as an ISO 8601 text.
    pub created_at: String,
}

/// The instance that metadata speaks for: its instance id, or the plugin
/// id where it has none yet.
pub open spec fn instance_text(m: MetadataView) -> Seq<char> {
    match m.instance_id {
        Some(instance) => instance,
        None => m.id,
    }
}

impl PluginMetadata {
    /// The instance that the metadata speaks for.
    pub fn instance_or_id(&self) -> (instance: &str)
        ensures
            instance@ == instance_text(self@),
    {
        match &self.instance_id {
            Some(instance) => instance.as_str(),
            None => self.id.as_str(),
        }
    }
}

/// The warning for a plugin that reads a history it never asked for.
pub open spec fn history_warning_text(plugin_id: Seq<char>) -> Seq<char> {
    "Plugin '"@ + plugin_id + "' does not set require_history config, but get_history was called."@
}

/// The payload that tells the front end to draw the plugin again.
pub open spec fn refresh_text(m: MetadataView) -> Seq<char> {
    "{\"instance\":"@ + json_string_text(instance_text(m)) + ",\"plugin\":"@ + json_string_text(
        m.id,
    ) + "}"@
}

/// The payload that asks the front end to disconnect the plugin.
pub open spec fn disconnect_text(m: MetadataView, timestamp: nat) -> Seq<char> {
    "{\"instance_id\":"@ + json_string_text(instance_text(m)) + ",\"plugin_id\":"@
        + json_string_text(m.id) + ",\"timestamp\":"@ + decimal_text(timestamp) + "}"@
}

/// The payload of a stream message of an instance: the envelope with the
/// plugin and the instance that the metadata speaks for.
pub open spec fn stream_payload_text(
    m: MetadataView,
    message_type: Seq<char>,
    data: StreamMessageData,
    timestamp: nat,
) -> Seq<char> {
    envelope_text(message_type, m.id, instance_text(m), data.json_text(), timestamp)
}

/// The state of one plugin instance: who it is, how it reaches the host,
/// and what was said in its session.
#[derive(Debug, Clone)]
pub struct PluginInstanceContext<H: HostCallbacks> {
    pub instance_id: String,
    pub metadata: PluginMetadata,
    pub callbacks: Option<H>,
    /// The history of the session, oldest message first.
    pub history: Option<Vec<HistoryMessage>>,
}

impl<H: HostCallbacks> PluginInstanceContext<H> {
    /// The context of a new instance: no callbacks yet, and no history.
    pub fn new(instance_id: String, metadata: PluginMetadata) -> (context: Self)
        ensures
            context.instance_id == instance_id,
            context.metadata == metadata,
            context.callbacks is None,
            context.history is None,
    {
        PluginInstanceContext { instance_id, metadata, callbacks: None, history: None }
    }

    /// Attaches the callbacks of the host.
    pub fn set_callbacks(&mut self, callbacks: H)
        ensures
            final(self).callbacks == Some(callbacks),
            final(self).instance_id == old(self).instance_id,
            final(self).metadata == old(self).metadata,
            final(self).history == old(self).history,
    {
        self.callbacks = Some(callbacks);
    }

    /// The id of the instance.
    pub fn get_instance_id(&self) -> (id: &str)
        ensures
            id@ == self.instance_id@,
    {
        self.instance_id.as_str()
    }

    /// The metadata of the instance.
    pub fn get_metadata(&self) -> (metadata: &PluginMetadata)
        ensures
            *metadata == self.metadata,
    {
        &self.metadata
    }

    /// The callbacks of the host, once attached.
    pub fn get_callbacks(&self) -> (callbacks: Option<&H>)
        ensures
            callbacks is Some <==> self.callbacks is Some,
            callbacks matches Some(c) ==> *c == self.callbacks->Some_0,
    {
        match &self.callbacks {
            Some(c) => Some(c),
            None => None,
        }
    }

    /// Stores the history of the session.
    pub fn set_history(&mut self, history: Vec<HistoryMessage>)
        ensures
            final(self).history == Some(history),
            final(self).instance_id == old(self).instance_id,
            final(self).metadata == old(self).metadata,
            final(self).callbacks == old(self).callbacks,
    {
        self.history = Some(history);
    }

    /// The history of the session, if one was stored. A plugin that did
    /// not ask for history gets it all the same; `history_warning` has the
    /// complaint that goes with such a read.
    pub fn get_history(&self) -> (history: Option<&Vec<HistoryMessage>>)
        ensures
            history is Some <==> self.history is Some,
            history matches Some(h) ==> *h == self.history->Some_0,
    {
        match &self.history {
            Some(h) => Some(h),
            None => None,
        }
    }

    /// The warning to log when the history is read: there is one exactly
    /// when the plugin did not ask for history.
    pub fn history_warning(&self) -> (warning: Option<String>)
        ensures
            warning is Some <==> !self.metadata.require_history,
            warning matches Some(w) ==> w@ == history_warning_text(self.metadata.id@),
    {
        if self.metadata.require_history {
            None
        } else {
            let mut w = "Plugin '".to_string();
            w.append(self.metadata.id.as_str());
            w.append("' does not set require_history config, but get_history was called.");
            Some(w)
        }
    }

    /// Forgets the history of the session.
    pub fn clear_history(&mut self)
        ensures
            final(self).history is None,
            final(self).instance_id == old(self).instance_id,
            final(self).metadata == old(self).metadata,
            final(self).callbacks == old(self).callbacks,
    {
        self.history = None;
    }

    /// Hands an event to the front end and tells whether the host took it.
    /// Without callbacks, or with a text that cannot cross the boundary,
    /// nothing is handed over and the answer is `false`.
    pub fn send_to_frontend(&self, event: &str, payload: &str) -> (taken: bool)
        ensures
            self.callbacks is None || !crosses_boundary(event@) || !crosses_boundary(payload@)
                ==> !taken,
    {
        match &self.callbacks {
            Some(callbacks) => {
                if can_cross_boundary(event) && can_cross_boundary(payload) {
                    callbacks.send_to_frontend(event, payload)
                } else {
                    false
                }
            },
            None => false,
        }
    }

    /// Asks the host for a setting of the application. The value is what
    /// `decode_reply` reads from the answer of the host, whatever the host
    /// answers. Without callbacks, or with a key that cannot cross the
    /// boundary, the host is not asked and there is no value.
    pub fn get_app_config(&self, key: &str) -> (value: Option<String>)
        ensures
            exists|reply: Option<Seq<u8>>| text_of(value) == #[trigger] reply_text(reply),
            self.callbacks is None || !crosses_boundary(key@) ==> value is None,
    {
        proof {
            assert(reply_text(None) is None);
        }
        match &self.callbacks {
            Some(callbacks) => {
                if can_cross_boundary(key) {
                    decode_reply(callbacks.get_app_config(key))
                } else {
                    None
                }
            },
            None => None,
        }
    }

    /// Sends a message to another plugin and returns its answer: what
    /// `decode_reply` reads from the answer of the host, whatever the host
    /// answers. Without callbacks, or with a text that cannot cross the
    /// boundary, nothing is sent and there is no answer.
    pub fn call_other_plugin(&self, plugin_id: &str, message: &str) -> (answer: Option<String>)
        ensures
            exists|reply: Option<Seq<u8>>| text_of(answer) == #[trigger] reply_text(reply),
            self.callbacks is None || !crosses_boundary(plugin_id@) || !crosses_boundary(message@)
                ==> answer is None,
    {
        proof {
            assert(reply_text(None) is None);
        }
        match &self.callbacks {
            Some(callbacks) => {
                if can_cross_boundary(plugin_id) && can_cross_boundary(message) {
                    decode_reply(callbacks.call_other_plugin(plugin_id, message))
                } else {
                    None
                }
            },
            None => None,
        }
    }

    /// The payload of a message of this instance to the front end.
    pub fn message_payload(&self, message_id: &str, content: &str, timestamp: u64) -> (payload:
        String)
        ensures
            payload@ == plugin_message_text(
                self.metadata.id@,
                instance_text(self.metadata@),
                message_id@,
                content@,
                timestamp as nat,
            ),
    {
        plugin_message_payload(
            self.metadata.id.as_str(),
            self.metadata.instance_or_id(),
            message_id,
            content,
            timestamp,
        )
    }

    /// What a message of this instance hands to the front end: the event
    /// `plugin-message` with the payload of the message.
    pub fn message_dispatch(&self, message_id: &str, content: &str, timestamp: u64) -> (dispatch:
        Dispatch)
        ensures
            dispatch.event@ == "plugin-message"@,
            dispatch.payload@ == plugin_message_text(
                self.metadata.id@,
                instance_text(self.metadata@),
                message_id@,
                content@,
                timestamp as nat,
            ),
    {
        Dispatch {
            event: "plugin-message".to_string(),
            payload: self.message_payload(message_id, content, timestamp),
        }
    }

    /// Hands a dispatch to the front end and tells whether the host took
    /// it. Without callbacks, or with a text that cannot cross the
    /// boundary, nothing is handed over and the answer is `false`.
    pub fn dispatch(&self, dispatch: &Dispatch) -> (taken: bool)
        ensures
            self.callbacks is None || !crosses_boundary(dispatch.event@) || !crosses_boundary(
                dispatch.payload@,
            ) ==> !taken,
    {
        self.send_to_frontend(dispatch.event.as_str(), dispatch.payload.as_str())
    }

    /// Sends a message to the front end: what `message_dispatch` makes of
    /// it with a new message id and the time of sending.
    pub fn send_message_to_frontend(&self, content: &str) -> (sent: bool)
        ensures
            self.callbacks is None ==> !sent,
    {
        let message_id = self.generate_message_id();
        self.dispatch(&self.message_dispatch(message_id.as_str(), content, now_millis()))
    }

    /// An id for a new message, made from the time.
    pub fn generate_message_id(&self) -> (id: String)
        ensures
            exists|nanos: nat| id@ == #[trigger] message_id_text(nanos),
    {
        message_id_for(now_nanos())
    }

    /// The payload that tells the front end to draw the plugin again.
    pub fn refresh_payload(&self) -> (payload: String)
        ensures
            payload@ == refresh_text(self.metadata@),
    {
        let mut payload = "{\"instance\":".to_string();
        payload.append(json_string(self.metadata.instance_or_id()).as_str());
        payload.append(",\"plugin\":");
        payload.append(json_string(self.metadata.id.as_str()).as_str());
        payload.append("}");
        payload
    }

    /// What a refresh hands to the front end: the event
    /// `plugin-ui-refreshed` with the payload of the refresh.
    pub fn refresh_dispatch(&self) -> (dispatch: Dispatch)
        ensures
            dispatch.event@ == "plugin-ui-refreshed"@,
            dispatch.payload@ == refresh_text(self.metadata@),
    {
        Dispatch { event: "plugin-ui-refreshed".to_string(), payload: self.refresh_payload() }
    }

    /// Tells the front end to draw the plugin again: it is handed what
    /// `refresh_dispatch` makes.
    pub fn refresh_ui(&self) -> (sent: bool)
        ensures
            self.callbacks is None ==> !sent,
    {
        self.dispatch(&self.refresh_dispatch())
    }

    /// The payload that asks the front end to disconnect the plugin.
    pub fn disconnect_payload(&self, timestamp: u64) -> (payload: String)
        ensures
            payload@ == disconnect_text(self.metadata@, timestamp as nat),
    {
        let mut payload = "{\"instance_id\":".to_string();
        payload.append(json_string(self.metadata.instance_or_id()).as_str());
        payload.append(",\"plugin_id\":");
        payload.append(json_string(self.metadata.id.as_str()).as_str());
        payload.append(",\"timestamp\":");
        payload.append(decimal(timestamp as u128).as_str());
        payload.append("}");
        payload
    }

    /// What a request to disconnect hands to the front end: the event
    /// `plugin-disconnect-request` with the payload of the request.
    pub fn disconnect_dispatch(&self, timestamp: u64) -> (dispatch: Dispatch)
        ensures
            dispatch.event@ == "plugin-disconnect-request"@,
            dispatch.payload@ == disconnect_text(self.metadata@, timestamp as nat),
    {
        Dispatch {
            event: "plugin-disconnect-request".to_string(),
            payload: self.disconnect_payload(timestamp),
        }
    }

    /// Asks the front end to disconnect the plugin: it is handed what
    /// `disconnect_dispatch` makes with the time of sending.
    pub fn call_disconnect(&self) -> (sent: bool)
        ensures
            self.callbacks is None ==> !sent,
    {
        self.dispatch(&self.disconnect_dispatch(now_millis()))
    }

    /// An id for a new stream, made from the time.
    pub fn generate_stream_id(&self) -> (id: String)
        ensures
            exists|nanos: nat| id@ == #[trigger] stream_id_text(nanos),
    {
        stream_id_for(now_nanos())
    }

    /// The stream message of this instance around a body.
    pub fn stream_envelope(
        &self,
        message_type: &str,
        data: StreamMessageData,
        timestamp: u64,
    ) -> (envelope: StreamMessageWrapper)
        ensures
            envelope.kind@ == message_type@,
            envelope.plugin_id@ == self.metadata.id@,
            envelope.instance_id@ == instance_text(self.metadata@),
            envelope.data == data,
            envelope.timestamp == timestamp,
    {
        StreamMessageWrapper {
            kind: message_type.to_string(),
            plugin_id: self.metadata.id.clone(),
            instance_id: self.metadata.instance_or_id().to_string(),
            data,
            timestamp,
        }
    }

    /// What a stream message of a given type hands to the front end: the
    /// event `plugin-stream` with the envelope of this instance around the
    /// body.
    pub fn stream_dispatch_as(
        &self,
        message_type: &str,
        data: StreamMessageData,
        timestamp: u64,
    ) -> (dispatch: Dispatch)
        ensures
            dispatch.event@ == "plugin-stream"@,
            dispatch.payload@ == stream_payload_text(
                self.metadata@,
                message_type@,
                data,
                timestamp as nat,
            ),
    {
        Dispatch {
            event: "plugin-stream".to_string(),
            payload: self.stream_envelope(message_type, data, timestamp).to_json(),
        }
    }

    /// What a step of a stream hands to the front end: the event
    /// `plugin-stream` with an envelope whose type is that of the step.
    pub fn stream_dispatch(
        &self,
        kind: StreamKind,
        data: StreamMessageData,
        timestamp: u64,
    ) -> (dispatch: Dispatch)
        ensures
            dispatch.event@ == "plugin-stream"@,
            dispatch.payload@ == stream_payload_text(
                self.metadata@,
                kind.type_text(),
                data,
                timestamp as nat,
            ),
    {
        self.stream_dispatch_as(kind.wire_name(), data, timestamp)
    }

    /// Sends a stream message to the front end: it is handed what
    /// `stream_dispatch_as` makes with the time of sending.
    pub fn send_stream_message_to_frontend(
        &self,
        message_type: &str,
        data: StreamMessageData,
    ) -> (sent: bool)
        ensures
            self.callbacks is None ==> !sent,
    {
        self.dispatch(&self.stream_dispatch_as(message_type, data, now_millis()))
    }

    /// Tells the front end of a step of a stream: it is handed what
    /// `stream_dispatch` makes with the time of sending.
    pub fn send_stream(&self, kind: StreamKind, data: StreamMessageData) -> (sent: bool)
        ensures
            self.callbacks is None ==> !sent,
    {
        self.dispatch(&self.stream_dispatch(kind, data, now_millis()))
    }

    /// Sends the control message of a pause, resume or cancel.
    fn send_control(&self, kind: StreamKind, stream_id: &str) -> (sent: bool)
        ensures
            self.callbacks is None ==> !sent,
    {
        self.send_stream(kind, StreamMessageData::control(stream_id))
    }
}

impl<H: HostCallbacks> PluginStreamMessage for PluginInstanceContext<H> {
    /// The stream gets an id made from the time and the plugin id of this
    /// instance. Without callbacks nothing is started.
    fn send_message_stream_start(&self, streams: &mut StreamRegistry) -> (started: Result<
        String,
        StreamError,
    >)
        ensures
            started matches Ok(id) ==> (exists|nanos: nat| id@ == #[trigger] stream_id_text(nanos))
                && (exists|created_at: u64|
                final(streams)@ == #[trigger] start_streams(
                    old(streams)@,
                    id@,
                    self.metadata.id@,
                    created_at,
                    true,
                )),
            self.callbacks is None ==> started is Err,
    {
        let stream_id = self.generate_stream_id();
        let data = StreamMessageData::start(stream_id.as_str());
        let delivered = self.send_stream(StreamKind::Start, data);
        let created_at = if delivered {
            now_secs()
        } else {
            0
        };
        streams.record_start(stream_id, self.metadata.id.clone(), created_at, delivered)
    }

    /// Without callbacks the chunk counts as not taken.
    fn send_message_stream(
        &self,
        streams: &mut StreamRegistry,
        stream_id: &str,
        chunk: &str,
        is_final: bool,
    ) -> (sent: Result<(), StreamError>)
        ensures
            self.callbacks is None ==> sent == data_result(old(streams)@, stream_id@, false),
    {
        if !streams.contains(stream_id) {
            return streams.record_data(stream_id, is_final, false);
        }
        let data = StreamMessageData::data(stream_id, chunk, is_final);
        let delivered = self.send_stream(StreamKind::Data, data);
        streams.record_data(stream_id, is_final, delivered)
    }

    /// Without callbacks the end counts as not taken.
    fn send_message_stream_end(
        &self,
        streams: &mut StreamRegistry,
        stream_id: &str,
        success: bool,
        error_msg: Option<&str>,
    ) -> (ended: Result<(), StreamError>)
        ensures
            self.callbacks is None ==> ended == end_result(old(streams)@, stream_id@, false),
    {
        if !streams.contains(stream_id) {
            return streams.record_end(stream_id, success, false);
        }
        let data = StreamMessageData::end(stream_id, success, error_msg);
        let delivered = self.send_stream(StreamKind::End, data);
        streams.record_end(stream_id, success, delivered)
    }

    /// The stream is paused before the host is told. Without callbacks the
    /// host is never told.
    fn send_message_stream_pause(&self, streams: &mut StreamRegistry, stream_id: &str) -> (paused:
        Result<(), StreamError>)
        ensures
            self.callbacks is None ==> paused == control_result(
                pause_check(old(streams)@, stream_id@),
                false,
            ),
    {
        match streams.pause(stream_id) {
            Err(e) => Err(e),
            Ok(_) => {
                let delivered = self.send_control(StreamKind::Pause, stream_id);
                conclude(delivered)
            },
        }
    }

    /// The stream is resumed before the host is told. Without callbacks
    /// the host is never told.
    fn send_message_stream_resume(&self, streams: &mut StreamRegistry, stream_id: &str) -> (resumed:
        Result<(), StreamError>)
        ensures
            self.callbacks is None ==> resumed == control_result(
                resume_check(old(streams)@, stream_id@),
                false,
            ),
    {
        match streams.resume(stream_id) {
            Err(e) => Err(e),
            Ok(_) => {
                let delivered = self.send_control(StreamKind::Resume, stream_id);
                conclude(delivered)
            },
        }
    }

    /// The stream is cancelled before the host is told. Without callbacks
    /// the host is never told.
    fn send_message_stream_cancel(
        &self,
        streams: &mut StreamRegistry,
        stream_id: &str,
    ) -> (cancelled: Result<(), StreamError>)
        ensures
            self.callbacks is None ==> cancelled == control_result(
                cancel_check(old(streams)@, stream_id@),
                false,
            ),
    {
        match streams.cancel(stream_id) {
            Err(e) => Err(e),
            Ok(_) => {
                let delivered = self.send_control(StreamKind::Cancel, stream_id);
                conclude(delivered)
            },
        }
    }

    fn get_stream_status(&self, streams: &StreamRegistry, stream_id: &str) -> (status: Option<
        StreamStatus,
    >) {
        streams.get_status(stream_id)
    }

    fn list_active_streams(&self, streams: &StreamRegistry) -> (ids: Vec<String>) {
        streams.list_active()
    }

    /// Without callbacks no chunk is taken.
    fn send_message_stream_batch(
        &self,
        streams: &mut StreamRegistry,
        stream_id: &str,
        chunks: &[&str],
    ) -> (sent: Result<(), StreamError>)
        ensures
            self.callbacks is None ==> sent == batch_result(
                old(streams)@,
                stream_id@,
                chunks@.len(),
                0,
            ),
    {
        let count = chunks.len();
        let plan = match streams.plan_batch(stream_id, chunks) {
            Err(_) => {
                return streams.record_batch(stream_id, count, 0);
            },
            Ok(messages) => messages,
        };
        let mut taken: usize = 0;
        for data in it: plan
            invariant
                count == chunks@.len(),
                it.seq().len() == count,
                taken == it.index(),
                streams@ == old(streams)@,
                self.callbacks is None ==> taken == 0,
        {
            if !self.send_stream(StreamKind::Data, data) {
                return streams.record_batch(stream_id, count, taken);
            }
            taken += 1;
        }
        streams.record_batch(stream_id, count, count)
    }
}

} // verus!
