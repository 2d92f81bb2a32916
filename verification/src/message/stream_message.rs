//! The streaming protocol: the lifecycle of a stream, the registry of
//! streams in flight, and the payloads that carry a stream to the host.

use crate::json::{
    json_bool, json_bool_text, json_optional, json_optional_text, json_string, json_string_text,
};
use crate::text::{decimal, decimal_text, text_of};
use vstd::hash_map::StringHashMap;
use vstd::prelude::*;
use vstd::string::*;

verus! {

/// Why a stream operation failed.
#[derive(Debug, Clone, Copy, PartialEq, Eq, Structural)]
pub enum StreamError {
    /// The host did not take the message.
    SendFailed,
    /// The id is malformed.
    InvalidStreamId,
    /// No stream has the id.
    StreamNotFound,
    /// The stream has reached a terminal state.
    StreamAlreadyEnded,
    /// The stream is live, but not in a state that allows the operation.
    InvalidState,
    /// A chunk could not be delivered; further chunks are futile.
    StreamCancelled,
}

impl StreamError {
    /// The text that describes the error.
    pub open spec fn message_text(self) -> Seq<char> {
        match self {
            StreamError::SendFailed => "Failed to send message to frontend"@,
            StreamError::InvalidStreamId => "Invalid stream ID"@,
            StreamError::StreamNotFound => "Stream not found"@,
            StreamError::StreamAlreadyEnded => "Stream already ended"@,
            StreamError::InvalidState => "Invalid stream state"@,
            StreamError::StreamCancelled => "Stream was cancelled by user"@,
        }
    }

    /// A description of the error for people.
    pub fn message(&self) -> (text: &'static str)
        ensures
            text@ == self.message_text(),
    {
        match self {
            StreamError::SendFailed => "Failed to send message to frontend",
            StreamError::InvalidStreamId => "Invalid stream ID",
            StreamError::StreamNotFound => "Stream not found",
            StreamError::StreamAlreadyEnded => "Stream already ended",
            StreamError::InvalidState => "Invalid stream state",
            StreamError::StreamCancelled => "Stream was cancelled by user",
        }
    }
}

/// Where a stream is in its life.
#[derive(Debug, Clone, Copy, PartialEq, Eq, Structural)]
pub enum StreamStatus {
    Active,
    Paused,
    Finalizing,
    Completed,
    Error,
    Cancelled,
}

impl StreamStatus {
    /// A live stream can still change state.
    pub open spec fn is_live(self) -> bool {
        self == StreamStatus::Active || self == StreamStatus::Paused || self
            == StreamStatus::Finalizing
    }

    /// A terminal state is never left.
    pub open spec fn is_terminal(self) -> bool {
        !self.is_live()
    }

    /// Whether the stream can still change state.
    pub fn live(&self) -> (yes: bool)
        ensures
            yes == self.is_live(),
    {
        match self {
            StreamStatus::Active | StreamStatus::Paused | StreamStatus::Finalizing => true,
            _ => false,
        }
    }
}

/// The record of one stream.
#[derive(Debug, Clone)]
pub struct StreamInfo {
    pub id: String,
    pub plugin_id: String,
    pub message_type: String,
    pub status: StreamStatus,
    pub created_at: u64,
}

/// A stream record as a value: its texts and its state.
pub struct StreamInfoView {
    pub id: Seq<char>,
    pub plugin_id: Seq<char>,
    pub message_type: Seq<char>,
    pub status: StreamStatus,
    pub created_at: u64,
}

impl View for StreamInfo {
    type V = StreamInfoView;

    open spec fn view(&self) -> StreamInfoView {
        StreamInfoView {
            id: self.id@,
            plugin_id: self.plugin_id@,
            message_type: self.message_type@,
            status: self.status,
            created_at: self.created_at,
        }
    }
}

impl StreamInfo {
    /// The same record in another state.
    pub fn with_status(&self, status: StreamStatus) -> (info: StreamInfo)
        ensures
            info@ == (StreamInfoView { status, ..self@ }),
    {
        StreamInfo {
            id: self.id.clone(),
            plugin_id: self.plugin_id.clone(),
            message_type: self.message_type.clone(),
            status,
            created_at: self.created_at,
        }
    }
}

/// What opens a stream.
#[derive(Debug, Clone)]
pub struct StreamStartData {
    pub stream_id: String,
    pub message_type: String,
}

/// One chunk of a stream.
#[derive(Debug, Clone)]
pub struct StreamDataData {
    pub stream_id: String,
    pub chunk: String,
    pub is_final: bool,
}

/// What closes a stream.
#[derive(Debug, Clone)]
pub struct StreamEndData {
    pub stream_id: String,
    pub success: bool,
    pub error: Option<String>,
}

/// A pause, resume or cancel of a stream.
#[derive(Debug, Clone)]
pub struct StreamControlData {
    pub stream_id: String,
}

/// The body of a stream message. On the wire the variants carry no tag: a
/// reader tells them apart by the fields that are present.
#[derive(Debug, Clone)]
pub enum StreamMessageData {
    Start(StreamStartData),
    Data(StreamDataData),
    End(StreamEndData),
    Control(StreamControlData),
}

/// A stream message as it is sent to the host.
#[derive(Debug, Clone)]
pub struct StreamMessageWrapper {
    /// The kind of message; on the wire the field is named `type`.
    pub kind: String,
    pub plugin_id: String,
    pub instance_id: String,
    pub data: StreamMessageData,
    pub timestamp: u64,
}

impl StreamStartData {
    /// The JSON object of a start: `stream_id`, then `message_type`.
    pub open spec fn json_text(self) -> Seq<char> {
        "{\"stream_id\":"@ + json_string_text(self.stream_id@) + ",\"message_type\":"@
            + json_string_text(self.message_type@) + "}"@
    }

    /// Writes the start as JSON.
    pub fn to_json(&self) -> (text: String)
        ensures
            text@ == self.json_text(),
    {
        let mut text = "{\"stream_id\":".to_string();
        text.append(json_string(self.stream_id.as_str()).as_str());
        text.append(",\"message_type\":");
        text.append(json_string(self.message_type.as_str()).as_str());
        text.append("}");
        text
    }
}

impl StreamDataData {
    /// The JSON object of a chunk: `stream_id`, `chunk`, `is_final`.
    pub open spec fn json_text(self) -> Seq<char> {
        "{\"stream_id\":"@ + json_string_text(self.stream_id@) + ",\"chunk\":"@
            + json_string_text(self.chunk@) + ",\"is_final\":"@ + json_bool_text(self.is_final)
            + "}"@
    }

    /// Writes the chunk as JSON.
    pub fn to_json(&self) -> (text: String)
        ensures
            text@ == self.json_text(),
    {
        let mut text = "{\"stream_id\":".to_string();
        text.append(json_string(self.stream_id.as_str()).as_str());
        text.append(",\"chunk\":");
        text.append(json_string(self.chunk.as_str()).as_str());
        text.append(",\"is_final\":");
        text.append(json_bool(self.is_final));
        text.append("}");
        text
    }
}

impl StreamEndData {
    /// The JSON object of an end: `stream_id`, `success`, and `error`,
    /// which is `null` where there is none.
    pub open spec fn json_text(self) -> Seq<char> {
        "{\"stream_id\":"@ + json_string_text(self.stream_id@) + ",\"success\":"@
            + json_bool_text(self.success) + ",\"error\":"@ + json_optional_text(
            text_of(self.error),
        ) + "}"@
    }

    /// Writes the end as JSON.
    pub fn to_json(&self) -> (text: String)
        ensures
            text@ == self.json_text(),
    {
        let mut text = "{\"stream_id\":".to_string();
        text.append(json_string(self.stream_id.as_str()).as_str());
        text.append(",\"success\":");
        text.append(json_bool(self.success));
        text.append(",\"error\":");
        let error = match &self.error {
            Some(e) => json_optional(Some(e.as_str())),
            None => json_optional(None),
        };
        text.append(error.as_str());
        text.append("}");
        text
    }
}

impl StreamControlData {
    /// The JSON object of a control message: `stream_id` alone.
    pub open spec fn json_text(self) -> Seq<char> {
        "{\"stream_id\":"@ + json_string_text(self.stream_id@) + "}"@
    }

    /// Writes the control message as JSON.
    pub fn to_json(&self) -> (text: String)
        ensures
            text@ == self.json_text(),
    {
        let mut text = "{\"stream_id\":".to_string();
        text.append(json_string(self.stream_id.as_str()).as_str());
        text.append("}");
        text
    }
}

impl StreamMessageData {
    /// The JSON object of the body: that of its variant, with nothing
    /// added to say which variant it is.
    pub open spec fn json_text(self) -> Seq<char> {
        match self {
            StreamMessageData::Start(d) => d.json_text(),
            StreamMessageData::Data(d) => d.json_text(),
            StreamMessageData::End(d) => d.json_text(),
            StreamMessageData::Control(d) => d.json_text(),
        }
    }

    /// Writes the body as JSON.
    pub fn to_json(&self) -> (text: String)
        ensures
            text@ == self.json_text(),
    {
        match self {
            StreamMessageData::Start(d) => d.to_json(),
            StreamMessageData::Data(d) => d.to_json(),
            StreamMessageData::End(d) => d.to_json(),
            StreamMessageData::Control(d) => d.to_json(),
        }
    }
}

/// The JSON object of a stream message: `type`, `plugin_id`,
/// `instance_id`, `data` and `timestamp`, in this order. The body is given
/// as the JSON text that it is written as.
pub open spec fn envelope_text(
    kind: Seq<char>,
    plugin_id: Seq<char>,
    instance_id: Seq<char>,
    data: Seq<char>,
    timestamp: nat,
) -> Seq<char> {
    "{\"type\":"@ + json_string_text(kind) + ",\"plugin_id\":"@ + json_string_text(plugin_id)
        + ",\"instance_id\":"@ + json_string_text(instance_id) + ",\"data\":"@ + data
        + ",\"timestamp\":"@ + decimal_text(timestamp) + "}"@
}

/// The steps of a stream of which the host is told.
#[derive(Debug, Clone, Copy, PartialEq, Eq, Structural)]
pub enum StreamKind {
    Start,
    Data,
    End,
    Pause,
    Resume,
    Cancel,
}

impl StreamKind {
    /// The `type` under which the host is told of the step.
    pub open spec fn type_text(self) -> Seq<char> {
        match self {
            StreamKind::Start => "stream_start"@,
            StreamKind::Data => "stream_data"@,
            StreamKind::End => "stream_end"@,
            StreamKind::Pause => "stream_pause"@,
            StreamKind::Resume => "stream_resume"@,
            StreamKind::Cancel => "stream_cancel"@,
        }
    }

    /// The `type` under which the host is told of the step.
    pub fn wire_name(&self) -> (name: &'static str)
        ensures
            name@ == self.type_text(),
    {
        match self {
            StreamKind::Start => "stream_start",
            StreamKind::Data => "stream_data",
            StreamKind::End => "stream_end",
            StreamKind::Pause => "stream_pause",
            StreamKind::Resume => "stream_resume",
            StreamKind::Cancel => "stream_cancel",
        }
    }
}

impl StreamMessageWrapper {
    /// The JSON object of the message.
    pub open spec fn json_text(self) -> Seq<char> {
        envelope_text(
            self.kind@,
            self.plugin_id@,
            self.instance_id@,
            self.data.json_text(),
            self.timestamp as nat,
        )
    }

    /// Writes the message as JSON.
    pub fn to_json(&self) -> (text: String)
        ensures
            text@ == self.json_text(),
    {
        let mut text = "{\"type\":".to_string();
        text.append(json_string(self.kind.as_str()).as_str());
        text.append(",\"plugin_id\":");
        text.append(json_string(self.plugin_id.as_str()).as_str());
        text.append(",\"instance_id\":");
        text.append(json_string(self.instance_id.as_str()).as_str());
        text.append(",\"data\":");
        text.append(self.data.to_json().as_str());
        text.append(",\"timestamp\":");
        text.append(decimal(self.timestamp as u128).as_str());
        text.append("}");
        text
    }
}

/// The streams of a registry as a value: each id with its record.
pub type Streams = Map<Seq<char>, StreamInfoView>;

/// The state of a stream, if the id is known.
pub open spec fn status_of(streams: Streams, id: Seq<char>) -> Option<StreamStatus> {
    if streams.contains_key(id) {
        Some(streams[id].status)
    } else {
        None
    }
}

/// The streams after one of them has changed state. An unknown id changes
/// nothing.
pub open spec fn with_status(streams: Streams, id: Seq<char>, status: StreamStatus) -> Streams {
    if streams.contains_key(id) {
        streams.insert(id, StreamInfoView { status, ..streams[id] })
    } else {
        streams
    }
}

/// Whether a chunk or an end can be sent on a stream: the id has to be
/// known, whatever the state.
pub open spec fn presence_check(streams: Streams, id: Seq<char>) -> Result<(), StreamError> {
    if streams.contains_key(id) {
        Ok(())
    } else {
        Err(StreamError::StreamNotFound)
    }
}

/// Whether a stream can be paused: only an active one can.
pub open spec fn pause_check(streams: Streams, id: Seq<char>) -> Result<(), StreamError> {
    match status_of(streams, id) {
        None => Err(StreamError::StreamNotFound),
        Some(StreamStatus::Active) => Ok(()),
        Some(_) => Err(StreamError::InvalidState),
    }
}

/// Whether a stream can be resumed: only a paused one can.
pub open spec fn resume_check(streams: Streams, id: Seq<char>) -> Result<(), StreamError> {
    match status_of(streams, id) {
        None => Err(StreamError::StreamNotFound),
        Some(StreamStatus::Paused) => Ok(()),
        Some(_) => Err(StreamError::InvalidState),
    }
}

/// Whether a stream can be cancelled: any live one can.
pub open spec fn cancel_check(streams: Streams, id: Seq<char>) -> Result<(), StreamError> {
    match status_of(streams, id) {
        None => Err(StreamError::StreamNotFound),
        Some(status) => if status.is_live() {
            Ok(())
        } else {
            Err(StreamError::StreamAlreadyEnded)
        },
    }
}

/// Whether a batch can be sent on a stream: not on a paused one, and not
/// on one that has ended.
pub open spec fn batch_check(streams: Streams, id: Seq<char>) -> Result<(), StreamError> {
    match status_of(streams, id) {
        None => Err(StreamError::StreamNotFound),
        Some(StreamStatus::Active) | Some(StreamStatus::Finalizing) => Ok(()),
        Some(StreamStatus::Paused) => Err(StreamError::InvalidState),
        Some(_) => Err(StreamError::StreamAlreadyEnded),
    }
}

/// The streams after an attempt to pause one. The state changes before
/// the host is told, so it changes whether or not the host listens.
pub open spec fn pause_streams(streams: Streams, id: Seq<char>) -> Streams {
    if pause_check(streams, id) is Ok {
        with_status(streams, id, StreamStatus::Paused)
    } else {
        streams
    }
}

/// The streams after an attempt to resume one.
pub open spec fn resume_streams(streams: Streams, id: Seq<char>) -> Streams {
    if resume_check(streams, id) is Ok {
        with_status(streams, id, StreamStatus::Active)
    } else {
        streams
    }
}

/// The streams after an attempt to cancel one.
pub open spec fn cancel_streams(streams: Streams, id: Seq<char>) -> Streams {
    if cancel_check(streams, id) is Ok {
        with_status(streams, id, StreamStatus::Cancelled)
    } else {
        streams
    }
}

/// What a control operation returns: the verdict of its check, and after a
/// passed check whether the host took the control message.
pub open spec fn control_result(check: Result<(), StreamError>, delivered: bool) -> Result<
    (),
    StreamError,
> {
    match check {
        Err(e) => Err(e),
        Ok(_) => if delivered {
            Ok(())
        } else {
            Err(StreamError::SendFailed)
        },
    }
}

/// The record with which a stream starts.
pub open spec fn fresh_stream(id: Seq<char>, plugin_id: Seq<char>, created_at: u64)
    -> StreamInfoView {
    StreamInfoView {
        id,
        plugin_id,
        message_type: "plugin_stream"@,
        status: StreamStatus::Active,
        created_at,
    }
}

/// The streams after an attempt to start one: it is recorded only when the
/// host took the start message.
pub open spec fn start_streams(
    streams: Streams,
    id: Seq<char>,
    plugin_id: Seq<char>,
    created_at: u64,
    delivered: bool,
) -> Streams {
    if delivered {
        streams.insert(id, fresh_stream(id, plugin_id, created_at))
    } else {
        streams
    }
}

/// What sending a chunk returns. A chunk that the host does not take
/// reports the stream as cancelled.
pub open spec fn data_result(streams: Streams, id: Seq<char>, delivered: bool) -> Result<
    (),
    StreamError,
> {
    if !streams.contains_key(id) {
        Err(StreamError::StreamNotFound)
    } else if delivered {
        Ok(())
    } else {
        Err(StreamError::StreamCancelled)
    }
}

/// The streams after sending a chunk: a final chunk that the host took
/// moves the stream to `Finalizing`, from whatever state it was in.
pub open spec fn data_streams(streams: Streams, id: Seq<char>, is_final: bool, delivered: bool)
    -> Streams {
    if delivered && is_final {
        with_status(streams, id, StreamStatus::Finalizing)
    } else {
        streams
    }
}

/// What ending a stream returns.
pub open spec fn end_result(streams: Streams, id: Seq<char>, delivered: bool) -> Result<
    (),
    StreamError,
> {
    control_result(presence_check(streams, id), delivered)
}

/// The streams after ending one: once the host took the end message the
/// stream is `Completed` or `Error`.
pub open spec fn end_streams(streams: Streams, id: Seq<char>, success: bool, delivered: bool)
    -> Streams {
    if delivered {
        with_status(
            streams,
            id,
            if success {
                StreamStatus::Completed
            } else {
                StreamStatus::Error
            },
        )
    } else {
        streams
    }
}

/// What sending a batch of `count` chunks returns when the host took the
/// first `delivered` of them.
pub open spec fn batch_result(streams: Streams, id: Seq<char>, count: nat, delivered: nat)
    -> Result<(), StreamError> {
    control_result(batch_check(streams, id), delivered >= count)
}

/// The streams after a batch: a batch that was taken whole and was not
/// empty moves the stream to `Finalizing`.
pub open spec fn batch_streams(streams: Streams, id: Seq<char>, count: nat, delivered: nat)
    -> Streams {
    if batch_check(streams, id) is Ok && delivered >= count && count > 0 {
        with_status(streams, id, StreamStatus::Finalizing)
    } else {
        streams
    }
}

/// The streams after `n` attempts, one after another, to pause the same
/// stream.
pub open spec fn repeated_pause(streams: Streams, id: Seq<char>, n: nat) -> Streams
    decreases n,
{
    if n == 0 {
        streams
    } else {
        pause_streams(repeated_pause(streams, id, (n - 1) as nat), id)
    }
}

/// An operation on an id that no stream has is refused with
/// `StreamNotFound`, whatever else is true of it, and changes nothing.
pub proof fn law_unknown_id_is_not_found(
    streams: Streams,
    id: Seq<char>,
    is_final: bool,
    success: bool,
    delivered: bool,
    count: nat,
    taken: nat,
)
    requires
        !streams.contains_key(id),
    ensures
        status_of(streams, id) is None,
        pause_check(streams, id) == Err::<(), StreamError>(StreamError::StreamNotFound),
        resume_check(streams, id) == Err::<(), StreamError>(StreamError::StreamNotFound),
        cancel_check(streams, id) == Err::<(), StreamError>(StreamError::StreamNotFound),
        batch_check(streams, id) == Err::<(), StreamError>(StreamError::StreamNotFound),
        data_result(streams, id, delivered) == Err::<(), StreamError>(StreamError::StreamNotFound),
        end_result(streams, id, delivered) == Err::<(), StreamError>(StreamError::StreamNotFound),
        batch_result(streams, id, count, taken) == Err::<(), StreamError>(
            StreamError::StreamNotFound,
        ),
        pause_streams(streams, id) == streams,
        resume_streams(streams, id) == streams,
        cancel_streams(streams, id) == streams,
        data_streams(streams, id, is_final, delivered) == streams,
        end_streams(streams, id, success, delivered) == streams,
        batch_streams(streams, id, count, taken) == streams,
{
}

/// Pausing passes its check exactly on an active stream, and leaves the
/// stream paused; with a host that takes the message it succeeds exactly
/// then.
pub proof fn law_pause_needs_active(streams: Streams, id: Seq<char>)
    ensures
        pause_check(streams, id) is Ok <==> status_of(streams, id) == Some(StreamStatus::Active),
        control_result(pause_check(streams, id), true) is Ok <==> status_of(streams, id) == Some(
            StreamStatus::Active,
        ),
        pause_check(streams, id) is Ok ==> status_of(pause_streams(streams, id), id) == Some(
            StreamStatus::Paused,
        ),
        streams.contains_key(id) && streams[id].status != StreamStatus::Active ==> pause_check(
            streams,
            id,
        ) == Err::<(), StreamError>(StreamError::InvalidState),
{
}

/// Resuming passes its check exactly on a paused stream, and leaves the
/// stream active; with a host that takes the message it succeeds exactly
/// then.
pub proof fn law_resume_needs_paused(streams: Streams, id: Seq<char>)
    ensures
        resume_check(streams, id) is Ok <==> status_of(streams, id) == Some(StreamStatus::Paused),
        control_result(resume_check(streams, id), true) is Ok <==> status_of(streams, id) == Some(
            StreamStatus::Paused,
        ),
        resume_check(streams, id) is Ok ==> status_of(resume_streams(streams, id), id) == Some(
            StreamStatus::Active,
        ),
        streams.contains_key(id) && streams[id].status != StreamStatus::Paused ==> resume_check(
            streams,
            id,
        ) == Err::<(), StreamError>(StreamError::InvalidState),
{
}

/// Cancelling passes its check exactly on a live stream, and leaves the
/// stream cancelled; with a host that takes the message it succeeds
/// exactly then. A stream that has ended is refused with
/// `StreamAlreadyEnded`.
pub proof fn law_cancel_needs_live(streams: Streams, id: Seq<char>)
    ensures
        cancel_check(streams, id) is Ok <==> (status_of(streams, id) == Some(StreamStatus::Active)
            || status_of(streams, id) == Some(StreamStatus::Paused) || status_of(streams, id)
            == Some(StreamStatus::Finalizing)),
        control_result(cancel_check(streams, id), true) is Ok <==> cancel_check(streams, id) is Ok,
        cancel_check(streams, id) is Ok ==> status_of(cancel_streams(streams, id), id) == Some(
            StreamStatus::Cancelled,
        ),
        streams.contains_key(id) && streams[id].status.is_terminal() ==> cancel_check(streams, id)
            == Err::<(), StreamError>(StreamError::StreamAlreadyEnded),
{
}

/// A second cancel of the same stream is refused with
/// `StreamAlreadyEnded`, whether or not the host heard of the first.
pub proof fn law_cancel_twice(streams: Streams, id: Seq<char>, delivered: bool)
    requires
        cancel_check(streams, id) is Ok,
    ensures
        control_result(cancel_check(cancel_streams(streams, id), id), delivered) == Err::<
            (),
            StreamError,
        >(StreamError::StreamAlreadyEnded),
        cancel_streams(cancel_streams(streams, id), id) == cancel_streams(streams, id),
{
}

/// A batch for a paused stream is refused with `InvalidState` before any
/// chunk is looked at, and the stream stays paused.
pub proof fn law_batch_refused_when_paused(
    streams: Streams,
    id: Seq<char>,
    count: nat,
    taken: nat,
)
    requires
        status_of(streams, id) == Some(StreamStatus::Paused),
    ensures
        batch_check(streams, id) == Err::<(), StreamError>(StreamError::InvalidState),
        batch_result(streams, id, count, taken) == Err::<(), StreamError>(
            StreamError::InvalidState,
        ),
        batch_streams(streams, id, count, taken) == streams,
{
}

/// Pause, resume, cancel and batch never move a stream out of a terminal
/// state.
pub proof fn law_terminal_is_kept(streams: Streams, id: Seq<char>, count: nat, taken: nat)
    requires
        streams.contains_key(id),
        streams[id].status.is_terminal(),
    ensures
        pause_streams(streams, id) == streams,
        resume_streams(streams, id) == streams,
        cancel_streams(streams, id) == streams,
        batch_streams(streams, id, count, taken) == streams,
        pause_check(streams, id) is Err,
        resume_check(streams, id) is Err,
        cancel_check(streams, id) is Err,
        batch_check(streams, id) is Err,
{
}

/// No operation answers with `InvalidStreamId`: the error is kept for a
/// validation of ids that is yet to come.
pub proof fn law_reserved_error_is_never_returned(
    streams: Streams,
    id: Seq<char>,
    delivered: bool,
    count: nat,
    taken: nat,
)
    ensures
        control_result(pause_check(streams, id), delivered) != Err::<(), StreamError>(
            StreamError::InvalidStreamId,
        ),
        control_result(resume_check(streams, id), delivered) != Err::<(), StreamError>(
            StreamError::InvalidStreamId,
        ),
        control_result(cancel_check(streams, id), delivered) != Err::<(), StreamError>(
            StreamError::InvalidStreamId,
        ),
        data_result(streams, id, delivered) != Err::<(), StreamError>(
            StreamError::InvalidStreamId,
        ),
        end_result(streams, id, delivered) != Err::<(), StreamError>(StreamError::InvalidStreamId),
        batch_result(streams, id, count, taken) != Err::<(), StreamError>(
            StreamError::InvalidStreamId,
        ),
{
}

/// An operation on one stream leaves every other stream as it is, and no
/// stream is ever taken off the record.
pub proof fn law_other_streams_are_untouched(
    streams: Streams,
    id: Seq<char>,
    other: Seq<char>,
    is_final: bool,
    success: bool,
    delivered: bool,
    count: nat,
    taken: nat,
)
    requires
        streams.contains_key(other),
    ensures
        pause_streams(streams, id).contains_key(other),
        resume_streams(streams, id).contains_key(other),
        cancel_streams(streams, id).contains_key(other),
        data_streams(streams, id, is_final, delivered).contains_key(other),
        end_streams(streams, id, success, delivered).contains_key(other),
        batch_streams(streams, id, count, taken).contains_key(other),
        other != id ==> pause_streams(streams, id)[other] == streams[other],
        other != id ==> resume_streams(streams, id)[other] == streams[other],
        other != id ==> cancel_streams(streams, id)[other] == streams[other],
        other != id ==> data_streams(streams, id, is_final, delivered)[other] == streams[other],
        other != id ==> end_streams(streams, id, success, delivered)[other] == streams[other],
        other != id ==> batch_streams(streams, id, count, taken)[other] == streams[other],
{
}

/// Of several attempts to pause an active stream, made one after another,
/// the first passes its check and every later one is refused with
/// `InvalidState`; the stream ends up paused.
pub proof fn law_one_pause_wins(streams: Streams, id: Seq<char>, earlier: nat)
    requires
        status_of(streams, id) == Some(StreamStatus::Active),
    ensures
        pause_check(repeated_pause(streams, id, 0), id) is Ok,
        earlier >= 1 ==> pause_check(repeated_pause(streams, id, earlier), id) == Err::<
            (),
            StreamError,
        >(StreamError::InvalidState),
        earlier >= 1 ==> status_of(repeated_pause(streams, id, earlier), id) == Some(
            StreamStatus::Paused,
        ),
    decreases earlier,
{
    if earlier >= 1 {
        law_one_pause_wins(streams, id, (earlier - 1) as nat);
    }
}

/// The ids of the live streams among `streams`.
pub open spec fn live_ids(streams: Streams) -> Set<Seq<char>> {
    Set::new(|id: Seq<char>| streams.contains_key(id) && streams[id].status.is_live())
}

/// The texts of a list of strings.
pub open spec fn texts(list: Seq<String>) -> Seq<Seq<char>> {
    list.map_values(|s: String| s@)
}

/// Every stream that was started and its state. Streams are never taken
/// out: one that has ended stays on record.
/// The records are in a hash map by id. The ids are kept besides, each
/// once and in the order in which the streams came, for the listing.
pub struct StreamRegistry {
    by_id: StringHashMap<StreamInfo>,
    ids: Vec<String>,
}

impl View for StreamRegistry {
    type V = Streams;

    closed spec fn view(&self) -> Streams {
        self.by_id@.map_values(|info: StreamInfo| info@)
    }
}

impl StreamRegistry {
    #[verifier::type_invariant]
    spec fn well_formed(self) -> bool {
        &&& texts(self.ids@).no_duplicates()
        &&& forall|k: Seq<char>| self.by_id@.contains_key(k) <==> texts(self.ids@).contains(k)
    }

    /// A registry without streams.
    pub fn new() -> (registry: Self)
        ensures
            registry@ == Streams::empty(),
    {
        StreamRegistry { by_id: StringHashMap::new(), ids: Vec::new() }
    }

    /// Whether a stream has the id.
    pub fn contains(&self, id: &str) -> (found: bool)
        ensures
            found == self@.contains_key(id@),
    {
        self.by_id.contains_key(id)
    }

    /// The state of a stream.
    pub fn get_status(&self, id: &str) -> (status: Option<StreamStatus>)
        ensures
            status == status_of(self@, id@),
    {
        match self.by_id.get(id) {
            Some(info) => Some(info.status),
            None => None,
        }
    }

    /// Puts a record under its id, in place of any record with that id.
    pub fn insert(&mut self, info: StreamInfo)
        ensures
            final(self)@ == old(self)@.insert(info.id@, info@),
    {
        let mut taken = StreamRegistry::new();
        std::mem::swap(self, &mut taken);
        proof {
            use_type_invariant(&taken);
        }
        let StreamRegistry { mut by_id, mut ids } = taken;
        let ghost listed = texts(ids@);
        if !by_id.contains_key(info.id.as_str()) {
            ids.push(info.id.clone());
            assert(texts(ids@) =~= listed.push(info.id@));
        }
        by_id.insert(info.id.clone(), info);
        proof {
            let after = texts(ids@);
            assert forall|k: Seq<char>| by_id@.contains_key(k) <==> after.contains(k) by {
                if listed.contains(k) {
                    let j = choose|j: int| 0 <= j < listed.len() && listed[j] == k;
                    assert(after[j] == k);
                }
                if k == info.id@ && !listed.contains(k) {
                    assert(after[listed.len() as int] == k);
                }
            }
        }
        *self = StreamRegistry { by_id, ids };
    }

    /// Moves a stream to another state. An unknown id changes nothing.
    pub fn set_status(&mut self, id: &str, status: StreamStatus)
        ensures
            final(self)@ == with_status(old(self)@, id@, status),
    {
        proof {
            use_type_invariant(&*self);
        }
        let updated = match self.by_id.get(id) {
            Some(info) => Some(info.with_status(status)),
            None => None,
        };
        match updated {
            Some(info) => {
                let mut taken = StreamRegistry::new();
                std::mem::swap(self, &mut taken);
                proof {
                    use_type_invariant(&taken);
                }
                let StreamRegistry { mut by_id, ids } = taken;
                by_id.insert(id.to_string(), info);
                *self = StreamRegistry { by_id, ids };
            },
            None => {},
        }
    }

    /// Pauses a stream, if it is active.
    pub fn pause(&mut self, id: &str) -> (verdict: Result<(), StreamError>)
        ensures
            verdict == pause_check(old(self)@, id@),
            final(self)@ == pause_streams(old(self)@, id@),
    {
        match self.get_status(id) {
            None => Err(StreamError::StreamNotFound),
            Some(StreamStatus::Active) => {
                self.set_status(id, StreamStatus::Paused);
                Ok(())
            },
            Some(_) => Err(StreamError::InvalidState),
        }
    }

    /// Resumes a stream, if it is paused.
    pub fn resume(&mut self, id: &str) -> (verdict: Result<(), StreamError>)
        ensures
            verdict == resume_check(old(self)@, id@),
            final(self)@ == resume_streams(old(self)@, id@),
    {
        match self.get_status(id) {
            None => Err(StreamError::StreamNotFound),
            Some(StreamStatus::Paused) => {
                self.set_status(id, StreamStatus::Active);
                Ok(())
            },
            Some(_) => Err(StreamError::InvalidState),
        }
    }

    /// Cancels a stream, if it is live.
    pub fn cancel(&mut self, id: &str) -> (verdict: Result<(), StreamError>)
        ensures
            verdict == cancel_check(old(self)@, id@),
            final(self)@ == cancel_streams(old(self)@, id@),
    {
        match self.get_status(id) {
            None => Err(StreamError::StreamNotFound),
            Some(status) => {
                if status.live() {
                    self.set_status(id, StreamStatus::Cancelled);
                    Ok(())
                } else {
                    Err(StreamError::StreamAlreadyEnded)
                }
            },
        }
    }

    /// Whether a chunk or an end can be sent on a stream.
    pub fn check_present(&self, id: &str) -> (verdict: Result<(), StreamError>)
        ensures
            verdict == presence_check(self@, id@),
    {
        if self.contains(id) {
            Ok(())
        } else {
            Err(StreamError::StreamNotFound)
        }
    }

    /// Whether a batch can be sent on a stream.
    pub fn check_batch(&self, id: &str) -> (verdict: Result<(), StreamError>)
        ensures
            verdict == batch_check(self@, id@),
    {
        match self.get_status(id) {
            None => Err(StreamError::StreamNotFound),
            Some(StreamStatus::Active) | Some(StreamStatus::Finalizing) => Ok(()),
            Some(StreamStatus::Paused) => Err(StreamError::InvalidState),
            Some(_) => Err(StreamError::StreamAlreadyEnded),
        }
    }

    /// What a batch for a stream sends: the messages of the batch, or,
    /// where the stream does not allow a batch, the reason and no message
    /// at all.
    pub fn plan_batch(&self, id: &str, chunks: &[&str]) -> (plan: Result<
        Vec<StreamMessageData>,
        StreamError,
    >)
        ensures
            match plan {
                Ok(messages) => batch_check(self@, id@) is Ok && is_batch_plan(
                    messages@,
                    id@,
                    chunks@,
                ),
                Err(e) => batch_check(self@, id@) == Err::<(), StreamError>(e),
            },
    {
        match self.check_batch(id) {
            Err(e) => Err(e),
            Ok(_) => Ok(batch_messages(id, chunks)),
        }
    }

    /// Records the start of a stream once the host has answered the start
    /// message: a stream that the host took is entered as active and its id
    /// returned; one that it did not take leaves no trace.
    pub fn record_start(
        &mut self,
        id: String,
        plugin_id: String,
        created_at: u64,
        delivered: bool,
    ) -> (started: Result<String, StreamError>)
        ensures
            final(self)@ == start_streams(old(self)@, id@, plugin_id@, created_at, delivered),
            delivered ==> started is Ok && started->Ok_0@ == id@,
            !delivered ==> started == Err::<String, StreamError>(StreamError::SendFailed),
    {
        if delivered {
            let info = StreamInfo {
                id: id.clone(),
                plugin_id,
                message_type: "plugin_stream".to_string(),
                status: StreamStatus::Active,
                created_at,
            };
            self.insert(info);
            Ok(id)
        } else {
            Err(StreamError::SendFailed)
        }
    }

    /// Records a chunk once the host has answered it.
    pub fn record_data(&mut self, id: &str, is_final: bool, delivered: bool) -> (sent: Result<
        (),
        StreamError,
    >)
        ensures
            sent == data_result(old(self)@, id@, delivered),
            final(self)@ == data_streams(old(self)@, id@, is_final, delivered),
    {
        if !self.contains(id) {
            return Err(StreamError::StreamNotFound);
        }
        if delivered {
            if is_final {
                self.set_status(id, StreamStatus::Finalizing);
            }
            Ok(())
        } else {
            Err(StreamError::StreamCancelled)
        }
    }

    /// Records the end of a stream once the host has answered the end
    /// message.
    pub fn record_end(&mut self, id: &str, success: bool, delivered: bool) -> (ended: Result<
        (),
        StreamError,
    >)
        ensures
            ended == end_result(old(self)@, id@, delivered),
            final(self)@ == end_streams(old(self)@, id@, success, delivered),
    {
        if !self.contains(id) {
            return Err(StreamError::StreamNotFound);
        }
        if delivered {
            self.set_status(
                id,
                if success {
                    StreamStatus::Completed
                } else {
                    StreamStatus::Error
                },
            );
            Ok(())
        } else {
            Err(StreamError::SendFailed)
        }
    }

    /// Records a batch of `count` chunks of which the host took the first
    /// `delivered`.
    pub fn record_batch(&mut self, id: &str, count: usize, delivered: usize) -> (sent: Result<
        (),
        StreamError,
    >)
        ensures
            sent == batch_result(old(self)@, id@, count as nat, delivered as nat),
            final(self)@ == batch_streams(old(self)@, id@, count as nat, delivered as nat),
    {
        match self.check_batch(id) {
            Err(e) => Err(e),
            Ok(_) => {
                if delivered >= count {
                    if count > 0 {
                        self.set_status(id, StreamStatus::Finalizing);
                    }
                    Ok(())
                } else {
                    Err(StreamError::SendFailed)
                }
            },
        }
    }

    /// The ids of the live streams, each once.
    pub fn list_active(&self) -> (ids: Vec<String>)
        ensures
            texts(ids@).no_duplicates(),
            texts(ids@).to_set() == live_ids(self@),
    {
        proof {
            use_type_invariant(self);
        }
        let ghost known = texts(self.ids@);
        let mut ids: Vec<String> = Vec::new();
        let ghost mut places: Seq<int> = Seq::empty();
        let mut i: usize = 0;
        while i < self.ids.len()
            invariant
                known == texts(self.ids@),
                known.no_duplicates(),
                forall|k: Seq<char>| self.by_id@.contains_key(k) <==> known.contains(k),
                i <= known.len(),
                places.len() == ids@.len(),
                forall|j: int| 0 <= j < places.len() ==> 0 <= #[trigger] places[j] < i,
                forall|j: int, k: int| 0 <= j < k < places.len() ==> places[j] < places[k],
                forall|j: int|
                    0 <= j < places.len() ==> (#[trigger] ids@[j])@ == known[places[j]]
                        && self@[ids@[j]@].status.is_live(),
                forall|p: int|
                    0 <= p < i && self@[#[trigger] known[p]].status.is_live() ==> exists|j: int|
                        0 <= j < places.len() && #[trigger] places[j] == p,
            decreases known.len() - i,
        {
            let id = &self.ids[i];
            assert(known[i as int] == id@);
            assert(known.contains(id@));
            let live = match self.by_id.get(id.as_str()) {
                Some(info) => info.status.live(),
                None => false,
            };
            if live {
                ids.push(id.clone());
                proof {
                    let ghost earlier = places;
                    places = places.push(i as int);
                    assert forall|p: int|
                        0 <= p < i + 1 && self@[#[trigger] known[p]].status.is_live()
                        implies exists|j: int| 0 <= j < places.len() && #[trigger] places[j]
                        == p by {
                        if p < i {
                            let j = choose|j: int| 0 <= j < earlier.len() && #[trigger] earlier[j]
                                == p;
                            assert(places[j] == p);
                        } else {
                            assert(places[earlier.len() as int] == p);
                        }
                    }
                }
            }
            i += 1;
        }
        proof {
            let listed = texts(ids@);
            assert forall|id: Seq<char>| listed.to_set().contains(id) <==> live_ids(
                self@,
            ).contains(id) by {
                if live_ids(self@).contains(id) {
                    let p = choose|p: int| 0 <= p < known.len() && known[p] == id;
                    let j = choose|j: int| 0 <= j < places.len() && #[trigger] places[j] == p;
                    assert(listed[j] == id);
                }
            }
        }
        ids
    }
}

/// What a control operation returns once its check has passed and the
/// host has answered the control message.
pub fn conclude(delivered: bool) -> (done: Result<(), StreamError>)
    ensures
        done == control_result(Ok(()), delivered),
{
    if delivered {
        Ok(())
    } else {
        Err(StreamError::SendFailed)
    }
}

/// The id of the stream started at `nanos` nanoseconds after the epoch.
pub open spec fn stream_id_text(nanos: nat) -> Seq<char> {
    "stream_"@ + decimal_text(nanos)
}

/// The id of the stream started at `nanos` nanoseconds after the epoch.
pub fn stream_id_for(nanos: u128) -> (id: String)
    ensures
        id@ == stream_id_text(nanos as nat),
{
    let mut id = "stream_".to_string();
    id.append(decimal(nanos).as_str());
    id
}

impl StreamMessageData {
    /// The message that opens a stream.
    pub fn start(stream_id: &str) -> (message: StreamMessageData)
        ensures
            message matches StreamMessageData::Start(d) && d.stream_id@ == stream_id@
                && d.message_type@ == "stream_start"@,
    {
        StreamMessageData::Start(
            StreamStartData {
                stream_id: stream_id.to_string(),
                message_type: "stream_start".to_string(),
            },
        )
    }

    /// The message for one chunk.
    pub fn data(stream_id: &str, chunk: &str, is_final: bool) -> (message: StreamMessageData)
        ensures
            message matches StreamMessageData::Data(d) && d.stream_id@ == stream_id@ && d.chunk@
                == chunk@ && d.is_final == is_final,
    {
        StreamMessageData::Data(
            StreamDataData {
                stream_id: stream_id.to_string(),
                chunk: chunk.to_string(),
                is_final,
            },
        )
    }

    /// The message that closes a stream.
    pub fn end(stream_id: &str, success: bool, error_msg: Option<&str>) -> (message:
        StreamMessageData)
        ensures
            message matches StreamMessageData::End(d) && d.stream_id@ == stream_id@ && d.success
                == success && text_of(d.error) == (match error_msg {
                Some(e) => Some(e@),
                None => None,
            }),
    {
        let error = match error_msg {
            Some(e) => Some(e.to_string()),
            None => None,
        };
        StreamMessageData::End(StreamEndData { stream_id: stream_id.to_string(), success, error })
    }

    /// The message of a pause, resume or cancel.
    pub fn control(stream_id: &str) -> (message: StreamMessageData)
        ensures
            message matches StreamMessageData::Control(d) && d.stream_id@ == stream_id@,
    {
        StreamMessageData::Control(StreamControlData { stream_id: stream_id.to_string() })
    }
}

/// Whether a message is the chunk at place `i` of a batch for a stream:
/// a data message for that stream with that chunk, final exactly when the
/// chunk is the last of the batch.
pub open spec fn is_batch_message(
    message: StreamMessageData,
    stream_id: Seq<char>,
    chunks: Seq<&str>,
    i: int,
) -> bool {
    message matches StreamMessageData::Data(d) && d.stream_id@ == stream_id && d.chunk@
        == chunks[i]@ && d.is_final == (i == chunks.len() - 1)
}

/// Whether messages are those of a batch: one for each chunk, in the
/// order of the chunks.
pub open spec fn is_batch_plan(
    messages: Seq<StreamMessageData>,
    stream_id: Seq<char>,
    chunks: Seq<&str>,
) -> bool {
    &&& messages.len() == chunks.len()
    &&& forall|i: int|
        0 <= i < messages.len() ==> is_batch_message(#[trigger] messages[i], stream_id, chunks, i)
}

/// The message for one chunk of a batch: only the last chunk of the batch
/// is marked final.
pub fn batch_message(stream_id: &str, chunks: &[&str], i: usize) -> (message: StreamMessageData)
    requires
        i < chunks@.len(),
    ensures
        is_batch_message(message, stream_id@, chunks@, i as int),
{
    StreamMessageData::data(stream_id, chunks[i], i == chunks.len() - 1)
}

/// The messages of a batch, in the order in which they go out.
pub fn batch_messages(stream_id: &str, chunks: &[&str]) -> (messages: Vec<StreamMessageData>)
    ensures
        is_batch_plan(messages@, stream_id@, chunks@),
{
    let mut messages: Vec<StreamMessageData> = Vec::new();
    let mut i: usize = 0;
    while i < chunks.len()
        invariant
            i <= chunks@.len(),
            messages@.len() == i,
            forall|k: int|
                0 <= k < i ==> is_batch_message(#[trigger] messages@[k], stream_id@, chunks@, k),
        decreases chunks@.len() - i,
    {
        messages.push(batch_message(stream_id, chunks, i));
        i += 1;
    }
    messages
}

/// Sending streams to the host. Every operation works on the registry
/// that it is given and tells the host with one message for each step.
/// Whether the host takes a message is the host's affair: each contract
/// says what follows if it does and what follows if it does not.
pub trait PluginStreamMessage {
    /// Starts a stream and returns its id. The stream is on record, as
    /// active, exactly when the host took the start message.
    fn send_message_stream_start(&self, streams: &mut StreamRegistry) -> (started: Result<
        String,
        StreamError,
    >)
        ensures
            match started {
                Ok(id) => exists|plugin_id: Seq<char>, created_at: u64|
                    final(streams)@ == old(streams)@.insert(
                        id@,
                        #[trigger] fresh_stream(id@, plugin_id, created_at),
                    ),
                Err(e) => e == StreamError::SendFailed && final(streams)@ == old(streams)@,
            },
    ;

    /// Sends one chunk of a stream.
    fn send_message_stream(
        &self,
        streams: &mut StreamRegistry,
        stream_id: &str,
        chunk: &str,
        is_final: bool,
    ) -> (sent: Result<(), StreamError>)
        ensures
            exists|delivered: bool|
                sent == #[trigger] data_result(old(streams)@, stream_id@, delivered)
                    && final(streams)@ == data_streams(
                    old(streams)@,
                    stream_id@,
                    is_final,
                    delivered,
                ),
    ;

    /// Ends a stream, as a success or as a failure.
    fn send_message_stream_end(
        &self,
        streams: &mut StreamRegistry,
        stream_id: &str,
        success: bool,
        error_msg: Option<&str>,
    ) -> (ended: Result<(), StreamError>)
        ensures
            exists|delivered: bool|
                ended == #[trigger] end_result(old(streams)@, stream_id@, delivered)
                    && final(streams)@ == end_streams(
                    old(streams)@,
                    stream_id@,
                    success,
                    delivered,
                ),
    ;

    /// Pauses an active stream.
    fn send_message_stream_pause(&self, streams: &mut StreamRegistry, stream_id: &str) -> (paused:
        Result<(), StreamError>)
        ensures
            final(streams)@ == pause_streams(old(streams)@, stream_id@),
            exists|delivered: bool|
                paused == #[trigger] control_result(
                    pause_check(old(streams)@, stream_id@),
                    delivered,
                ),
    ;

    /// Resumes a paused stream.
    fn send_message_stream_resume(&self, streams: &mut StreamRegistry, stream_id: &str) -> (resumed:
        Result<(), StreamError>)
        ensures
            final(streams)@ == resume_streams(old(streams)@, stream_id@),
            exists|delivered: bool|
                resumed == #[trigger] control_result(
                    resume_check(old(streams)@, stream_id@),
                    delivered,
                ),
    ;

    /// Cancels a live stream.
    fn send_message_stream_cancel(
        &self,
        streams: &mut StreamRegistry,
        stream_id: &str,
    ) -> (cancelled: Result<(), StreamError>)
        ensures
            final(streams)@ == cancel_streams(old(streams)@, stream_id@),
            exists|delivered: bool|
                cancelled == #[trigger] control_result(
                    cancel_check(old(streams)@, stream_id@),
                    delivered,
                ),
    ;

    /// The state of a stream.
    fn get_stream_status(&self, streams: &StreamRegistry, stream_id: &str) -> (status: Option<
        StreamStatus,
    >)
        ensures
            status == status_of(streams@, stream_id@),
    ;

    /// The ids of the live streams, each once.
    fn list_active_streams(&self, streams: &StreamRegistry) -> (ids: Vec<String>)
        ensures
            texts(ids@).no_duplicates(),
            texts(ids@).to_set() == live_ids(streams@),
    ;

    /// Sends chunks one after another, the last of them as final. The
    /// stream is checked before the first chunk goes out; the first chunk
    /// that the host does not take ends the batch, and what went out
    /// before it stays sent.
    fn send_message_stream_batch(
        &self,
        streams: &mut StreamRegistry,
        stream_id: &str,
        chunks: &[&str],
    ) -> (sent: Result<(), StreamError>)
        ensures
            exists|taken: nat|
                taken <= chunks@.len() && sent == #[trigger] batch_result(
                    old(streams)@,
                    stream_id@,
                    chunks@.len(),
                    taken,
                ) && final(streams)@ == batch_streams(
                    old(streams)@,
                    stream_id@,
                    chunks@.len(),
                    taken,
                ),
    ;
}

} // verus!
