//! The streaming protocol: lines are gathered into frames, and frames are
//! decoded into events. Two wire formats are understood: lines of the form
//! `event: <name>` and `data: <payload>`, and single-line JSON objects with an
//! `event` and an optional `payload` member.
//!
//! The payload of an `update` is a status and that of a `notification` is a
//! notification. Decoding them is the caller's part: the library says which
//! payload is wanted as what, and takes the outcome of the decoding.

use vstd::prelude::*;
use crate::entities::event::{Event, EventModel};
use crate::errors::MastodonError;
use crate::json::{
    field_of, find_field, json_object, members_view, parse_json_object, FieldModel, JsonField,
    JsonMember, MemberModel,
};
use crate::text::{chars_of, has_prefix, starts_with, str_eq, trim, trimmed, trimmed_after};

verus! {

/// One message of the stream before it is decoded: the name of its event and
/// its payload, as far as the lines gave them.
#[derive(Clone, Debug, PartialEq, Eq)]
pub struct Frame {
    /// The name of the event.
    pub event_name: Option<String>,
    /// The payload.
    pub data: Option<String>,
}

/// What a `Frame` stands for.
pub struct FrameModel {
    pub event_name: Option<Seq<char>>,
    pub data: Option<Seq<char>>,
}

impl View for Frame {
    type V = FrameModel;

    open spec fn view(&self) -> FrameModel {
        FrameModel {
            event_name: match self.event_name {
                Some(n) => Some(n@),
                None => None,
            },
            data: match self.data {
                Some(d) => Some(d@),
                None => None,
            },
        }
    }
}

/// The events that the protocol names.
#[derive(Clone, Copy, Debug, PartialEq, Eq)]
pub enum EventKind {
    Update,
    Notification,
    Delete,
    FiltersChanged,
}

/// What has to be decoded before a frame can be: its payload, as a status or as
/// a notification.
#[derive(Clone, Debug, PartialEq, Eq)]
pub enum Wanted {
    /// The text, as a status.
    Status(String),
    /// The text, as a notification.
    Notification(String),
    /// Nothing: the frame needs no entity, or there is no frame.
    Nothing,
}

/// What a `Wanted` stands for.
pub enum WantedModel {
    Status(Seq<char>),
    Notification(Seq<char>),
    Nothing,
}

impl View for Wanted {
    type V = WantedModel;

    open spec fn view(&self) -> WantedModel {
        match self {
            Wanted::Status(text) => WantedModel::Status(text@),
            Wanted::Notification(text) => WantedModel::Notification(text@),
            Wanted::Nothing => WantedModel::Nothing,
        }
    }
}

/// What decoding the wanted payload gave.
#[derive(Debug)]
pub enum Entity<S, N> {
    /// The outcome of decoding a status.
    Status(Result<S, serde_json::Error>),
    /// The outcome of decoding a notification.
    Notification(Result<N, serde_json::Error>),
    /// Nothing was decoded.
    Nothing,
}

/// How decoding ends: with an event, or with one of the failures.
pub enum Outcome<S, N> {
    /// The frame is this event.
    Event(EventModel<S, N>),
    /// The event needs a payload and the frame has none.
    MissingData,
    /// The frame names an event that the protocol does not have.
    UnknownEvent(Seq<char>),
    /// The payload did not decode as the entity that the event carries; the
    /// error is the decoder's.
    Undecodable(serde_json::Error),
    /// The event carries an entity, and none of its kind was handed in.
    Undecoded,
    /// There is no `event:` line, and the first line is not a JSON object.
    Malformed,
    /// The lines hold no frame: no `event:` line, and no JSON message.
    Unframed,
}

/// Whether the error `e` is the one that the failure `o` calls for.
pub open spec fn error_agrees<S, N>(e: MastodonError, o: Outcome<S, N>) -> bool {
    match o {
        Outcome::Event(_) => false,
        Outcome::MissingData => e is MissingData,
        Outcome::UnknownEvent(name) => e matches MastodonError::UnknownEvent(n) && n@ == name,
        Outcome::Undecodable(x) => e == MastodonError::Serde(x),
        Outcome::Undecoded => e is Other,
        Outcome::Malformed => e is Serde,
        Outcome::Unframed => e is Other,
    }
}

/// Whether the result `r` is what the outcome `o` calls for.
pub open spec fn agrees<S, N>(r: Result<Event<S, N>, MastodonError>, o: Outcome<S, N>) -> bool {
    match r {
        Ok(event) => o == Outcome::Event(event@),
        Err(e) => error_agrees(e, o),
    }
}

/// The event that a name stands for.
pub open spec fn kind_of(name: Seq<char>) -> Option<EventKind> {
    if name == "notification"@ {
        Some(EventKind::Notification)
    } else if name == "update"@ {
        Some(EventKind::Update)
    } else if name == "delete"@ {
        Some(EventKind::Delete)
    } else if name == "filters_changed"@ {
        Some(EventKind::FiltersChanged)
    } else {
        None
    }
}

/// What has to be decoded before `frame` can be: the payload of an `update` as
/// a status, the payload of a `notification` as a notification, and nothing
/// for any other frame.
pub open spec fn wanted_spec(frame: FrameModel) -> WantedModel {
    match (frame.event_name, frame.data) {
        (Some(name), Some(data)) => match kind_of(name) {
            Some(EventKind::Update) => WantedModel::Status(data),
            Some(EventKind::Notification) => WantedModel::Notification(data),
            _ => WantedModel::Nothing,
        },
        _ => WantedModel::Nothing,
    }
}

/// What a frame decodes to, given what decoding its payload gave. `update`
/// needs a payload that decoded as a status and `notification` one that
/// decoded as a notification; `delete` needs a payload and takes it as the id
/// that it is; `filters_changed` needs none; any other name is unknown.
pub open spec fn decode_spec<S, N>(frame: FrameModel, entity: Entity<S, N>) -> Outcome<S, N> {
    match frame.event_name {
        None => Outcome::UnknownEvent(Seq::empty()),
        Some(name) => match kind_of(name) {
            None => Outcome::UnknownEvent(name),
            Some(EventKind::FiltersChanged) => Outcome::Event(EventModel::FiltersChanged),
            Some(kind) => match frame.data {
                None => Outcome::MissingData,
                Some(data) => match kind {
                    EventKind::Delete => Outcome::Event(EventModel::Delete(data)),
                    EventKind::Update => match entity {
                        Entity::Status(Ok(status)) => Outcome::Event(EventModel::Update(status)),
                        Entity::Status(Err(e)) => Outcome::Undecodable(e),
                        _ => Outcome::Undecoded,
                    },
                    _ => match entity {
                        Entity::Notification(Ok(notification)) => Outcome::Event(
                            EventModel::Notification(notification),
                        ),
                        Entity::Notification(Err(e)) => Outcome::Undecodable(e),
                        _ => Outcome::Undecoded,
                    },
                },
            },
        },
    }
}

/// The frame that the members of a JSON message give: `event` must be a
/// string, and `payload` a string, null or absent.
pub open spec fn message_frame(members: Seq<MemberModel>) -> Option<FrameModel> {
    match field_of(members, "event"@) {
        Some(FieldModel::Text(name)) => match field_of(members, "payload"@) {
            None | Some(FieldModel::Null) => Some(
                FrameModel { event_name: Some(name), data: None },
            ),
            Some(FieldModel::Text(payload)) => Some(
                FrameModel { event_name: Some(name), data: Some(payload) },
            ),
            Some(FieldModel::Other) => None,
        },
        _ => None,
    }
}

/// The index of the first line at or after `from` that begins with `prefix`.
pub open spec fn first_prefixed(lines: Seq<Seq<char>>, prefix: Seq<char>, from: int) -> Option<int>
    decreases lines.len() - from,
{
    if from < 0 || from >= lines.len() {
        None
    } else if has_prefix(lines[from], prefix) {
        Some(from)
    } else {
        first_prefixed(lines, prefix, from + 1)
    }
}

/// The text of `line` after its first `prefix.len()` characters, trimmed.
pub open spec fn value_after(line: Seq<char>, prefix: Seq<char>) -> Seq<char> {
    trimmed(line.skip(prefix.len() as int))
}

/// The frame that `event:` and `data:` lines give: the first `event:` line
/// names the event, and the first `data:` line, if there is one, is the
/// payload. Without an `event:` line there is no such frame.
pub open spec fn sse_frame(lines: Seq<Seq<char>>) -> Option<FrameModel> {
    match first_prefixed(lines, "event:"@, 0) {
        None => None,
        Some(i) => Some(
            FrameModel {
                event_name: Some(value_after(lines[i], "event:"@)),
                data: match first_prefixed(lines, "data:"@, 0) {
                    None => None,
                    Some(j) => Some(value_after(lines[j], "data:"@)),
                },
            },
        ),
    }
}

/// How framing ends.
pub enum Framing {
    /// The lines hold this frame.
    Frame(FrameModel),
    /// There is no `event:` line, and the first line is not a JSON object.
    Malformed,
    /// There is no line at all, or the first line is a JSON object that is no
    /// message.
    Unframed,
}

/// The frame that `lines` hold: the one of their `event:` and `data:` lines
/// where there is an `event:` line, else the one of the JSON message that the
/// first line is.
pub open spec fn frame_spec(lines: Seq<Seq<char>>) -> Framing {
    match sse_frame(lines) {
        Some(frame) => Framing::Frame(frame),
        None => if lines.len() == 0 {
            Framing::Unframed
        } else {
            match json_object(lines[0]) {
                None => Framing::Malformed,
                Some(members) => match message_frame(members) {
                    Some(frame) => Framing::Frame(frame),
                    None => Framing::Unframed,
                },
            }
        },
    }
}

/// Whether the result `r` is what the framing `f` calls for.
pub open spec fn framing_agrees(r: Result<Frame, MastodonError>, f: Framing) -> bool {
    match r {
        Ok(frame) => f == Framing::Frame(frame@),
        Err(e) => match f {
            Framing::Frame(_) => false,
            Framing::Malformed => e is Serde,
            Framing::Unframed => e is Other,
        },
    }
}

/// What `lines` decode to, given what decoding the wanted payload gave: their
/// frame, decoded.
pub open spec fn make_event_spec<S, N>(lines: Seq<Seq<char>>, entity: Entity<S, N>) -> Outcome<
    S,
    N,
> {
    match frame_spec(lines) {
        Framing::Frame(frame) => decode_spec(frame, entity),
        Framing::Malformed => Outcome::Malformed,
        Framing::Unframed => Outcome::Unframed,
    }
}

/// What has to be decoded before `lines` can be: what their frame wants, and
/// nothing where they hold no frame.
pub open spec fn wanted_lines_spec(lines: Seq<Seq<char>>) -> WantedModel {
    match frame_spec(lines) {
        Framing::Frame(frame) => wanted_spec(frame),
        _ => WantedModel::Nothing,
    }
}

/// The texts of a list of lines.
pub open spec fn lines_view(lines: Seq<String>) -> Seq<Seq<char>> {
    lines.map_values(|l: String| l@)
}

/// The event that `name` stands for.
pub fn event_kind(name: &str) -> (r: Option<EventKind>)
    ensures
        r == kind_of(name@),
{
    if str_eq(name, "notification") {
        Some(EventKind::Notification)
    } else if str_eq(name, "update") {
        Some(EventKind::Update)
    } else if str_eq(name, "delete") {
        Some(EventKind::Delete)
    } else if str_eq(name, "filters_changed") {
        Some(EventKind::FiltersChanged)
    } else {
        None
    }
}

/// What has to be decoded before `frame` can be.
pub fn wanted(frame: &Frame) -> (r: Wanted)
    ensures
        r@ == wanted_spec(frame@),
{
    let name = match &frame.event_name {
        Some(name) => name,
        None => {
            return Wanted::Nothing;
        },
    };
    let data = match &frame.data {
        Some(data) => data,
        None => {
            return Wanted::Nothing;
        },
    };
    match event_kind(name.as_str()) {
        Some(EventKind::Update) => Wanted::Status(data.clone()),
        Some(EventKind::Notification) => Wanted::Notification(data.clone()),
        _ => Wanted::Nothing,
    }
}

/// Decodes a frame into the event that it is, given what decoding its payload
/// gave.
pub fn decode<S, N>(frame: Frame, entity: Entity<S, N>) -> (r: Result<Event<S, N>, MastodonError>)
    ensures
        agrees(r, decode_spec(frame@, entity)),
{
    let name = match frame.event_name {
        Some(name) => name,
        None => {
            return Err(MastodonError::UnknownEvent(String::new()));
        },
    };
    let kind = match event_kind(name.as_str()) {
        Some(kind) => kind,
        None => {
            return Err(MastodonError::UnknownEvent(name));
        },
    };
    match kind {
        EventKind::FiltersChanged => Ok(Event::FiltersChanged),
        _ => match frame.data {
            None => Err(MastodonError::MissingData),
            Some(data) => match kind {
                EventKind::Delete => Ok(Event::Delete(data)),
                EventKind::Update => match entity {
                    Entity::Status(Ok(status)) => Ok(Event::Update(status)),
                    Entity::Status(Err(e)) => Err(MastodonError::Serde(e)),
                    _ => Err(undecoded()),
                },
                _ => match entity {
                    Entity::Notification(Ok(notification)) => Ok(Event::Notification(notification)),
                    Entity::Notification(Err(e)) => Err(MastodonError::Serde(e)),
                    _ => Err(undecoded()),
                },
            },
        },
    }
}

fn undecoded() -> (r: MastodonError)
    ensures
        r is Other,
{
    MastodonError::Other(String::from_str("the payload was not decoded as the entity of its event"))
}

/// The frame of a JSON message, given the outcome of parsing its line.
pub fn frame_of_message(parsed: Result<Vec<JsonMember>, serde_json::Error>) -> (r: Result<
    Frame,
    MastodonError,
>)
    ensures
        match parsed {
            Err(e) => r == Err::<Frame, MastodonError>(MastodonError::Serde(e)),
            Ok(members) => match message_frame(members_view(members@)) {
                Some(frame) => r matches Ok(f) && f@ == frame,
                None => r matches Err(MastodonError::Other(_)),
            },
        },
{
    let members = match parsed {
        Ok(members) => members,
        Err(e) => {
            return Err(MastodonError::Serde(e));
        },
    };
    let event_name = match find_field(&members, "event") {
        Some(JsonField::Text(name)) => name.clone(),
        _ => {
            return Err(MastodonError::Other(String::from_str("message without an event name")));
        },
    };
    match find_field(&members, "payload") {
        None => Ok(Frame { event_name: Some(event_name), data: None }),
        Some(JsonField::Null) => Ok(Frame { event_name: Some(event_name), data: None }),
        Some(JsonField::Text(payload)) => Ok(
            Frame { event_name: Some(event_name), data: Some(payload.clone()) },
        ),
        Some(JsonField::Other) => Err(
            MastodonError::Other(String::from_str("message whose payload is no text")),
        ),
    }
}

/// The index of the first of `lines` that begins with `prefix`.
pub fn find_prefixed(lines: &[String], prefix: &Vec<char>) -> (r: Option<usize>)
    ensures
        match r {
            Some(i) => first_prefixed(lines_view(lines@), prefix@, 0) == Some(i as int) && i
                < lines.len() && has_prefix(lines@[i as int]@, prefix@),
            None => first_prefixed(lines_view(lines@), prefix@, 0) is None,
        },
{
    let ghost all = lines_view(lines@);
    let mut i: usize = 0;
    while i < lines.len()
        invariant
            i <= lines.len(),
            all == lines_view(lines@),
            first_prefixed(all, prefix@, 0) == first_prefixed(all, prefix@, i as int),
        decreases lines.len() - i,
    {
        let v = chars_of(lines[i].as_str());
        if starts_with(&v, prefix) {
            return Some(i);
        }
        i += 1;
    }
    None
}

/// The text of `line` after the `skip` characters of its prefix, trimmed.
fn value_of_line(line: &str, prefix: &Vec<char>) -> (r: String)
    requires
        has_prefix(line@, prefix@),
    ensures
        r@ == value_after(line@, prefix@),
{
    let v = chars_of(line);
    trimmed_after(line, &v, prefix.len())
}

/// Gathers `lines` into the frame that they hold.
pub fn frame_of_lines(lines: &[String]) -> (r: Result<Frame, MastodonError>)
    ensures
        framing_agrees(r, frame_spec(lines_view(lines@))),
{
    let event_prefix = chars_of("event:");
    let data_prefix = chars_of("data:");
    match find_prefixed(lines, &event_prefix) {
        Some(i) => {
            let event_name = value_of_line(lines[i].as_str(), &event_prefix);
            let data = match find_prefixed(lines, &data_prefix) {
                Some(j) => Some(value_of_line(lines[j].as_str(), &data_prefix)),
                None => None,
            };
            Ok(Frame { event_name: Some(event_name), data })
        },
        None => {
            if lines.len() == 0 {
                return Err(MastodonError::Other(String::from_str("no line to read a message from")));
            }
            let parsed = parse_json_object(lines[0].as_str());
            frame_of_message(parsed)
        },
    }
}

/// What has to be decoded before `lines` can be.
pub fn wanted_of_lines(lines: &[String]) -> (r: Wanted)
    ensures
        r@ == wanted_lines_spec(lines_view(lines@)),
{
    match frame_of_lines(lines) {
        Ok(frame) => wanted(&frame),
        Err(_) => Wanted::Nothing,
    }
}

/// Decodes the event that `lines` hold, given what decoding the wanted payload
/// gave.
pub fn make_event<S, N>(lines: &[String], entity: Entity<S, N>) -> (r: Result<
    Event<S, N>,
    MastodonError,
>)
    ensures
        agrees(r, make_event_spec(lines_view(lines@), entity)),
{
    match frame_of_lines(lines) {
        Ok(frame) => decode(frame, entity),
        Err(e) => Err(e),
    }
}

/// A source of the messages of a stream, one text per call.
pub trait EventStream {
    /// Reads the next message of the stream.
    fn read_message(&mut self) -> Result<String, MastodonError>;
}

/// What trying the waiting lines came to.
#[derive(Debug)]
pub enum Step<S, N> {
    /// The lines are a frame, and this is its event.
    Decoded(Event<S, N>),
    /// No line was waiting.
    Skipped,
    /// The lines that wait do not decode, for this reason.
    Failed(MastodonError),
}

/// What a read of the stream came to.
#[derive(Debug)]
pub enum Reading {
    /// A line came, and this has to be decoded before the waiting lines can be.
    Line(Wanted),
    /// The message could not be read: the stream is closed.
    Closed,
}

/// How reading on ends.
#[derive(Debug)]
pub enum Next<S, N> {
    /// The lines that were read completed this event.
    Event(Event<S, N>),
    /// The lines that wait want this decoded; `settle` takes the outcome.
    Wanted(Wanted),
    /// A message could not be read: the stream is closed.
    Closed,
    /// As many messages were read as were allowed.
    More,
}

/// Reads the events of a stream: gathers its lines until they decode.
#[derive(Debug)]
pub struct EventReader<R: EventStream> {
    /// The stream that is read.
    pub stream: R,
    /// The lines gathered since the last event.
    pub lines: Vec<String>,
}

/// Whether a trimmed line ends a frame: it is blank, or a comment.
pub open spec fn is_terminator(line: Seq<char>) -> bool {
    line.len() == 0 || line[0] == ':'
}

/// The lines that wait in a reader that held `lines` once `line` came: a
/// comment or a blank line adds nothing, any other line is added trimmed.
pub open spec fn candidate_lines(lines: Seq<Seq<char>>, line: Seq<char>) -> Seq<Seq<char>> {
    if is_terminator(trimmed(line)) {
        lines
    } else {
        lines.push(trimmed(line))
    }
}

/// Whether a reader that held the lines `before` and was handed `entity` may
/// answer `r` and hold the lines `after`. Without a line waiting nothing is
/// tried. Lines that decode are dropped and their event is the answer; lines
/// that do not decode stay.
pub open spec fn settle_agrees<S, N>(
    before: Seq<String>,
    entity: Entity<S, N>,
    after: Seq<String>,
    r: Step<S, N>,
) -> bool {
    if before.len() == 0 {
        r is Skipped && after == before
    } else {
        match make_event_spec(lines_view(before), entity) {
            Outcome::Event(m) => r matches Step::Decoded(e) && e@ == m && after.len() == 0,
            o => r matches Step::Failed(e) && error_agrees(e, o) && after == before,
        }
    }
}

/// Whether a reader that held the lines `before` and was given the outcome
/// `read` of a read may answer `r` and hold the lines `after`. A read that
/// failed closes the stream and leaves the lines; a line that came is added to
/// them, and the answer is what they now want decoded.
pub open spec fn reading_agrees(
    before: Seq<String>,
    read: Result<String, MastodonError>,
    after: Seq<String>,
    r: Reading,
) -> bool {
    match read {
        Err(_) => r is Closed && after == before,
        Ok(line) => lines_view(after) == candidate_lines(lines_view(before), line@) && (r matches Reading::Line(
            w,
        ) && w@ == wanted_lines_spec(lines_view(after))),
    }
}

/// Whether the lines `lines` neither want anything decoded nor are an event.
pub open spec fn is_quiet<S, N>(lines: Seq<Seq<char>>) -> bool {
    wanted_lines_spec(lines) is Nothing && !(lines.len() > 0 && make_event_spec::<S, N>(
        lines,
        Entity::Nothing,
    ) is Event)
}

/// The lines that wait in a reader that held `waiting` after the lines `fed`
/// came one after the other without anything to decode and without an event;
/// `None` where one of them brought either.
pub open spec fn quiet_run<S, N>(waiting: Seq<Seq<char>>, fed: Seq<Seq<char>>) -> Option<
    Seq<Seq<char>>,
>
    decreases fed.len(),
{
    if fed.len() == 0 {
        Some(waiting)
    } else {
        match quiet_run::<S, N>(waiting, fed.drop_last()) {
            None => None,
            Some(held) => {
                let now = candidate_lines(held, fed.last());
                if is_quiet::<S, N>(now) {
                    Some(now)
                } else {
                    None
                }
            },
        }
    }
}

/// Whether a reader that held the lines `before` and read the lines `fed` may
/// answer `r` and hold the lines `after`. Every line but the last came
/// without anything to decode and without an event. An event is what the last
/// line completed, and no line waits after it. Where something is wanted, it
/// is what the lines want once the last line came, and they wait. Otherwise
/// the last line, too, brought neither.
pub open spec fn read_agrees<S, N>(
    before: Seq<String>,
    fed: Seq<Seq<char>>,
    after: Seq<String>,
    r: Next<S, N>,
) -> bool {
    match r {
        Next::Event(e) => fed.len() > 0 && after.len() == 0 && (quiet_run::<S, N>(
            lines_view(before),
            fed.drop_last(),
        ) matches Some(held) && ({
            let now = candidate_lines(held, fed.last());
            &&& now.len() > 0
            &&& wanted_lines_spec(now) is Nothing
            &&& make_event_spec::<S, N>(now, Entity::Nothing) == Outcome::Event(e@)
        })),
        Next::Wanted(w) => fed.len() > 0 && !(w@ is Nothing) && (quiet_run::<S, N>(
            lines_view(before),
            fed.drop_last(),
        ) matches Some(held) && ({
            let now = candidate_lines(held, fed.last());
            &&& wanted_lines_spec(now) == w@
            &&& lines_view(after) == now
        })),
        _ => quiet_run::<S, N>(lines_view(before), fed) == Some(lines_view(after)),
    }
}

impl<R: EventStream> EventReader<R> {
    /// A reader of `stream` that has gathered no line yet.
    pub fn new(stream: R) -> (r: Self)
        ensures
            r.stream == stream,
            r.lines@.len() == 0,
    {
        EventReader { stream, lines: Vec::new() }
    }

    /// Decodes the event that `lines` hold, given what decoding the wanted
    /// payload gave.
    pub fn make_event<S, N>(&self, lines: &[String], entity: Entity<S, N>) -> (r: Result<
        Event<S, N>,
        MastodonError,
    >)
        ensures
            agrees(r, make_event_spec(lines_view(lines@), entity)),
    {
        make_event(lines, entity)
    }

    /// Takes one line of the stream. A line that is a comment or blank, once
    /// trimmed, ends a frame and adds nothing; any other line is added,
    /// trimmed, to the lines that wait. The answer is what has to be decoded
    /// before the waiting lines are tried with `settle`.
    pub fn take_line(&mut self, line: &str) -> (r: Wanted)
        ensures
            final(self).stream == old(self).stream,
            lines_view(final(self).lines@) == candidate_lines(lines_view(old(self).lines@), line@),
            r@ == wanted_lines_spec(lines_view(final(self).lines@)),
    {
        let text = trim(line);
        let chars = chars_of(text.as_str());
        if !(chars.len() == 0 || chars[0] == ':') {
            proof {
                assert(lines_view(self.lines@.push(text)) =~= lines_view(self.lines@).push(text@));
            }
            self.lines.push(text);
        }
        wanted_of_lines(self.lines.as_slice())
    }

    /// Tries the lines that wait, given what decoding the wanted payload gave.
    /// Lines that decode are dropped and their event is handed out; lines that
    /// do not decode stay, so that a frame is complete no sooner than its
    /// entity decodes.
    pub fn settle<S, N>(&mut self, entity: Entity<S, N>) -> (r: Step<S, N>)
        ensures
            final(self).stream == old(self).stream,
            settle_agrees(old(self).lines@, entity, final(self).lines@, r),
    {
        if self.lines.len() == 0 {
            return Step::Skipped;
        }
        match make_event(self.lines.as_slice(), entity) {
            Ok(event) => {
                self.lines.clear();
                Step::Decoded(event)
            },
            Err(e) => Step::Failed(e),
        }
    }

    /// Takes the outcome of a read of the stream. A message that could not be
    /// read closes the stream and leaves the waiting lines as they are. A
    /// message that came is taken as a line.
    pub fn after_read(&mut self, read: Result<String, MastodonError>) -> (r: Reading)
        ensures
            final(self).stream == old(self).stream,
            reading_agrees(old(self).lines@, read, final(self).lines@, r),
    {
        match read {
            Err(_) => Reading::Closed,
            Ok(line) => Reading::Line(self.take_line(line.as_str())),
        }
    }

    /// Reads one message of the stream and takes its outcome. What the stream
    /// hands out is not known beforehand: the answer is what `after_read`
    /// makes of what came.
    pub fn read_step(&mut self) -> (r: Reading)
        ensures
            exists|read: Result<String, MastodonError>| #[trigger]
                reading_agrees(old(self).lines@, read, final(self).lines@, r),
    {
        let read = self.stream.read_message();
        let ghost before = self.lines@;
        let r = self.after_read(read);
        proof {
            assert(reading_agrees(before, read, self.lines@, r));
        }
        r
    }

    /// Reads on, for at most `reads` messages, until an event is complete,
    /// until a payload has to be decoded, or until the stream is closed. The
    /// lines that are read are tried as they come, with nothing decoded. What
    /// the stream hands out is not known beforehand: the answer is what the
    /// lines that came make of the reader, and it is `More` only where as many
    /// lines came as were allowed.
    pub fn next_within<S, N>(&mut self, reads: usize) -> (r: Next<S, N>)
        ensures
            reads == 0 ==> r is More && *final(self) == *old(self),
            exists|fed: Seq<Seq<char>>|
                fed.len() <= reads && (r is More ==> fed.len() == reads) && #[trigger] read_agrees(
                    old(self).lines@,
                    fed,
                    final(self).lines@,
                    r,
                ),
    {
        let ghost start = lines_view(self.lines@);
        let ghost mut fed: Seq<Seq<char>> = Seq::empty();
        let mut done: usize = 0;
        while done < reads
            invariant
                done <= reads,
                done == 0 ==> *self == *old(self),
                start == lines_view(old(self).lines@),
                fed.len() == done,
                quiet_run::<S, N>(start, fed) == Some(lines_view(self.lines@)),
            decreases reads - done,
        {
            done += 1;
            let read = self.stream.read_message();
            let ghost held = self.lines@;
            match self.after_read(read) {
                Reading::Closed => {
                    proof {
                        assert(read_agrees(old(self).lines@, fed, self.lines@, Next::<S, N>::Closed));
                    }
                    return Next::Closed;
                },
                Reading::Line(wanted) => {
                    let ghost line = read->Ok_0@;
                    let ghost longer = fed.push(line);
                    proof {
                        assert(longer.drop_last() =~= fed);
                        assert(longer.last() == line);
                    }
                    match wanted {
                        Wanted::Nothing => {
                            match self.settle(Entity::<S, N>::Nothing) {
                                Step::Decoded(event) => {
                                    let r = Next::Event(event);
                                    proof {
                                        assert(read_agrees(old(self).lines@, longer, self.lines@, r));
                                    }
                                    return r;
                                },
                                _ => {
                                    proof {
                                        fed = longer;
                                    }
                                },
                            }
                        },
                        _ => {
                            let r = Next::<S, N>::Wanted(wanted);
                            proof {
                                assert(read_agrees(old(self).lines@, longer, self.lines@, r));
                            }
                            return r;
                        },
                    }
                },
            }
        }
        proof {
            assert(read_agrees(old(self).lines@, fed, self.lines@, Next::<S, N>::More));
        }
        Next::More
    }

    /// Gives the stream back, and with it whatever the stream holds.
    pub fn into_inner(self) -> (r: R)
        ensures
            r == self.stream,
    {
        self.stream
    }
}

/// The four event names are four different texts, each with its own kind.
pub proof fn lemma_event_names()
    ensures
        kind_of("notification"@) == Some(EventKind::Notification),
        kind_of("update"@) == Some(EventKind::Update),
        kind_of("delete"@) == Some(EventKind::Delete),
        kind_of("filters_changed"@) == Some(EventKind::FiltersChanged),
{
    reveal_strlit("notification");
    reveal_strlit("update");
    reveal_strlit("delete");
    reveal_strlit("filters_changed");
    assert("notification"@.len() == 12);
    assert("update"@.len() == 6);
    assert("delete"@.len() == 6);
    assert("filters_changed"@.len() == 15);
    assert("update"@[0] == 'u');
    assert("delete"@[0] == 'd');
}

/// A line that begins with `event:` does not begin with `data:`.
proof fn lemma_event_line_is_no_data_line(rest: Seq<char>)
    ensures
        has_prefix("event:"@ + rest, "event:"@),
        !has_prefix("event:"@ + rest, "data:"@),
        value_after("event:"@ + rest, "event:"@) == trimmed(rest),
{
    reveal_strlit("event:");
    reveal_strlit("data:");
    let line = "event:"@ + rest;
    assert(line.subrange(0, 6) =~= "event:"@);
    assert(line.skip(6) =~= rest);
    if has_prefix(line, "data:"@) {
        assert(line.subrange(0, 5)[0] == 'e');
        assert("data:"@[0] == 'd');
    }
}

/// A line that begins with `data:` does not begin with `event:`.
proof fn lemma_data_line_is_no_event_line(rest: Seq<char>)
    ensures
        has_prefix("data:"@ + rest, "data:"@),
        !has_prefix("data:"@ + rest, "event:"@),
        value_after("data:"@ + rest, "data:"@) == trimmed(rest),
{
    reveal_strlit("event:");
    reveal_strlit("data:");
    let line = "data:"@ + rest;
    assert(line.subrange(0, 5) =~= "data:"@);
    assert(line.skip(5) =~= rest);
    if has_prefix(line, "event:"@) {
        assert(line.subrange(0, 6)[0] == 'd');
        assert("event:"@[0] == 'e');
    }
}

/// An `event:` line alone holds the frame of its name, trimmed, with no
/// payload.
pub proof fn lemma_event_line_alone(name: Seq<char>)
    ensures
        frame_spec(seq!["event:"@ + name]) == Framing::Frame(
            FrameModel { event_name: Some(trimmed(name)), data: None },
        ),
{
    lemma_event_line_is_no_data_line(name);
    let lines = seq!["event:"@ + name];
    assert(first_prefixed(lines, "data:"@, 1) is None);
    assert(first_prefixed(lines, "data:"@, 0) is None);
}

/// An `event:` line followed by a `data:` line holds the frame of what the two
/// lines say, each trimmed.
pub proof fn lemma_event_and_data_lines(name: Seq<char>, payload: Seq<char>)
    ensures
        frame_spec(seq!["event:"@ + name, "data:"@ + payload]) == Framing::Frame(
            FrameModel { event_name: Some(trimmed(name)), data: Some(trimmed(payload)) },
        ),
{
    lemma_event_line_is_no_data_line(name);
    lemma_data_line_is_no_event_line(payload);
    let lines = seq!["event:"@ + name, "data:"@ + payload];
    assert(first_prefixed(lines, "data:"@, 1) == Some(1int));
    assert(first_prefixed(lines, "data:"@, 0) == Some(1int));
}

/// A frame named `filters_changed` decodes to that event, with a payload or
/// without one, and whatever was decoded; nothing is wanted for it.
pub proof fn lemma_filters_changed_needs_no_data<S, N>(data: Option<Seq<char>>, entity: Entity<S, N>)
    ensures
        decode_spec(FrameModel { event_name: Some("filters_changed"@), data }, entity)
            == Outcome::<S, N>::Event(EventModel::FiltersChanged),
        make_event_spec(seq!["event:"@ + "filters_changed"@], entity) == Outcome::<S, N>::Event(
            EventModel::FiltersChanged,
        ),
        wanted_lines_spec(seq!["event:"@ + "filters_changed"@]) is Nothing,
{
    lemma_event_names();
    lemma_event_line_alone("filters_changed"@);
    reveal_strlit("filters_changed");
    assert("filters_changed"@.len() == 15);
    assert("filters_changed"@[0] == 'f');
    assert("filters_changed"@[14] == 'd');
    lemma_bare_word("filters_changed"@);
}

/// A text that neither begins nor ends with whitespace is its own trimming.
pub proof fn lemma_bare_word(word: Seq<char>)
    requires
        word.len() > 0 ==> !crate::text::is_space(word[0]) && !crate::text::is_space(word.last()),
    ensures
        trimmed(word) == word,
{
    if word.len() == 0 {
        assert(trimmed(word) =~= word);
    } else {
        crate::text::lemma_trim_start_index(word, 0);
        crate::text::lemma_trim_end_index(word, word.len() as int);
        assert(trimmed(word) =~= word);
    }
}

/// A frame whose event needs a payload and that has none fails for want of
/// data, whatever was decoded: so for `update`, `notification` and `delete`.
pub proof fn lemma_missing_data<S, N>(name: Seq<char>, entity: Entity<S, N>)
    requires
        kind_of(trimmed(name)) is Some,
        kind_of(trimmed(name)) != Some(EventKind::FiltersChanged),
    ensures
        decode_spec(FrameModel { event_name: Some(trimmed(name)), data: None }, entity)
            == Outcome::<S, N>::MissingData,
        make_event_spec(seq!["event:"@ + name], entity) == Outcome::<S, N>::MissingData,
{
    lemma_event_line_alone(name);
}

/// A frame whose name is none of the four fails as unknown, whatever was
/// decoded, and the failure carries that name.
pub proof fn lemma_unknown_event<S, N>(name: Seq<char>, data: Option<Seq<char>>, entity: Entity<S, N>)
    requires
        kind_of(trimmed(name)) is None,
    ensures
        decode_spec(FrameModel { event_name: Some(trimmed(name)), data }, entity) == Outcome::<
            S,
            N,
        >::UnknownEvent(trimmed(name)),
        make_event_spec(seq!["event:"@ + name], entity) == Outcome::<S, N>::UnknownEvent(
            trimmed(name),
        ),
{
    lemma_event_line_alone(name);
}

/// The payload of an `update` is what is wanted decoded as a status, character
/// for character once trimmed; and the status that it decodes to is the status
/// of the event. Where it does not decode, the error of the decoding is the
/// failure.
pub proof fn lemma_update_round_trip<S, N>(
    name: Seq<char>,
    payload: Seq<char>,
    decoded: Result<S, serde_json::Error>,
)
    requires
        trimmed(name) == "update"@,
    ensures
        wanted_lines_spec(seq!["event:"@ + name, "data:"@ + payload]) == WantedModel::Status(
            trimmed(payload),
        ),
        make_event_spec::<S, N>(
            seq!["event:"@ + name, "data:"@ + payload],
            Entity::Status(decoded),
        ) == match decoded {
            Ok(status) => Outcome::<S, N>::Event(EventModel::Update(status)),
            Err(e) => Outcome::<S, N>::Undecodable(e),
        },
{
    lemma_event_names();
    lemma_event_and_data_lines(name, payload);
}

/// A JSON message whose `event` is `delete` and whose `payload` is a text
/// decodes to the deletion of the status with that id, whatever was decoded.
pub proof fn lemma_json_delete<S, N>(
    line: Seq<char>,
    members: Seq<MemberModel>,
    id: Seq<char>,
    entity: Entity<S, N>,
)
    requires
        !has_prefix(line, "event:"@),
        json_object(line) == Some(members),
        field_of(members, "event"@) == Some(FieldModel::Text("delete"@)),
        field_of(members, "payload"@) == Some(FieldModel::Text(id)),
    ensures
        make_event_spec(seq![line], entity) == Outcome::<S, N>::Event(EventModel::Delete(id)),
        wanted_lines_spec(seq![line]) is Nothing,
{
    lemma_event_names();
    let lines = seq![line];
    assert(first_prefixed(lines, "event:"@, 1) is None);
    assert(first_prefixed(lines, "event:"@, 0) is None);
}

} // verus!
