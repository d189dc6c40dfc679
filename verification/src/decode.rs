//! Decoding the documents that the provider posts into events.
//!
//! A document is read by the names of its entries. Entries that this
//! library does not know are passed over; an entry that it needs and does
//! not find, or finds with a value of another kind, makes the whole
//! document undecodable.

use crate::event::{
    text_view, viewed, Activity, ActivityView, DomainEvent, DomainEventView, Duration,
    DurationView, Note, NoteView, Tag, TagView, TimeEntry, TimeEntryView, Tracking, TrackingView,
    tag_views,
};
use crate::json::{lookup_passes_over_other_names, Json, JsonValue};
use vstd::prelude::*;

verus! {

/// Why a webhook call could not be decoded.
#[derive(Clone, Copy, Debug, PartialEq, Eq, Structural)]
pub enum DecodeError {
    /// The body is not a JSON document.
    NotJson,
    /// The document lacks an entry that the event needs, or holds one of the
    /// wrong kind.
    WrongShape,
}

/// The text in the entry `name` of `doc`.
pub open spec fn text_in(doc: JsonValue, name: Seq<char>) -> Option<Seq<char>> {
    match doc.member(name) {
        Some(JsonValue::Text(t)) => Some(t),
        _ => None,
    }
}

/// The integer in the entry `name` of `doc`.
pub open spec fn integer_in(doc: JsonValue, name: Seq<char>) -> Option<i64> {
    match doc.member(name) {
        Some(JsonValue::Number(Some(n))) => Some(n),
        _ => None,
    }
}

/// The text in the entry `name` of `doc`, where the entry may be missing or
/// null: the outer `None` stands for an entry of another kind.
pub open spec fn optional_text_in(doc: JsonValue, name: Seq<char>) -> Option<Option<Seq<char>>> {
    match doc.member(name) {
        None => Some(None),
        Some(JsonValue::Null) => Some(None),
        Some(JsonValue::Text(t)) => Some(Some(t)),
        Some(_) => None,
    }
}

/// The integer in the entry `name` of `doc`, where the entry may be missing
/// or null: the outer `None` stands for an entry of another kind.
pub open spec fn optional_integer_in(doc: JsonValue, name: Seq<char>) -> Option<Option<i64>> {
    match doc.member(name) {
        None => Some(None),
        Some(JsonValue::Null) => Some(None),
        Some(JsonValue::Number(Some(n))) => Some(Some(n)),
        Some(_) => None,
    }
}

/// The tag that `doc` describes.
pub open spec fn tag_of(doc: JsonValue) -> Option<TagView> {
    match (
        integer_in(doc, "id"@),
        text_in(doc, "key"@),
        text_in(doc, "label"@),
        text_in(doc, "scope"@),
        text_in(doc, "spaceId"@),
    ) {
        (Some(id), Some(key), Some(label), Some(scope), Some(space_id)) => Some(
            TagView { id, key, label, scope, space_id },
        ),
        _ => None,
    }
}

/// The tags that the array `doc` lists, in its order.
pub open spec fn tags_of(doc: JsonValue) -> Option<Seq<TagView>> {
    match doc {
        JsonValue::Array(items) => if forall|i: int|
            0 <= i < items.len() ==> (#[trigger] tag_of(items[i])) is Some {
            Some(Seq::new(items.len(), |i: int| tag_of(items[i]).unwrap()))
        } else {
            None
        },
        _ => None,
    }
}

/// The tags listed in the entry `name` of `doc`.
pub open spec fn tags_in(doc: JsonValue, name: Seq<char>) -> Option<Seq<TagView>> {
    match doc.member(name) {
        Some(list) => tags_of(list),
        None => None,
    }
}

/// The note that `doc` describes.
pub open spec fn note_of(doc: JsonValue) -> Option<NoteView> {
    match (optional_text_in(doc, "text"@), tags_in(doc, "tags"@), tags_in(doc, "mentions"@)) {
        (Some(text), Some(tags), Some(mentions)) => Some(NoteView { text, tags, mentions }),
        _ => None,
    }
}

/// The activity that `doc` describes.
pub open spec fn activity_of(doc: JsonValue) -> Option<ActivityView> {
    match (
        text_in(doc, "id"@),
        text_in(doc, "name"@),
        text_in(doc, "color"@),
        text_in(doc, "integration"@),
        text_in(doc, "spaceId"@),
        optional_integer_in(doc, "deviceSide"@),
    ) {
        (
            Some(id),
            Some(name),
            Some(color),
            Some(integration_id),
            Some(space_id),
            Some(device_side_index),
        ) => Some(
            ActivityView { id, name, color, integration_id, space_id, device_side_index },
        ),
        _ => None,
    }
}

/// The activity described in the entry `name` of `doc`.
pub open spec fn activity_in(doc: JsonValue, name: Seq<char>) -> Option<ActivityView> {
    match doc.member(name) {
        Some(inner) => activity_of(inner),
        None => None,
    }
}

/// The note described in the entry `name` of `doc`.
pub open spec fn note_in(doc: JsonValue, name: Seq<char>) -> Option<NoteView> {
    match doc.member(name) {
        Some(inner) => note_of(inner),
        None => None,
    }
}

/// The running tracking that `doc` describes.
pub open spec fn tracking_of(doc: JsonValue) -> Option<TrackingView> {
    match (
        integer_in(doc, "id"@),
        activity_in(doc, "activity"@),
        text_in(doc, "startedAt"@),
        note_in(doc, "note"@),
    ) {
        (Some(id), Some(activity), Some(started_at), Some(note)) => Some(
            TrackingView { id, activity, started_at, note },
        ),
        _ => None,
    }
}

/// The two ends of time that `doc` describes.
pub open spec fn duration_of(doc: JsonValue) -> Option<DurationView> {
    match (text_in(doc, "startedAt"@), text_in(doc, "stoppedAt"@)) {
        (Some(started_at), Some(stopped_at)) => Some(DurationView { started_at, stopped_at }),
        _ => None,
    }
}

/// The time entry that `doc` describes.
pub open spec fn time_entry_of(doc: JsonValue) -> Option<TimeEntryView> {
    match (
        text_in(doc, "id"@),
        activity_in(doc, "activity"@),
        match doc.member("duration"@) {
            Some(inner) => duration_of(inner),
            None => None,
        },
        note_in(doc, "note"@),
    ) {
        (Some(id), Some(activity), Some(duration), Some(note)) => Some(
            TimeEntryView { id, activity, duration, note },
        ),
        _ => None,
    }
}

/// The event that a call to the started-tracking route reports: the
/// document names the user in `userId` and the tracking in `currentTracking`
/// of `data`.
pub open spec fn started_of(doc: JsonValue) -> Option<DomainEventView> {
    match (
        text_in(doc, "userId"@),
        match doc.member("data"@) {
            Some(data) => match data.member("currentTracking"@) {
                Some(inner) => tracking_of(inner),
                None => None,
            },
            None => None,
        },
    ) {
        (Some(user_id), Some(tracking)) => Some(
            DomainEventView::TrackingStarted { user_id, tracking },
        ),
        _ => None,
    }
}

/// The time entry in `data` of a stopped-tracking document: `data` is an
/// object, and its `newTimeEntry` may be missing or null. The outer `None`
/// stands for a document that cannot be decoded.
pub open spec fn stopped_entry_of(data: JsonValue) -> Option<Option<TimeEntryView>> {
    if data is Object {
        match data.member("newTimeEntry"@) {
            None => Some(None),
            Some(JsonValue::Null) => Some(None),
            Some(inner) => match time_entry_of(inner) {
                Some(entry) => Some(Some(entry)),
                None => None,
            },
        }
    } else {
        None
    }
}

/// The event that a call to the stopped-tracking route reports: the
/// document names the user in `userId` and may hold the time entry that the
/// tracking left in `newTimeEntry` of `data`.
pub open spec fn stopped_of(doc: JsonValue) -> Option<DomainEventView> {
    match (
        text_in(doc, "userId"@),
        match doc.member("data"@) {
            Some(data) => stopped_entry_of(data),
            None => None,
        },
    ) {
        (Some(user_id), Some(time_entry)) => Some(
            DomainEventView::TrackingStopped { user_id, time_entry },
        ),
        _ => None,
    }
}

/// The text in the entry `name` of `doc`.
pub fn read_text(doc: &Json, name: &str) -> (r: Option<String>)
    ensures
        text_view(r) == text_in(doc@, name@),
{
    match doc.member(name) {
        Some(Json::Text(t)) => Some(t.clone()),
        _ => None,
    }
}

/// The integer in the entry `name` of `doc`.
pub fn read_integer(doc: &Json, name: &str) -> (r: Option<i64>)
    ensures
        r == integer_in(doc@, name@),
{
    match doc.member(name) {
        Some(Json::Number(Some(n))) => Some(*n),
        _ => None,
    }
}

/// The text in the entry `name` of `doc`, which may be missing or null.
pub fn read_optional_text(doc: &Json, name: &str) -> (r: Option<Option<String>>)
    ensures
        r is Some <==> optional_text_in(doc@, name@) is Some,
        r matches Some(t) ==> optional_text_in(doc@, name@) == Some(text_view(t)),
{
    match doc.member(name) {
        None => Some(None),
        Some(Json::Null) => Some(None),
        Some(Json::Text(t)) => Some(Some(t.clone())),
        Some(_) => None,
    }
}

/// The integer in the entry `name` of `doc`, which may be missing or null.
pub fn read_optional_integer(doc: &Json, name: &str) -> (r: Option<Option<i64>>)
    ensures
        r == optional_integer_in(doc@, name@),
{
    match doc.member(name) {
        None => Some(None),
        Some(Json::Null) => Some(None),
        Some(Json::Number(Some(n))) => Some(Some(*n)),
        Some(_) => None,
    }
}

/// Decodes one tag or mention.
pub fn decode_tag(doc: &Json) -> (r: Option<Tag>)
    ensures
        viewed(r) == tag_of(doc@),
{
    let id = read_integer(doc, "id");
    let key = read_text(doc, "key");
    let label = read_text(doc, "label");
    let scope = read_text(doc, "scope");
    let space_id = read_text(doc, "spaceId");
    match (id, key, label, scope, space_id) {
        (Some(id), Some(key), Some(label), Some(scope), Some(space_id)) => Some(
            Tag { id, key, label, scope, space_id },
        ),
        _ => None,
    }
}

/// Decodes an array of tags or mentions.
pub fn decode_tags(doc: &Json) -> (r: Option<Vec<Tag>>)
    ensures
        r is Some <==> tags_of(doc@) is Some,
        r matches Some(tags) ==> tags_of(doc@) == Some(tag_views(tags@)),
{
    match doc {
        Json::Array(items) => {
            let ghost values = doc@->Array_0;
            let mut tags: Vec<Tag> = Vec::new();
            let mut i: usize = 0;
            while i < items.len()
                invariant
                    i <= items.len(),
                    doc@ == JsonValue::Array(values),
                    values.len() == items@.len(),
                    forall|k: int| 0 <= k < items@.len() ==> #[trigger] values[k] == items@[k]@,
                    tags@.len() == i,
                    forall|k: int| 0 <= k < i ==> tag_of(#[trigger] values[k]) == Some(tags@[k]@),
                decreases items.len() - i,
            {
                match decode_tag(&items[i]) {
                    Some(tag) => {
                        tags.push(tag);
                    },
                    None => {
                        assert(tag_of(values[i as int]) is None);
                        return None;
                    },
                }
                i += 1;
            }
            assert(tags_of(doc@).unwrap() =~= tag_views(tags@));
            Some(tags)
        },
        _ => None,
    }
}

/// The tags listed in the entry `name` of `doc`.
fn read_tags(doc: &Json, name: &str) -> (r: Option<Vec<Tag>>)
    ensures
        r is Some <==> tags_in(doc@, name@) is Some,
        r matches Some(tags) ==> tags_in(doc@, name@) == Some(tag_views(tags@)),
{
    match doc.member(name) {
        Some(list) => decode_tags(list),
        None => None,
    }
}

/// Decodes a note.
pub fn decode_note(doc: &Json) -> (r: Option<Note>)
    ensures
        viewed(r) == note_of(doc@),
{
    let text = read_optional_text(doc, "text");
    let tags = read_tags(doc, "tags");
    let mentions = read_tags(doc, "mentions");
    match (text, tags, mentions) {
        (Some(text), Some(tags), Some(mentions)) => Some(Note { text, tags, mentions }),
        _ => None,
    }
}

/// Decodes an activity.
pub fn decode_activity(doc: &Json) -> (r: Option<Activity>)
    ensures
        viewed(r) == activity_of(doc@),
{
    let id = read_text(doc, "id");
    let name = read_text(doc, "name");
    let color = read_text(doc, "color");
    let integration_id = read_text(doc, "integration");
    let space_id = read_text(doc, "spaceId");
    let device_side_index = read_optional_integer(doc, "deviceSide");
    match (id, name, color, integration_id, space_id, device_side_index) {
        (
            Some(id),
            Some(name),
            Some(color),
            Some(integration_id),
            Some(space_id),
            Some(device_side_index),
        ) => Some(Activity { id, name, color, integration_id, space_id, device_side_index }),
        _ => None,
    }
}

/// The activity described in the entry `name` of `doc`.
fn read_activity(doc: &Json, name: &str) -> (r: Option<Activity>)
    ensures
        viewed(r) == activity_in(doc@, name@),
{
    match doc.member(name) {
        Some(inner) => decode_activity(inner),
        None => None,
    }
}

/// The note described in the entry `name` of `doc`.
fn read_note(doc: &Json, name: &str) -> (r: Option<Note>)
    ensures
        viewed(r) == note_in(doc@, name@),
{
    match doc.member(name) {
        Some(inner) => decode_note(inner),
        None => None,
    }
}

/// Decodes a running tracking.
pub fn decode_tracking(doc: &Json) -> (r: Option<Tracking>)
    ensures
        viewed(r) == tracking_of(doc@),
{
    let id = read_integer(doc, "id");
    let activity = read_activity(doc, "activity");
    let started_at = read_text(doc, "startedAt");
    let note = read_note(doc, "note");
    match (id, activity, started_at, note) {
        (Some(id), Some(activity), Some(started_at), Some(note)) => Some(
            Tracking { id, activity, started_at, note },
        ),
        _ => None,
    }
}

/// Decodes the two ends of a stretch of time.
pub fn decode_duration(doc: &Json) -> (r: Option<Duration>)
    ensures
        viewed(r) == duration_of(doc@),
{
    let started_at = read_text(doc, "startedAt");
    let stopped_at = read_text(doc, "stoppedAt");
    match (started_at, stopped_at) {
        (Some(started_at), Some(stopped_at)) => Some(Duration { started_at, stopped_at }),
        _ => None,
    }
}

/// Decodes a time entry.
pub fn decode_time_entry(doc: &Json) -> (r: Option<TimeEntry>)
    ensures
        viewed(r) == time_entry_of(doc@),
{
    let id = read_text(doc, "id");
    let activity = read_activity(doc, "activity");
    let duration = match doc.member("duration") {
        Some(inner) => decode_duration(inner),
        None => None,
    };
    let note = read_note(doc, "note");
    match (id, activity, duration, note) {
        (Some(id), Some(activity), Some(duration), Some(note)) => Some(
            TimeEntry { id, activity, duration, note },
        ),
        _ => None,
    }
}

/// What decoding owes for a document whose event, if it has one, is `event`.
pub open spec fn decoded(event: Option<DomainEventView>) -> Result<DomainEventView, DecodeError> {
    match event {
        Some(e) => Ok(e),
        None => Err(DecodeError::WrongShape),
    }
}

/// The view of the outcome of decoding.
pub open spec fn outcome_view(r: Result<DomainEvent, DecodeError>) -> Result<
    DomainEventView,
    DecodeError,
> {
    match r {
        Ok(event) => Ok(event@),
        Err(e) => Err(e),
    }
}

/// Decodes the document of a call to the started-tracking route.
pub fn decode_started(doc: &Json) -> (r: Result<DomainEvent, DecodeError>)
    ensures
        outcome_view(r) == decoded(started_of(doc@)),
{
    let user_id = read_text(doc, "userId");
    let tracking = match doc.member("data") {
        Some(data) => match data.member("currentTracking") {
            Some(inner) => decode_tracking(inner),
            None => None,
        },
        None => None,
    };
    match (user_id, tracking) {
        (Some(user_id), Some(tracking)) => Ok(DomainEvent::TrackingStarted { user_id, tracking }),
        _ => Err(DecodeError::WrongShape),
    }
}

/// The time entry in `data` of a stopped-tracking document.
fn read_stopped_entry(data: &Json) -> (r: Option<Option<TimeEntry>>)
    ensures
        r is Some <==> stopped_entry_of(data@) is Some,
        r matches Some(entry) ==> stopped_entry_of(data@) == Some(viewed(entry)),
{
    match data {
        Json::Object(_) => match data.member("newTimeEntry") {
            None => Some(None),
            Some(Json::Null) => Some(None),
            Some(inner) => match decode_time_entry(inner) {
                Some(entry) => Some(Some(entry)),
                None => None,
            },
        },
        _ => None,
    }
}

/// Decodes the document of a call to the stopped-tracking route.
pub fn decode_stopped(doc: &Json) -> (r: Result<DomainEvent, DecodeError>)
    ensures
        outcome_view(r) == decoded(stopped_of(doc@)),
{
    let user_id = read_text(doc, "userId");
    let time_entry = match doc.member("data") {
        Some(data) => read_stopped_entry(data),
        None => None,
    };
    match (user_id, time_entry) {
        (Some(user_id), Some(time_entry)) => Ok(
            DomainEvent::TrackingStopped { user_id, time_entry },
        ),
        _ => Err(DecodeError::WrongShape),
    }
}

/// Entries that an event does not need are passed over: a document with
/// one more entry, wherever it stands, decodes as the document without it,
/// unless the entry is named like one that the event is read from.
pub proof fn unknown_entry_is_passed_over(
    entries: Seq<(Seq<char>, JsonValue)>,
    at: int,
    extra: (Seq<char>, JsonValue),
)
    requires
        0 <= at <= entries.len(),
        extra.0 != "userId"@,
        extra.0 != "data"@,
    ensures
        started_of(JsonValue::Object(entries.insert(at, extra))) == started_of(
            JsonValue::Object(entries),
        ),
        stopped_of(JsonValue::Object(entries.insert(at, extra))) == stopped_of(
            JsonValue::Object(entries),
        ),
{
    lookup_passes_over_other_names(entries, at, extra, "userId"@);
    lookup_passes_over_other_names(entries, at, extra, "data"@);
}

} // verus!
