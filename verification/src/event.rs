//! The events that the provider reports, and what they are made of.

use vstd::prelude::*;

verus! {

/// The view of an optional text.
pub open spec fn text_view(text: Option<String>) -> Option<Seq<char>> {
    match text {
        Some(s) => Some(s@),
        None => None,
    }
}

/// The view of an optional value.
pub open spec fn viewed<T: View>(value: Option<T>) -> Option<T::V> {
    match value {
        Some(v) => Some(v@),
        None => None,
    }
}

/// A tag or a mention inside a note.
#[derive(Clone, Debug, PartialEq, Eq)]
pub struct Tag {
    pub id: i64,
    pub key: String,
    pub label: String,
    pub scope: String,
    pub space_id: String,
}

pub struct TagView {
    pub id: i64,
    pub key: Seq<char>,
    pub label: Seq<char>,
    pub scope: Seq<char>,
    pub space_id: Seq<char>,
}

impl View for Tag {
    type V = TagView;

    open spec fn view(&self) -> TagView {
        TagView {
            id: self.id,
            key: self.key@,
            label: self.label@,
            scope: self.scope@,
            space_id: self.space_id@,
        }
    }
}

/// The views of `tags`, in their order.
pub open spec fn tag_views(tags: Seq<Tag>) -> Seq<TagView> {
    Seq::new(tags.len(), |i: int| tags[i]@)
}

/// What the user wrote about a stretch of time.
#[derive(Clone, Debug, PartialEq, Eq)]
pub struct Note {
    /// `None` where the provider sent no text, which differs from empty text.
    pub text: Option<String>,
    pub tags: Vec<Tag>,
    pub mentions: Vec<Tag>,
}

pub struct NoteView {
    pub text: Option<Seq<char>>,
    pub tags: Seq<TagView>,
    pub mentions: Seq<TagView>,
}

impl View for Note {
    type V = NoteView;

    open spec fn view(&self) -> NoteView {
        NoteView {
            text: text_view(self.text),
            tags: tag_views(self.tags@),
            mentions: tag_views(self.mentions@),
        }
    }
}

/// The activity that time is tracked for.
#[derive(Clone, Debug, PartialEq, Eq)]
pub struct Activity {
    pub id: String,
    pub name: String,
    pub color: String,
    pub integration_id: String,
    pub space_id: String,
    /// The side of the tracking device that stands for the activity, if one does.
    pub device_side_index: Option<i64>,
}

pub struct ActivityView {
    pub id: Seq<char>,
    pub name: Seq<char>,
    pub color: Seq<char>,
    pub integration_id: Seq<char>,
    pub space_id: Seq<char>,
    pub device_side_index: Option<i64>,
}

impl View for Activity {
    type V = ActivityView;

    open spec fn view(&self) -> ActivityView {
        ActivityView {
            id: self.id@,
            name: self.name@,
            color: self.color@,
            integration_id: self.integration_id@,
            space_id: self.space_id@,
            device_side_index: self.device_side_index,
        }
    }
}

/// A tracking that is running.
#[derive(Clone, Debug, PartialEq, Eq)]
pub struct Tracking {
    pub id: i64,
    pub activity: Activity,
    /// The moment it started, as the provider wrote it.
    pub started_at: String,
    pub note: Note,
}

pub struct TrackingView {
    pub id: i64,
    pub activity: ActivityView,
    pub started_at: Seq<char>,
    pub note: NoteView,
}

impl View for Tracking {
    type V = TrackingView;

    open spec fn view(&self) -> TrackingView {
        TrackingView {
            id: self.id,
            activity: self.activity@,
            started_at: self.started_at@,
            note: self.note@,
        }
    }
}

/// The two ends of a finished stretch of time, as the provider wrote them.
#[derive(Clone, Debug, PartialEq, Eq)]
pub struct Duration {
    pub started_at: String,
    pub stopped_at: String,
}

pub struct DurationView {
    pub started_at: Seq<char>,
    pub stopped_at: Seq<char>,
}

impl View for Duration {
    type V = DurationView;

    open spec fn view(&self) -> DurationView {
        DurationView { started_at: self.started_at@, stopped_at: self.stopped_at@ }
    }
}

/// A finished stretch of tracked time.
#[derive(Clone, Debug, PartialEq, Eq)]
pub struct TimeEntry {
    pub id: String,
    pub activity: Activity,
    pub duration: Duration,
    pub note: Note,
}

pub struct TimeEntryView {
    pub id: Seq<char>,
    pub activity: ActivityView,
    pub duration: DurationView,
    pub note: NoteView,
}

impl View for TimeEntry {
    type V = TimeEntryView;

    open spec fn view(&self) -> TimeEntryView {
        TimeEntryView {
            id: self.id@,
            activity: self.activity@,
            duration: self.duration@,
            note: self.note@,
        }
    }
}

/// What a webhook call reports.
#[derive(Clone, Debug, PartialEq, Eq)]
pub enum DomainEvent {
    TrackingStarted { user_id: String, tracking: Tracking },
    /// The time entry is `None` where the tracking left none behind.
    TrackingStopped { user_id: String, time_entry: Option<TimeEntry> },
}

pub enum DomainEventView {
    TrackingStarted { user_id: Seq<char>, tracking: TrackingView },
    TrackingStopped { user_id: Seq<char>, time_entry: Option<TimeEntryView> },
}

impl View for DomainEvent {
    type V = DomainEventView;

    open spec fn view(&self) -> DomainEventView {
        match self {
            DomainEvent::TrackingStarted { user_id, tracking } => DomainEventView::TrackingStarted {
                user_id: user_id@,
                tracking: tracking@,
            },
            DomainEvent::TrackingStopped { user_id, time_entry } => DomainEventView::TrackingStopped {
                user_id: user_id@,
                time_entry: viewed(*time_entry),
            },
        }
    }
}

} // verus!
