//! Domain data: discovered items and the events published on the bus.

use vstd::prelude::*;

verus! {

/// Mathematical model of a discovered item: three character sequences.
pub struct SourceModel {
    pub url: Seq<char>,
    pub topic: Seq<char>,
    pub description: Seq<char>,
}

/// A discovered item. Immutable once created; identified by its URL
/// within a session.
#[derive(Debug)]
pub struct Source {
    pub url: String,
    pub topic: String,
    pub description: String,
}

impl View for Source {
    type V = SourceModel;

    open spec fn view(&self) -> SourceModel {
        SourceModel { url: self.url@, topic: self.topic@, description: self.description@ }
    }
}

impl Clone for Source {
    fn clone(&self) -> (r: Self)
        ensures
            r@ == self@,
    {
        Source {
            url: self.url.clone(),
            topic: self.topic.clone(),
            description: self.description.clone(),
        }
    }
}

/// Mathematical model of one bus event.
pub enum EventModel {
    Log { time: Seq<char>, msg: Seq<char>, level: Seq<char> },
    Found(SourceModel),
    Status { running: bool, count: u32, target: u32, has_custom_topics: bool },
}

/// One event on the bus: an advisory log line, a newly accepted item,
/// or a snapshot of the session's progress.
#[derive(Debug)]
pub enum AppEvent {
    Log { time: String, msg: String, level: String },
    Found(Source),
    Status { running: bool, count: u32, target: u32, has_custom_topics: bool },
}

impl View for AppEvent {
    type V = EventModel;

    open spec fn view(&self) -> EventModel {
        match self {
            AppEvent::Log { time, msg, level } => EventModel::Log {
                time: time@,
                msg: msg@,
                level: level@,
            },
            AppEvent::Found(s) => EventModel::Found(s@),
            AppEvent::Status { running, count, target, has_custom_topics } => EventModel::Status {
                running: *running,
                count: *count,
                target: *target,
                has_custom_topics: *has_custom_topics,
            },
        }
    }
}

impl Clone for AppEvent {
    fn clone(&self) -> (r: Self)
        ensures
            r@ == self@,
    {
        match self {
            AppEvent::Log { time, msg, level } => AppEvent::Log {
                time: time.clone(),
                msg: msg.clone(),
                level: level.clone(),
            },
            AppEvent::Found(s) => AppEvent::Found(s.clone()),
            AppEvent::Status { running, count, target, has_custom_topics } => AppEvent::Status {
                running: *running,
                count: *count,
                target: *target,
                has_custom_topics: *has_custom_topics,
            },
        }
    }
}

} // verus!
