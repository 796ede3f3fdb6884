//! The row-change events handed to the consumer.

use vstd::prelude::*;
use crate::row::{fields_view, Field};
use crate::value::ValueView;

verus! {

/// The kind of a row change.
#[derive(Clone, Copy, Debug, PartialEq, Eq, Structural)]
pub enum EventType {
    Insert,
    Update,
    Delete,
}

impl EventType {
    pub open spec fn name_spec(&self) -> Seq<char> {
        match self {
            EventType::Insert => seq!['I', 'N', 'S', 'E', 'R', 'T'],
            EventType::Update => seq!['U', 'P', 'D', 'A', 'T', 'E'],
            EventType::Delete => seq!['D', 'E', 'L', 'E', 'T', 'E'],
        }
    }

    /// The kind's tag: `INSERT`, `UPDATE` or `DELETE`.
    pub fn name(&self) -> (r: &'static str)
        ensures
            r@ == self.name_spec(),
    {
        proof {
            reveal_strlit("INSERT");
            reveal_strlit("UPDATE");
            reveal_strlit("DELETE");
        }
        match self {
            EventType::Insert => "INSERT",
            EventType::Update => "UPDATE",
            EventType::Delete => "DELETE",
        }
    }
}

/// A row image: each column's name and value.
pub type RowImage = Vec<Field>;

/// A row was inserted.
#[derive(Clone, Debug, PartialEq)]
pub struct InsertEvent {
    pub timestamp: i64,
    pub checkpoint: String,
    pub schema: String,
    pub table: String,
    pub after: RowImage,
}

/// A row was updated.
#[derive(Clone, Debug, PartialEq)]
pub struct UpdateEvent {
    pub timestamp: i64,
    pub checkpoint: String,
    pub schema: String,
    pub table: String,
    pub before: RowImage,
    pub after: RowImage,
}

/// A row was deleted.
#[derive(Clone, Debug, PartialEq)]
pub struct DeleteEvent {
    pub timestamp: i64,
    pub checkpoint: String,
    pub schema: String,
    pub table: String,
    pub before: RowImage,
}

/// An event as the consumer receives it.
#[derive(Clone, Debug, PartialEq)]
pub enum EmittedEvent {
    Insert(InsertEvent),
    Update(UpdateEvent),
    Delete(DeleteEvent),
}

/// What an emitted event stands for.
pub struct EventView {
    pub kind: EventType,
    pub timestamp: i64,
    pub checkpoint: Seq<char>,
    pub schema: Seq<char>,
    pub table: Seq<char>,
    pub before: Option<Seq<(Seq<char>, ValueView)>>,
    pub after: Option<Seq<(Seq<char>, ValueView)>>,
}

impl View for EmittedEvent {
    type V = EventView;

    open spec fn view(&self) -> EventView {
        match self {
            EmittedEvent::Insert(e) => EventView {
                kind: EventType::Insert,
                timestamp: e.timestamp,
                checkpoint: e.checkpoint@,
                schema: e.schema@,
                table: e.table@,
                before: None,
                after: Some(fields_view(e.after@)),
            },
            EmittedEvent::Update(e) => EventView {
                kind: EventType::Update,
                timestamp: e.timestamp,
                checkpoint: e.checkpoint@,
                schema: e.schema@,
                table: e.table@,
                before: Some(fields_view(e.before@)),
                after: Some(fields_view(e.after@)),
            },
            EmittedEvent::Delete(e) => EventView {
                kind: EventType::Delete,
                timestamp: e.timestamp,
                checkpoint: e.checkpoint@,
                schema: e.schema@,
                table: e.table@,
                before: Some(fields_view(e.before@)),
                after: None,
            },
        }
    }
}

/// Whether the images that `e` carries fit its kind: an insert has only the
/// row after, a delete only the row before, an update both.
pub open spec fn images_fit_kind(e: EventView) -> bool {
    match e.kind {
        EventType::Insert => e.before is None && e.after is Some,
        EventType::Delete => e.before is Some && e.after is None,
        EventType::Update => e.before is Some && e.after is Some,
    }
}

/// Every event carries the row images that its kind calls for.
pub proof fn lemma_images_fit_kind(e: EmittedEvent)
    ensures
        images_fit_kind(e@),
{
}

impl EmittedEvent {
    /// The kind of change.
    pub fn event_type(&self) -> (r: EventType)
        ensures
            r == self@.kind,
    {
        match self {
            EmittedEvent::Insert(_) => EventType::Insert,
            EmittedEvent::Update(_) => EventType::Update,
            EmittedEvent::Delete(_) => EventType::Delete,
        }
    }

    /// Seconds since the epoch, from the binlog event header.
    pub fn timestamp(&self) -> (r: i64)
        ensures
            r == self@.timestamp,
    {
        match self {
            EmittedEvent::Insert(e) => e.timestamp,
            EmittedEvent::Update(e) => e.timestamp,
            EmittedEvent::Delete(e) => e.timestamp,
        }
    }

    /// The checkpoint to resume after this event.
    pub fn checkpoint(&self) -> (r: &String)
        ensures
            r@ == self@.checkpoint,
    {
        match self {
            EmittedEvent::Insert(e) => &e.checkpoint,
            EmittedEvent::Update(e) => &e.checkpoint,
            EmittedEvent::Delete(e) => &e.checkpoint,
        }
    }

    pub fn schema(&self) -> (r: &String)
        ensures
            r@ == self@.schema,
    {
        match self {
            EmittedEvent::Insert(e) => &e.schema,
            EmittedEvent::Update(e) => &e.schema,
            EmittedEvent::Delete(e) => &e.schema,
        }
    }

    pub fn table(&self) -> (r: &String)
        ensures
            r@ == self@.table,
    {
        match self {
            EmittedEvent::Insert(e) => &e.table,
            EmittedEvent::Update(e) => &e.table,
            EmittedEvent::Delete(e) => &e.table,
        }
    }

    /// The row before the change, where the kind has one.
    pub fn before(&self) -> (r: Option<&RowImage>)
        ensures
            match r {
                Some(b) => self@.before == Some(fields_view(b@)),
                None => self@.before is None,
            },
    {
        match self {
            EmittedEvent::Insert(_) => None,
            EmittedEvent::Update(e) => Some(&e.before),
            EmittedEvent::Delete(e) => Some(&e.before),
        }
    }

    /// The row after the change, where the kind has one.
    pub fn after(&self) -> (r: Option<&RowImage>)
        ensures
            match r {
                Some(a) => self@.after == Some(fields_view(a@)),
                None => self@.after is None,
            },
    {
        match self {
            EmittedEvent::Insert(e) => Some(&e.after),
            EmittedEvent::Update(e) => Some(&e.after),
            EmittedEvent::Delete(_) => None,
        }
    }
}

} // verus!
