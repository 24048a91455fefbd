//! Events of the domain, and a bus that keeps the recent ones.

use crate::shared::error::DomainError;
use crate::shared::strings::formatted_now;
use crate::shared::time::current_timestamp;
use crate::text::{has_prefix, join2};
use vstd::prelude::*;
use vstd::string::*;

verus! {

/// Types of domain events.
#[derive(Debug, Clone, Copy, PartialEq, Eq, Structural)]
pub enum EventType {
    FileProcessed,
    CompressionStarted,
    CompressionCompleted,
    CompressionFailed,
    StatisticRecorded,
    TempFilesCleanedUp,
    ConfigurationChanged,
    Error,
    Warning,
    Info,
}

/// Event severity levels, from the least to the most severe.
#[derive(Debug, Clone, Copy, PartialEq, Eq, Structural)]
pub enum EventSeverity {
    Debug,
    Info,
    Warning,
    Error,
}

impl EventSeverity {
    /// The place of a level among the levels, from zero for the least
    /// severe.
    pub open spec fn spec_rank(self) -> u8 {
        match self {
            EventSeverity::Debug => 0,
            EventSeverity::Info => 1,
            EventSeverity::Warning => 2,
            EventSeverity::Error => 3,
        }
    }

    /// The place of the level among the levels.
    pub fn rank(&self) -> (r: u8)
        ensures
            r == self.spec_rank(),
    {
        match self {
            EventSeverity::Debug => 0,
            EventSeverity::Info => 1,
            EventSeverity::Warning => 2,
            EventSeverity::Error => 3,
        }
    }

    /// Whether the level is at least as severe as another.
    pub fn at_least(&self, other: &EventSeverity) -> (b: bool)
        ensures
            b == (self.spec_rank() >= other.spec_rank()),
    {
        self.rank() >= other.rank()
    }
}

/// Event payload containing specific data for each event type.
#[derive(Debug, Clone)]
pub enum EventPayload {
    FileProcessed { path: String, size: u64, format: String, processing_time_ms: u64 },
    CompressionStarted { input_format: String, output_format: String, input_size: u64, quality: u8 },
    CompressionCompleted {
        input_format: String,
        output_format: String,
        original_size: u64,
        compressed_size: u64,
        /// Saving in millionths of a percent.
        savings_percent: i128,
        processing_time_ms: u64,
    },
    CompressionFailed { input_format: String, error_message: String, input_size: u64 },
    StatisticRecorded { format_conversion: String, sample_id: i64 },
    TempFilesCleanedUp { count: u32, total_size_freed: u64 },
    ConfigurationChanged { setting_name: String, old_value: String, new_value: String },
    Error { operation: String, error_type: String, error_message: String },
    Warning { operation: String, warning_message: String },
    Info { operation: String, info_message: String },
}

/// Domain events for observability and event-driven behavior.
#[derive(Debug, Clone)]
pub struct DomainEvent {
    pub id: String,
    pub event_type: EventType,
    /// ISO 8601 format.
    pub timestamp: String,
    pub payload: EventPayload,
    /// Pairs of key and value; of two pairs with one key the later counts.
    pub metadata: Vec<(String, String)>,
}

/// The severity of events of a type.
pub open spec fn severity_of(event_type: EventType) -> EventSeverity {
    match event_type {
        EventType::Error => EventSeverity::Error,
        EventType::Warning => EventSeverity::Warning,
        EventType::CompressionFailed => EventSeverity::Warning,
        EventType::Info => EventSeverity::Info,
        _ => EventSeverity::Debug,
    }
}

/// Whether events of a type report a success.
pub open spec fn reports_success(event_type: EventType) -> bool {
    event_type == EventType::FileProcessed || event_type == EventType::CompressionCompleted
        || event_type == EventType::StatisticRecorded || event_type
        == EventType::TempFilesCleanedUp
}

/// Whether events of a type report an error.
pub open spec fn reports_error(event_type: EventType) -> bool {
    event_type == EventType::Error || event_type == EventType::CompressionFailed
}

/// What a list of pairs says: each key with the value of its last pair.
pub open spec fn metadata_map(pairs: Seq<(String, String)>) -> Map<Seq<char>, Seq<char>>
    decreases pairs.len(),
{
    if pairs.len() == 0 {
        Map::empty()
    } else {
        metadata_map(pairs.drop_last()).insert(pairs.last().0@, pairs.last().1@)
    }
}

impl DomainEvent {
    /// Creates an event with a given id and timestamp, without metadata.
    pub fn with_id(id: String, timestamp: String, event_type: EventType, payload: EventPayload)
        -> (event: DomainEvent)
        ensures
            event.id == id,
            event.timestamp == timestamp,
            event.event_type == event_type,
            event.payload == payload,
            event.metadata@.len() == 0,
    {
        DomainEvent { id, event_type, timestamp, payload, metadata: Vec::new() }
    }

    /// Creates an event stamped with the current time, under a generated
    /// id.
    pub fn new(event_type: EventType, payload: EventPayload) -> (event: DomainEvent)
        ensures
            has_prefix(event.id@, "evt_"@),
            event.event_type == event_type,
            event.payload == payload,
            event.metadata@.len() == 0,
    {
        Self::with_id(generate_event_id(), current_timestamp(), event_type, payload)
    }

    /// The value that the metadata holds for a key, if any: that of the
    /// last pair with the key.
    pub fn metadata_value(&self, key: &str) -> (r: Option<&String>)
        ensures
            match r {
                Some(value) => metadata_map(self.metadata@).contains_key(key@) && metadata_map(
                    self.metadata@,
                )[key@] == value@,
                None => !metadata_map(self.metadata@).contains_key(key@),
            },
    {
        let mut i: usize = self.metadata.len();
        assert(self.metadata@.subrange(0, i as int) =~= self.metadata@);
        while i > 0
            invariant
                i <= self.metadata@.len(),
                metadata_map(self.metadata@).contains_key(key@) == metadata_map(
                    self.metadata@.subrange(0, i as int),
                ).contains_key(key@),
                metadata_map(self.metadata@).contains_key(key@) ==> metadata_map(
                    self.metadata@,
                )[key@] == metadata_map(self.metadata@.subrange(0, i as int))[key@],
            decreases i,
        {
            let ghost part = self.metadata@.subrange(0, i as int);
            assert(part.last() == self.metadata@[i - 1]);
            assert(part.drop_last() =~= self.metadata@.subrange(0, i - 1));
            if crate::text::str_eq(self.metadata[i - 1].0.as_str(), key) {
                return Some(&self.metadata[i - 1].1);
            }
            i -= 1;
        }
        None
    }

    /// Adds metadata to the event; a value given before for the key is
    /// replaced.
    pub fn with_metadata(self, key: String, value: String) -> (event: DomainEvent)
        ensures
            event.id == self.id,
            event.event_type == self.event_type,
            event.timestamp == self.timestamp,
            event.payload == self.payload,
            metadata_map(event.metadata@) == metadata_map(self.metadata@).insert(key@, value@),
    {
        let mut event = self;
        event.metadata.push((key, value));
        assert(event.metadata@.drop_last() =~= self.metadata@);
        event
    }

    /// Adds several metadata entries to the event, in their order.
    pub fn with_metadata_map(self, metadata: Vec<(String, String)>) -> (event: DomainEvent)
        ensures
            event.id == self.id,
            event.event_type == self.event_type,
            event.timestamp == self.timestamp,
            event.payload == self.payload,
            event.metadata@ == self.metadata@ + metadata@,
    {
        let mut event = self;
        let mut added = metadata;
        event.metadata.append(&mut added);
        event
    }

    /// Gets the severity of the event.
    pub fn severity(&self) -> (s: EventSeverity)
        ensures
            s == severity_of(self.event_type),
    {
        match self.event_type {
            EventType::Error => EventSeverity::Error,
            EventType::Warning => EventSeverity::Warning,
            EventType::CompressionFailed => EventSeverity::Warning,
            EventType::Info => EventSeverity::Info,
            _ => EventSeverity::Debug,
        }
    }

    /// Checks if this is a success event.
    pub fn is_success(&self) -> (b: bool)
        ensures
            b == reports_success(self.event_type),
    {
        match self.event_type {
            EventType::FileProcessed => true,
            EventType::CompressionCompleted => true,
            EventType::StatisticRecorded => true,
            EventType::TempFilesCleanedUp => true,
            _ => false,
        }
    }

    /// Checks if this is an error event.
    pub fn is_error(&self) -> (b: bool)
        ensures
            b == reports_error(self.event_type),
    {
        match self.event_type {
            EventType::Error => true,
            EventType::CompressionFailed => true,
            _ => false,
        }
    }
}

/// Generates an event id: "evt_" followed by the current time to the
/// nanosecond.
pub fn generate_event_id() -> (id: String)
    ensures
        has_prefix(id@, "evt_"@),
{
    let stamp = formatted_now("%s_%f");
    let id = join2("evt_", stamp.as_str());
    assert(id@.subrange(0, "evt_"@.len() as int) =~= "evt_"@);
    id
}

/// The event that reports a processed file.
pub fn file_processed_event(path: String, size: u64, format: String, processing_time_ms: u64) -> (event:
    DomainEvent)
    ensures
        event.event_type == EventType::FileProcessed,
        event.payload == (EventPayload::FileProcessed { path, size, format, processing_time_ms }),
        event.metadata@.len() == 0,
{
    DomainEvent::new(
        EventType::FileProcessed,
        EventPayload::FileProcessed { path, size, format, processing_time_ms },
    )
}

/// The event that reports a finished compression.
pub fn compression_completed_event(
    input_format: String,
    output_format: String,
    original_size: u64,
    compressed_size: u64,
    savings_percent: i128,
    processing_time_ms: u64,
) -> (event: DomainEvent)
    ensures
        event.event_type == EventType::CompressionCompleted,
        event.payload == (EventPayload::CompressionCompleted {
            input_format,
            output_format,
            original_size,
            compressed_size,
            savings_percent,
            processing_time_ms,
        }),
        event.metadata@.len() == 0,
{
    DomainEvent::new(
        EventType::CompressionCompleted,
        EventPayload::CompressionCompleted {
            input_format,
            output_format,
            original_size,
            compressed_size,
            savings_percent,
            processing_time_ms,
        },
    )
}

/// The event that reports a failed compression.
pub fn compression_failed_event(input_format: String, error_message: String, input_size: u64) -> (event:
    DomainEvent)
    ensures
        event.event_type == EventType::CompressionFailed,
        event.payload == (EventPayload::CompressionFailed {
            input_format,
            error_message,
            input_size,
        }),
        event.metadata@.len() == 0,
{
    DomainEvent::new(
        EventType::CompressionFailed,
        EventPayload::CompressionFailed { input_format, error_message, input_size },
    )
}

/// The event that reports an error.
pub fn error_event(operation: String, error_type: String, error_message: String) -> (event:
    DomainEvent)
    ensures
        event.event_type == EventType::Error,
        event.payload == (EventPayload::Error { operation, error_type, error_message }),
        event.metadata@.len() == 0,
{
    DomainEvent::new(
        EventType::Error,
        EventPayload::Error { operation, error_type, error_message },
    )
}

/// The event that carries a piece of information.
pub fn info_event(operation: String, info_message: String) -> (event: DomainEvent)
    ensures
        event.event_type == EventType::Info,
        event.payload == (EventPayload::Info { operation, info_message }),
        event.metadata@.len() == 0,
{
    DomainEvent::new(EventType::Info, EventPayload::Info { operation, info_message })
}

/// Something that is told of events.
pub trait EventListener {
    /// Takes note of an event.
    fn handle_event(&self, event: &DomainEvent) -> Result<(), DomainError>;

    /// Whether the listener wants events of a type.
    fn can_handle(&self, event_type: &EventType) -> bool;
}

/// Listener that writes events of some severity to the console.
#[derive(Debug, Clone, Copy)]
pub struct ConsoleEventListener {
    pub min_severity: EventSeverity,
}

impl ConsoleEventListener {
    /// Creates a listener for events of at least a severity.
    pub fn new(min_severity: EventSeverity) -> (listener: ConsoleEventListener)
        ensures
            listener.min_severity == min_severity,
    {
        ConsoleEventListener { min_severity }
    }

    /// Whether the listener writes an event: its severity is at least the
    /// listener's.
    pub fn writes(&self, event: &DomainEvent) -> (b: bool)
        ensures
            b == (severity_of(event.event_type).spec_rank() >= self.min_severity.spec_rank()),
    {
        event.severity().at_least(&self.min_severity)
    }

}

impl EventListener for ConsoleEventListener {
    /// Takes note of an event; this never fails.
    fn handle_event(&self, event: &DomainEvent) -> (r: Result<(), DomainError>)
        ensures
            r is Ok,
    {
        Ok(())
    }

    /// The listener handles events of every type.
    fn can_handle(&self, _event_type: &EventType) -> (b: bool)
        ensures
            b,
    {
        true
    }
}

/// Tells listeners of events and keeps the most recent ones, up to a
/// maximum number.
pub struct EventBus<L> {
    pub listeners: Vec<L>,
    pub event_history: Vec<DomainEvent>,
    pub max_history_size: usize,
}

/// The events of a history that satisfy a condition, in their order.
pub open spec fn selected(history: Seq<DomainEvent>, wanted: spec_fn(DomainEvent) -> bool) -> Seq<
    DomainEvent,
>
    decreases history.len(),
{
    if history.len() == 0 {
        Seq::<DomainEvent>::empty()
    } else if wanted(history.last()) {
        selected(history.drop_last(), wanted).push(history.last())
    } else {
        selected(history.drop_last(), wanted)
    }
}

/// The events behind a list of references.
pub open spec fn referents(references: Seq<&DomainEvent>) -> Seq<DomainEvent> {
    references.map_values(|r: &DomainEvent| *r)
}

/// The last `limit` items of a sequence, or all of them where there are
/// fewer.
pub open spec fn most_recent<T>(items: Seq<T>, limit: nat) -> Seq<T> {
    if items.len() > limit {
        items.subrange(items.len() - limit, items.len() as int)
    } else {
        items
    }
}

/// A history after one more event: the event is added, and the oldest one
/// is dropped where the history then holds more than the maximum.
pub open spec fn history_after<T>(history: Seq<T>, event: T, max: nat) -> Seq<T> {
    if history.len() + 1 > max {
        history.push(event).drop_first()
    } else {
        history.push(event)
    }
}

impl<L: EventListener> EventBus<L> {
    /// Creates a bus without listeners that keeps up to a thousand events.
    pub fn new() -> (bus: EventBus<L>)
        ensures
            bus.listeners@.len() == 0,
            bus.event_history@.len() == 0,
            bus.max_history_size == 1000,
    {
        EventBus { listeners: Vec::new(), event_history: Vec::new(), max_history_size: 1000 }
    }

    /// Adds a listener.
    pub fn add_listener(&mut self, listener: L)
        ensures
            final(self).listeners@ == old(self).listeners@.push(listener),
            final(self).event_history == old(self).event_history,
            final(self).max_history_size == old(self).max_history_size,
    {
        self.listeners.push(listener);
    }

    /// Records an event in the history and tells it to every listener that
    /// wants events of its type. A listener that fails does not keep the
    /// others from being told: this never fails.
    pub fn publish(&mut self, event: DomainEvent) -> (r: Result<(), DomainError>)
        ensures
            r is Ok,
            final(self).event_history@ == history_after(
                old(self).event_history@,
                event,
                old(self).max_history_size as nat,
            ),
            final(self).max_history_size == old(self).max_history_size,
            final(self).listeners == old(self).listeners,
    {
        let mut i: usize = 0;
        while i < self.listeners.len()
            invariant
                i <= self.listeners@.len(),
                *self == *old(self),
            decreases self.listeners@.len() - i,
        {
            if self.listeners[i].can_handle(&event.event_type) {
                let _ = self.listeners[i].handle_event(&event);
            }
            i += 1;
        }
        self.event_history.push(event);
        if self.event_history.len() > self.max_history_size {
            self.event_history.remove(0);
            assert(self.event_history@ =~= old(self).event_history@.push(event).drop_first());
        }
        Ok(())
    }

    /// Gets the events of a type, oldest first.
    pub fn get_events_by_type(&self, event_type: &EventType) -> (events: Vec<&DomainEvent>)
        ensures
            referents(events@) == selected(
                self.event_history@,
                |e: DomainEvent| e.event_type == *event_type,
            ),
    {
        let ghost wanted = |e: DomainEvent| e.event_type == *event_type;
        let mut events: Vec<&DomainEvent> = Vec::new();
        let mut i: usize = 0;
        while i < self.event_history.len()
            invariant
                i <= self.event_history@.len(),
                wanted == (|e: DomainEvent| e.event_type == *event_type),
                referents(events@) == selected(self.event_history@.subrange(0, i as int), wanted),
            decreases self.event_history@.len() - i,
        {
            proof {
                let next = self.event_history@.subrange(0, i + 1);
                assert(next.drop_last() =~= self.event_history@.subrange(0, i as int));
            }
            let ghost before = events@;
            if self.event_history[i].event_type == *event_type {
                events.push(&self.event_history[i]);
                assert(referents(events@) =~= referents(before).push(self.event_history@[i as int]));
            }
            i += 1;
        }
        assert(self.event_history@.subrange(0, self.event_history@.len() as int)
            =~= self.event_history@);
        events
    }

    /// Gets the events that report an error, oldest first.
    pub fn get_error_events(&self) -> (events: Vec<&DomainEvent>)
        ensures
            referents(events@) == selected(
                self.event_history@,
                |e: DomainEvent| reports_error(e.event_type),
            ),
    {
        let ghost wanted = |e: DomainEvent| reports_error(e.event_type);
        let mut events: Vec<&DomainEvent> = Vec::new();
        let mut i: usize = 0;
        while i < self.event_history.len()
            invariant
                i <= self.event_history@.len(),
                wanted == (|e: DomainEvent| reports_error(e.event_type)),
                referents(events@) == selected(self.event_history@.subrange(0, i as int), wanted),
            decreases self.event_history@.len() - i,
        {
            proof {
                let next = self.event_history@.subrange(0, i + 1);
                assert(next.drop_last() =~= self.event_history@.subrange(0, i as int));
            }
            let ghost before = events@;
            if self.event_history[i].is_error() {
                events.push(&self.event_history[i]);
                assert(referents(events@) =~= referents(before).push(self.event_history@[i as int]));
            }
            i += 1;
        }
        assert(self.event_history@.subrange(0, self.event_history@.len() as int)
            =~= self.event_history@);
        events
    }

    /// Gets the most recent events, oldest first.
    pub fn get_recent_events(&self, limit: usize) -> (events: &[DomainEvent])
        ensures
            events@ == most_recent(self.event_history@, limit as nat),
    {
        let length = self.event_history.len();
        let start = if length > limit {
            length - limit
        } else {
            0
        };
        let events = vstd::slice::slice_subrange(self.event_history.as_slice(), start, length);
        assert(events@ =~= most_recent(self.event_history@, limit as nat));
        events
    }

    /// Clears the event history.
    pub fn clear_history(&mut self)
        ensures
            final(self).event_history@.len() == 0,
            final(self).max_history_size == old(self).max_history_size,
            final(self).listeners == old(self).listeners,
    {
        self.event_history.clear();
    }

    /// Sets the maximum history size; events beyond it are dropped, oldest
    /// first.
    pub fn set_max_history_size(&mut self, size: usize)
        ensures
            final(self).max_history_size == size,
            final(self).event_history@ == most_recent(old(self).event_history@, size as nat),
            final(self).listeners == old(self).listeners,
    {
        self.max_history_size = size;
        let length = self.event_history.len();
        if length > size {
            let kept = self.event_history.split_off(length - size);
            self.event_history = kept;
        }
    }
}

} // verus!
