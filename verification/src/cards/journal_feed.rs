//! The live Presence stream: the events it keeps, the connection state it shows, and which events
//! a filter and a search let through.
//!
//! The connection state follows what the event source reports and is never inferred from the
//! pause switch; pausing only stops new events from being kept.

use crate::text::{append_decimal, contains_text, decimal_text, lowercase, lowercased, occurs_in, same_text};
use vstd::prelude::*;

verus! {

/// How many events the stream keeps; older ones are dropped first.
pub const FEED_CAPACITY: usize = 100;

/// Connection state, as established from the event source's own callbacks.
#[derive(Clone, Copy, Debug, Eq, PartialEq, Structural)]
pub enum StreamState {
    /// Not yet heard from.
    Connecting,
    /// Snapshots are arriving.
    Live,
    /// The projection failed in a way that may recover.
    Stale,
    /// The stream cannot be had.
    Unavailable,
}

/// One event the stream received.
#[derive(Debug)]
pub struct FeedEvent {
    /// When it arrived, as the browser wrote the time.
    pub time: String,
    /// Its topic.
    pub topic: String,
    /// A short description.
    pub description: String,
    /// The raw payload.
    pub payload: String,
}

/// An event as the contracts see it.
pub struct EventView {
    /// When it arrived.
    pub time: Seq<char>,
    /// Its topic.
    pub topic: Seq<char>,
    /// A short description.
    pub description: Seq<char>,
    /// The raw payload.
    pub payload: Seq<char>,
}

impl View for FeedEvent {
    type V = EventView;

    open spec fn view(&self) -> EventView {
        EventView {
            time: self.time@,
            topic: self.topic@,
            description: self.description@,
            payload: self.payload@,
        }
    }
}

/// A copy of an event.
fn copy_event(e: &FeedEvent) -> (r: FeedEvent)
    ensures
        r@ == e@,
{
    FeedEvent {
        time: e.time.clone(),
        topic: e.topic.clone(),
        description: e.description.clone(),
        payload: e.payload.clone(),
    }
}

/// The views of a list of events.
pub open spec fn event_views(events: Seq<FeedEvent>) -> Seq<EventView> {
    events.map_values(|e: FeedEvent| e@)
}

/// The events kept after one more arrives: it goes last, and the oldest goes once there are more
/// than the capacity.
pub open spec fn after_recording(events: Seq<EventView>, e: EventView) -> Seq<EventView> {
    let grown = events.push(e);
    if grown.len() > FEED_CAPACITY {
        grown.drop_first()
    } else {
        grown
    }
}

/// The boolean member `key` of the JSON object written in `data`; nothing when `data` is not JSON,
/// has no such member, or the member is not a boolean.
pub uninterp spec fn json_bool_member(data: Seq<char>, key: Seq<char>) -> Option<bool>;

/// Reads a boolean member out of a JSON text.
///
/// Parses `data` with `serde_json::from_str` into a `serde_json::Value`, then takes the member
/// with `Value::get` and `Value::as_bool`. The contract claims only that the result is a function
/// of the two texts, named [`json_bool_member`].
#[verifier::external_body]
fn json_bool_member_of(data: &str, key: &str) -> (r: Option<bool>)
    ensures
        r == json_bool_member(data@, key@),
{
    serde_json::from_str::<serde_json::Value>(data).ok().and_then(
        |value| value.get(key).and_then(|member| member.as_bool()),
    )
}

/// The JSON written in `data`, laid out again with indentation; nothing when `data` is not JSON.
pub uninterp spec fn json_pretty(data: Seq<char>) -> Option<Seq<char>>;

/// Lays out a JSON text with indentation.
///
/// Parses `data` with `serde_json::from_str` into a `serde_json::Value` and writes it back with
/// `serde_json::to_string_pretty`. The contract claims only that the result is a function of the
/// text, named [`json_pretty`].
#[verifier::external_body]
fn json_pretty_of(data: &str) -> (r: Option<String>)
    ensures
        match r {
            Some(t) => json_pretty(data@) == Some(t@),
            None => json_pretty(data@) is None,
        },
{
    serde_json::from_str::<serde_json::Value>(data).ok().and_then(
        |value| serde_json::to_string_pretty(&value).ok(),
    )
}

/// The state a projection error puts the stream in: stale when the error says it is retryable,
/// unavailable otherwise, including when the error cannot be read.
pub open spec fn projection_error_state_for(data: Seq<char>) -> StreamState {
    if json_bool_member(data, "retryable"@) == Some(true) {
        StreamState::Stale
    } else {
        StreamState::Unavailable
    }
}

/// The state a projection error puts the stream in.
pub fn projection_error_state(data: &str) -> (r: StreamState)
    ensures
        r == projection_error_state_for(data@),
{
    match json_bool_member_of(data, "retryable") {
        Some(true) => StreamState::Stale,
        _ => StreamState::Unavailable,
    }
}

/// What the inspector shows of a payload: the JSON laid out again when it is JSON, the raw text
/// otherwise.
pub open spec fn inspector_text_for(payload: Seq<char>) -> Seq<char> {
    match json_pretty(payload) {
        Some(pretty) => pretty,
        None => payload,
    }
}

/// What the inspector shows of a payload.
pub fn inspector_text(payload: &str) -> (r: String)
    ensures
        r@ == inspector_text_for(payload@),
{
    match json_pretty_of(payload) {
        Some(pretty) => pretty,
        None => String::from_str(payload),
    }
}

/// Whether an event passes the topic filter and the search.
///
/// The filter `all` lets everything through; any other filter must occur, lowercased, in the
/// lowercased topic. An empty search lets everything through; otherwise the lowercased search must
/// occur in the lowercased time, topic, description or payload.
pub open spec fn event_shown(e: EventView, filter: Seq<char>, query: Seq<char>) -> bool {
    let q = lowercase(query);
    let by_filter = filter == "all"@ || occurs_in(lowercase(filter), lowercase(e.topic));
    let by_search = q.len() == 0 || occurs_in(q, lowercase(e.time)) || occurs_in(
        q,
        lowercase(e.topic),
    ) || occurs_in(q, lowercase(e.description)) || occurs_in(q, lowercase(e.payload));
    by_filter && by_search
}

/// The events that pass a topic filter and a search, in the order they were kept.
pub open spec fn events_shown(events: Seq<EventView>, filter: Seq<char>, query: Seq<char>) -> Seq<
    EventView,
> {
    events.filter(|e: EventView| event_shown(e, filter, query))
}

/// The search reads all four fields of an event: under the filter "all", a kept event whose time,
/// topic, description or payload holds the search (case aside) is among those shown, and so is
/// every kept event when the search is empty; whatever the filter, an event shown is a kept one
/// that holds the search in one of its fields, and, unless the filter is "all", whose topic holds
/// the filter.
pub proof fn lemma_search_reads_every_field(
    events: Seq<EventView>,
    filter: Seq<char>,
    query: Seq<char>,
    e: EventView,
)
    ensures
        events.contains(e) && (lowercase(query).len() == 0 || occurs_in(
            lowercase(query),
            lowercase(e.time),
        ) || occurs_in(lowercase(query), lowercase(e.topic)) || occurs_in(
            lowercase(query),
            lowercase(e.description),
        ) || occurs_in(lowercase(query), lowercase(e.payload))) ==> events_shown(
            events,
            "all"@,
            query,
        ).contains(e),
        events_shown(events, filter, query).contains(e) ==> {
            &&& events.contains(e)
            &&& lowercase(query).len() == 0 || occurs_in(lowercase(query), lowercase(e.time))
                || occurs_in(lowercase(query), lowercase(e.topic)) || occurs_in(
                lowercase(query),
                lowercase(e.description),
            ) || occurs_in(lowercase(query), lowercase(e.payload))
            &&& filter == "all"@ || occurs_in(lowercase(filter), lowercase(e.topic))
        },
{
    let pred = |x: EventView| event_shown(x, "all"@, query);
    if events.contains(e) && event_shown(e, "all"@, query) {
        let i = choose|i: int| 0 <= i < events.len() && events[i] == e;
        events.lemma_filter_contains(pred, i);
    }
    let p2 = |x: EventView| event_shown(x, filter, query);
    if events.filter(p2).contains(e) {
        events.lemma_filter_contains_rev(p2, e);
        let k = choose|k: int| 0 <= k < events.filter(p2).len() && events.filter(p2)[k] == e;
        events.lemma_filter_pred(p2, k);
    }
}

/// Whether an event passes the topic filter and the search.
fn shown(e: &FeedEvent, filter: &str, query: &str) -> (r: bool)
    ensures
        r == event_shown(e@, filter@, query@),
{
    let q = lowercased(query);
    let by_filter = same_text(filter, "all") || {
        let f = lowercased(filter);
        let topic = lowercased(e.topic.as_str());
        contains_text(topic.as_str(), f.as_str())
    };
    let by_search = q.as_str().is_empty() || contains_text(
        lowercased(e.time.as_str()).as_str(),
        q.as_str(),
    ) || contains_text(lowercased(e.topic.as_str()).as_str(), q.as_str()) || contains_text(
        lowercased(e.description.as_str()).as_str(),
        q.as_str(),
    ) || contains_text(lowercased(e.payload.as_str()).as_str(), q.as_str());
    by_filter && by_search
}

/// The live stream's kept events, connection state and pause switch.
pub struct PresenceFeed {
    events: Vec<FeedEvent>,
    stream: StreamState,
    paused: bool,
}

impl PresenceFeed {
    /// The stream never keeps more than its capacity.
    #[verifier::type_invariant]
    spec fn bounded(self) -> bool {
        self.events.len() <= FEED_CAPACITY
    }

    /// The kept events, oldest first.
    pub closed spec fn kept(self) -> Seq<EventView> {
        event_views(self.events@)
    }

    /// The connection state.
    pub closed spec fn state(self) -> StreamState {
        self.stream
    }

    /// Whether new events are being held back.
    pub closed spec fn is_paused(self) -> bool {
        self.paused
    }

    /// A stream that has not yet been heard from, keeping nothing and not paused.
    pub fn new() -> (r: PresenceFeed)
        ensures
            r.kept().len() == 0,
            r.state() == StreamState::Connecting,
            !r.is_paused(),
    {
        let r = PresenceFeed { events: Vec::new(), stream: StreamState::Connecting, paused: false };
        assert(r.kept() =~= Seq::<EventView>::empty());
        r
    }

    /// The kept events, oldest first.
    pub fn events(&self) -> (r: &Vec<FeedEvent>)
        ensures
            event_views(r@) == self.kept(),
            r@.len() <= FEED_CAPACITY,
    {
        proof {
            use_type_invariant(self);
        }
        &self.events
    }

    /// The connection state.
    pub fn stream(&self) -> (r: StreamState)
        ensures
            r == self.state(),
    {
        self.stream
    }

    /// Whether new events are being held back.
    pub fn paused(&self) -> (r: bool)
        ensures
            r == self.is_paused(),
    {
        self.paused
    }

    /// Keeps one more event, dropping the oldest when the stream is full.
    fn record(&mut self, e: FeedEvent)
        ensures
            final(self).kept() == after_recording(old(self).kept(), e@),
            final(self).state() == old(self).state(),
            final(self).is_paused() == old(self).is_paused(),
    {
        proof {
            use_type_invariant(&*self);
        }
        let ghost before = self.events@;
        let mut events: Vec<FeedEvent> = Vec::new();
        std::mem::swap(&mut events, &mut self.events);
        events.push(e);
        assert(event_views(events@) =~= event_views(before).push(e@));
        if events.len() > FEED_CAPACITY {
            let ghost grown = events@;
            events.remove(0);
            assert(event_views(events@) =~= event_views(grown).drop_first());
        }
        self.events = events;
    }

    /// The event source opened.
    pub fn on_open(&mut self)
        ensures
            final(self).state() == StreamState::Live,
            final(self).kept() == old(self).kept(),
            final(self).is_paused() == old(self).is_paused(),
    {
        proof {
            use_type_invariant(&*self);
        }
        self.stream = StreamState::Live;
    }

    /// The event source failed, or could not be created at all.
    pub fn on_unavailable(&mut self)
        ensures
            final(self).state() == StreamState::Unavailable,
            final(self).kept() == old(self).kept(),
            final(self).is_paused() == old(self).is_paused(),
    {
        proof {
            use_type_invariant(&*self);
        }
        self.stream = StreamState::Unavailable;
    }

    /// A snapshot arrived at `now`: the stream is live, and unless paused the snapshot is kept.
    pub fn on_snapshot(&mut self, now: String, data: String)
        ensures
            final(self).state() == StreamState::Live,
            final(self).is_paused() == old(self).is_paused(),
            old(self).is_paused() ==> final(self).kept() == old(self).kept(),
            !old(self).is_paused() ==> final(self).kept() == after_recording(
                old(self).kept(),
                EventView {
                    time: now@,
                    topic: "snapshot.update"@,
                    description: "Mind state projection update"@,
                    payload: data@,
                },
            ),
    {
        proof {
            use_type_invariant(&*self);
        }
        self.stream = StreamState::Live;
        if !self.paused {
            self.record(
                FeedEvent {
                    time: now,
                    topic: String::from_str("snapshot.update"),
                    description: String::from_str("Mind state projection update"),
                    payload: data,
                },
            );
        }
    }

    /// A projection error arrived at `now`: the stream is stale or unavailable as the error says,
    /// and unless paused the error is kept.
    pub fn on_projection_error(&mut self, now: String, data: String)
        ensures
            final(self).state() == projection_error_state_for(data@),
            final(self).is_paused() == old(self).is_paused(),
            old(self).is_paused() ==> final(self).kept() == old(self).kept(),
            !old(self).is_paused() ==> final(self).kept() == after_recording(
                old(self).kept(),
                EventView {
                    time: now@,
                    topic: "projection.error"@,
                    description: "Presence projection unavailable"@,
                    payload: data@,
                },
            ),
    {
        proof {
            use_type_invariant(&*self);
        }
        self.stream = projection_error_state(data.as_str());
        if !self.paused {
            self.record(
                FeedEvent {
                    time: now,
                    topic: String::from_str("projection.error"),
                    description: String::from_str("Presence projection unavailable"),
                    payload: data,
                },
            );
        }
    }

    /// Pauses or resumes keeping events; the connection state is untouched.
    pub fn toggle_pause(&mut self)
        ensures
            final(self).is_paused() == !old(self).is_paused(),
            final(self).state() == old(self).state(),
            final(self).kept() == old(self).kept(),
    {
        proof {
            use_type_invariant(&*self);
        }
        self.paused = !self.paused;
    }

    /// Forgets every kept event.
    pub fn clear(&mut self)
        ensures
            final(self).kept().len() == 0,
            final(self).state() == old(self).state(),
            final(self).is_paused() == old(self).is_paused(),
    {
        self.events = Vec::new();
        assert(self.kept() =~= Seq::<EventView>::empty());
    }

    /// The status pill's words: paused wins, and otherwise the connection state speaks.
    pub open spec fn status_text(self) -> Seq<char> {
        if self.is_paused() {
            "⏸ Paused"@
        } else {
            match self.state() {
                StreamState::Connecting => "◌ Connecting"@,
                StreamState::Live => "● Live"@,
                StreamState::Stale => "◐ Stale"@,
                StreamState::Unavailable => "○ Unavailable"@,
            }
        }
    }

    /// The status pill's words.
    pub fn status_label(&self) -> (r: &'static str)
        ensures
            r@ == self.status_text(),
    {
        if self.paused {
            "⏸ Paused"
        } else {
            match self.stream {
                StreamState::Connecting => "◌ Connecting",
                StreamState::Live => "● Live",
                StreamState::Stale => "◐ Stale",
                StreamState::Unavailable => "○ Unavailable",
            }
        }
    }

    /// The count pill: how many events are kept.
    pub fn count_label(&self) -> (r: String)
        ensures
            r@ == decimal_text(self.kept().len()) + " events"@,
    {
        let mut s = String::new();
        append_decimal(&mut s, self.events.len() as u64);
        s.append(" events");
        s
    }

    /// The kept events that pass the topic filter and the search, oldest first.
    pub fn visible_events(&self, filter: &str, query: &str) -> (r: Vec<FeedEvent>)
        ensures
            event_views(r@) == self.kept().filter(|e: EventView| event_shown(e, filter@, query@)),
            event_views(r@) == events_shown(self.kept(), filter@, query@),
    {
        let ghost pred = |e: EventView| event_shown(e, filter@, query@);
        let ghost all = self.kept();
        let mut r: Vec<FeedEvent> = Vec::new();
        let mut i: usize = 0;
        assert(all.take(0) =~= Seq::<EventView>::empty());
        assert(event_views(r@) =~= Seq::<EventView>::empty());
        while i < self.events.len()
            invariant
                all == event_views(self.events@),
                pred == (|e: EventView| event_shown(e, filter@, query@)),
                i <= self.events.len(),
                event_views(r@) == all.take(i as int).filter(pred),
            decreases self.events.len() - i,
        {
            let e = &self.events[i];
            proof {
                reveal(Seq::filter);
                assert(all.take(i as int + 1).drop_last() =~= all.take(i as int));
                assert(all.take(i as int + 1).last() == e@);
            }
            if shown(e, filter, query) {
                let ghost before = r@;
                r.push(copy_event(e));
                assert(event_views(r@) =~= event_views(before).push(e@));
            }
            i = i + 1;
        }
        assert(all.take(self.events.len() as int) =~= all);
        r
    }
}

/// Recording never lets the stream grow past its capacity, keeps the new event last, and keeps
/// the events before it in order, dropping only the oldest when full.
pub proof fn lemma_recording_keeps_order_and_bound(events: Seq<EventView>, e: EventView)
    requires
        events.len() <= FEED_CAPACITY,
    ensures
        after_recording(events, e).len() <= FEED_CAPACITY,
        after_recording(events, e).last() == e,
        events.len() < FEED_CAPACITY ==> after_recording(events, e) == events.push(e),
        events.len() == FEED_CAPACITY ==> after_recording(events, e) == events.drop_first().push(e),
{
    if events.len() == FEED_CAPACITY {
        assert(events.push(e).drop_first() =~= events.drop_first().push(e));
    }
}

} // verus!
