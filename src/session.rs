//! The detail phase: resolution of the identified neighborhoods, and the
//! session that turns streamed text into forwarded records.

use vstd::prelude::*;

use crate::extractor::{initial_model, run, texts, JsonArrayChunkParser, ParserModel};
use crate::reconcile::{complete_interdependent_metrics, reconciled};
use crate::registry::{lookup, lookup_neighborhoods_by_names, same_record, NeighborhoodDatabase};
use crate::text::{decimal, push_decimal, push_str};
use crate::types::{
    EventNotification, NeighborhoodProperties, SimulationChunk, SimulationComplete,
    SimulationUpdate,
};

verus! {

/// The record for `name`: the request's own records first, then the registry.
pub open spec fn resolve_one(
    name: Seq<char>,
    request: Seq<NeighborhoodProperties>,
    registry: Seq<NeighborhoodProperties>,
) -> Option<NeighborhoodProperties> {
    match lookup(request, name) {
        Some(p) => Some(p),
        None => lookup(registry, name),
    }
}

/// The records of `names` that resolve, in the order of `names`.
pub open spec fn resolve_all(
    names: Seq<String>,
    request: Seq<NeighborhoodProperties>,
    registry: Seq<NeighborhoodProperties>,
) -> Seq<NeighborhoodProperties>
    decreases names.len(),
{
    if names.len() == 0 {
        Seq::empty()
    } else {
        let prev = resolve_all(names.drop_last(), request, registry);
        match resolve_one(names.last()@, request, registry) {
            Some(p) => prev.push(p),
            None => prev,
        }
    }
}

/// The names among `names` that resolve nowhere, in order.
pub open spec fn unresolved(
    names: Seq<String>,
    request: Seq<NeighborhoodProperties>,
    registry: Seq<NeighborhoodProperties>,
) -> Seq<Seq<char>>
    decreases names.len(),
{
    if names.len() == 0 {
        Seq::empty()
    } else {
        let prev = unresolved(names.drop_last(), request, registry);
        match resolve_one(names.last()@, request, registry) {
            Some(_) => prev,
            None => prev.push(names.last()@),
        }
    }
}

/// The outcome of looking up the identified neighborhoods.
pub struct Resolution {
    /// The resolved records, in the order of the names.
    pub entities: Vec<NeighborhoodProperties>,
    /// How many names the request's own records resolved.
    pub found_from_request: usize,
    /// How many names only the registry resolved.
    pub found_from_db: usize,
    /// The names that neither resolved.
    pub missing: Vec<String>,
}

/// Looks each of `target_names` up among `request_entities`, then in `db`.
pub fn resolve_targets(
    target_names: &[String],
    request_entities: &[NeighborhoodProperties],
    db: &NeighborhoodDatabase,
) -> (r: Resolution)
    ensures
        r.entities@.len() == resolve_all(target_names@, request_entities@, db@).len(),
        forall|k: int|
            0 <= k < r.entities@.len() ==> (#[trigger] r.entities@[k]).same_as(
                resolve_all(target_names@, request_entities@, db@)[k],
            ),
        texts(r.missing@) == unresolved(target_names@, request_entities@, db@),
        r.found_from_request + r.found_from_db == r.entities@.len(),
{
    let table = lookup_neighborhoods_by_names(request_entities);
    let mut entities: Vec<NeighborhoodProperties> = Vec::new();
    let mut missing: Vec<String> = Vec::new();
    let mut found_from_request: usize = 0;
    let mut found_from_db: usize = 0;
    let mut i: usize = 0;
    while i < target_names.len()
        invariant
            i <= target_names@.len(),
            forall|name: Seq<char>| #[trigger]
                same_record(lookup(table@, name), lookup(request_entities@, name)),
            entities@.len() == resolve_all(target_names@.take(i as int), request_entities@, db@).len(),
            forall|k: int|
                0 <= k < entities@.len() ==> (#[trigger] entities@[k]).same_as(
                    resolve_all(target_names@.take(i as int), request_entities@, db@)[k],
                ),
            texts(missing@) == unresolved(target_names@.take(i as int), request_entities@, db@),
            found_from_request + found_from_db == entities@.len(),
            entities@.len() + missing@.len() == i,
        decreases target_names@.len() - i,
    {
        let ghost names = target_names@.take(i + 1);
        let ghost prev_entities = entities@;
        let ghost prev_missing = missing@;
        proof {
            assert(names.drop_last() =~= target_names@.take(i as int));
            assert(names.last() == target_names@[i as int]);
        }
        let name = target_names[i].as_str();
        let local = table.find_by_name(name);
        assert(same_record(lookup(table@, name@), lookup(request_entities@, name@)));
        match local {
            Some(p) => {
                entities.push(p);
                found_from_request = found_from_request + 1;
            },
            None => match db.find_by_name(name) {
                Some(p) => {
                    entities.push(p);
                    found_from_db = found_from_db + 1;
                },
                None => {
                    missing.push(target_names[i].clone());
                    assert(texts(missing@) =~= texts(prev_missing).push(name@));
                },
            },
        }
        proof {
            assert forall|k: int|
                0 <= k < entities@.len() implies (#[trigger] entities@[k]).same_as(
                    resolve_all(names, request_entities@, db@)[k],
                ) by {
                if k < prev_entities.len() {
                    assert(entities@[k] == prev_entities[k]);
                }
            }
        }
        i = i + 1;
    }
    assert(target_names@.take(target_names@.len() as int) =~= target_names@);
    Resolution { entities, found_from_request, found_from_db, missing }
}

/// The largest `u32` at most `n`.
pub open spec fn capped_u32(n: nat) -> u32 {
    if n > u32::MAX {
        u32::MAX
    } else {
        n as u32
    }
}

/// The progress record sent before the detail phase streams: one expected
/// event per resolved neighborhood.
pub fn progress_chunk(resolved_count: usize) -> (r: SimulationChunk)
    ensures
        r == (SimulationChunk::Update {
            data: SimulationUpdate {
                expected_event_count: capped_u32(resolved_count as nat),
                target_neighborhood_count: capped_u32(resolved_count as nat),
            },
        }),
{
    let n: u32 = if resolved_count > u32::MAX as usize {
        u32::MAX
    } else {
        resolved_count as u32
    };
    SimulationChunk::Update {
        data: SimulationUpdate { expected_event_count: n, target_neighborhood_count: n },
    }
}

/// The first record of `s` named `name`.
pub open spec fn find_first(s: Seq<NeighborhoodProperties>, name: Seq<char>) -> Option<NeighborhoodProperties>
    decreases s.len(),
{
    if s.len() == 0 {
        None
    } else if s[0].name@ == name {
        Some(s[0])
    } else {
        find_first(s.drop_first(), name)
    }
}

fn find_entity<'a>(entities: &'a [NeighborhoodProperties], name: &String) -> (r: Option<
    &'a NeighborhoodProperties,
>)
    ensures
        match r {
            Some(p) => find_first(entities@, name@) == Some(*p),
            None => find_first(entities@, name@) is None,
        },
{
    let mut i: usize = 0;
    assert(entities@.subrange(0, entities@.len() as int) =~= entities@);
    while i < entities.len()
        invariant
            i <= entities@.len(),
            find_first(entities@, name@) == find_first(entities@.subrange(i as int, entities@.len() as int), name@),
        decreases entities@.len() - i,
    {
        let ghost rest = entities@.subrange(i as int, entities@.len() as int);
        assert(rest.drop_first() =~= entities@.subrange(i + 1, entities@.len() as int));
        assert(rest[0] == entities@[i as int]);
        if entities[i].name == *name {
            return Some(&entities[i]);
        }
        i = i + 1;
    }
    None
}

/// `n + 1`, staying put at the largest `u64`.
pub open spec fn bump(n: u64) -> u64 {
    if n < u64::MAX {
        (n + 1) as u64
    } else {
        n
    }
}

/// The event with its metric update reconciled against the first of
/// `entities` named by the update's zone; unchanged where no update or no
/// such record exists.
pub open spec fn processed_event(data: EventNotification, entities: Seq<NeighborhoodProperties>) -> EventNotification {
    match data.metrics {
        Some(m) => match find_first(entities, m.zone_id@) {
            Some(b) => EventNotification { metrics: Some(reconciled(m, b)), ..data },
            None => data,
        },
        None => data,
    }
}

/// The summary of a stream that ended without a completion record.
pub open spec fn fallback_summary(events: nat, errors: nat) -> Seq<char> {
    "Simulation completed with "@ + decimal(events) + " events generated. "@ + decimal(errors)
        + " events were skipped due to parsing errors."@
}

/// How many decode failures of a stream get a preview in the log.
pub const PREVIEW_LIMIT: u64 = 3;

/// The state of one detail-phase stream: the extractor and the counts of
/// what it produced.
pub struct Phase2Session {
    parser: JsonArrayChunkParser,
    event_count: u64,
    parse_errors: u64,
    chunks_found: u64,
    received_complete: bool,
}

impl Phase2Session {
    /// The state of the extractor.
    pub closed spec fn parser_state(&self) -> ParserModel {
        self.parser@
    }

    /// How many events were forwarded.
    pub closed spec fn events(&self) -> u64 {
        self.event_count
    }

    /// How many extracted objects failed to decode.
    pub closed spec fn errors(&self) -> u64 {
        self.parse_errors
    }

    /// How many objects the extractor completed.
    pub closed spec fn extracted(&self) -> u64 {
        self.chunks_found
    }

    /// Whether a completion record was forwarded.
    pub closed spec fn completed(&self) -> bool {
        self.received_complete
    }

    /// How many events were forwarded.
    pub fn event_count(&self) -> (r: u64)
        ensures
            r == self.events(),
    {
        self.event_count
    }

    /// How many extracted objects failed to decode.
    pub fn parse_error_count(&self) -> (r: u64)
        ensures
            r == self.errors(),
    {
        self.parse_errors
    }

    /// How many objects the extractor completed.
    pub fn extracted_count(&self) -> (r: u64)
        ensures
            r == self.extracted(),
    {
        self.chunks_found
    }

    /// Whether a completion record was forwarded.
    pub fn received_complete(&self) -> (r: bool)
        ensures
            r == self.completed(),
    {
        self.received_complete
    }

    /// Whether the latest decode failure is among the first few, whose text
    /// is worth a preview in the log; every failure is counted regardless.
    pub fn preview_wanted(&self) -> (r: bool)
        ensures
            r == (1 <= self.errors() <= PREVIEW_LIMIT),
    {
        1 <= self.parse_errors && self.parse_errors <= PREVIEW_LIMIT
    }

    /// A session that has read nothing.
    pub fn new() -> (r: Phase2Session)
        ensures
            r.parser_state() == initial_model(),
            r.events() == 0,
            r.errors() == 0,
            r.extracted() == 0,
            !r.completed(),
    {
        Phase2Session {
            parser: JsonArrayChunkParser::new(),
            event_count: 0,
            parse_errors: 0,
            chunks_found: 0,
            received_complete: false,
        }
    }

    /// Reads the next slice of generated text; returns the texts of the
    /// objects it completes, in order, for decoding.
    pub fn accept_content(&mut self, content: &str) -> (r: Vec<String>)
        ensures
            final(self).parser_state() == run(old(self).parser_state(), content@).0,
            texts(r@) == run(old(self).parser_state(), content@).1,
            final(self).extracted() == if old(self).extracted() + r@.len() <= u64::MAX {
                old(self).extracted() + r@.len()
            } else {
                u64::MAX as int
            },
            final(self).events() == old(self).events(),
            final(self).errors() == old(self).errors(),
            final(self).completed() == old(self).completed(),
    {
        let found = self.parser.feed(content);
        let n = found.len() as u64;
        self.chunks_found = if self.chunks_found <= u64::MAX - n {
            self.chunks_found + n
        } else {
            u64::MAX
        };
        found
    }

    /// Takes the outcome of decoding one extracted object (`None` when it did
    /// not decode) and returns the record to forward, if any:
    /// - a failure is counted and nothing is forwarded;
    /// - an event is forwarded with its metric update reconciled against the
    ///   first of `entities` named by the update's zone, and counted;
    /// - a progress record is dropped;
    /// - a completion record is forwarded and noted.
    pub fn accept_record(
        &mut self,
        decoded: Option<SimulationChunk>,
        entities: &[NeighborhoodProperties],
    ) -> (r: Option<SimulationChunk>)
        ensures
            final(self).parser_state() == old(self).parser_state(),
            final(self).extracted() == old(self).extracted(),
            match decoded {
                None => {
                    &&& r is None
                    &&& final(self).errors() == bump(old(self).errors())
                    &&& final(self).events() == old(self).events()
                    &&& final(self).completed() == old(self).completed()
                },
                Some(SimulationChunk::Event { data }) => {
                    &&& r == Some(SimulationChunk::Event { data: processed_event(data, entities@) })
                    &&& final(self).errors() == old(self).errors()
                    &&& final(self).events() == bump(old(self).events())
                    &&& final(self).completed() == old(self).completed()
                },
                Some(SimulationChunk::Update { data }) => {
                    &&& r is None
                    &&& final(self).errors() == old(self).errors()
                    &&& final(self).events() == old(self).events()
                    &&& final(self).completed() == old(self).completed()
                },
                Some(SimulationChunk::Complete { data }) => {
                    &&& r == Some(SimulationChunk::Complete { data })
                    &&& final(self).errors() == old(self).errors()
                    &&& final(self).events() == old(self).events()
                    &&& final(self).completed()
                },
            },
    {
        match decoded {
            None => {
                if self.parse_errors < u64::MAX {
                    self.parse_errors = self.parse_errors + 1;
                }
                None
            },
            Some(SimulationChunk::Event { data }) => {
                let mut data = data;
                if let Some(mut metrics) = data.metrics {
                    let found = find_entity(entities, &metrics.zone_id);
                    if let Some(base) = found {
                        complete_interdependent_metrics(&mut metrics, base);
                    }
                    data = EventNotification { metrics: Some(metrics), ..data };
                }
                if self.event_count < u64::MAX {
                    self.event_count = self.event_count + 1;
                }
                Some(SimulationChunk::Event { data })
            },
            Some(SimulationChunk::Update { data }) => None,
            Some(SimulationChunk::Complete { data }) => {
                self.received_complete = true;
                Some(SimulationChunk::Complete { data })
            },
        }
    }

    /// The completion record to send when the stream has ended: `None` where
    /// one was already forwarded, else one that reports the counts.
    pub fn finish(&self) -> (r: Option<SimulationChunk>)
        ensures
            self.completed() ==> r is None,
            !self.completed() ==> (r matches Some(SimulationChunk::Complete { data })
                && data.summary@ == fallback_summary(self.events() as nat, self.errors() as nat)),
    {
        if self.received_complete {
            return None;
        }
        let mut summary = String::new();
        push_str(&mut summary, "Simulation completed with ");
        push_decimal(&mut summary, self.event_count);
        push_str(&mut summary, " events generated. ");
        push_decimal(&mut summary, self.parse_errors);
        push_str(&mut summary, " events were skipped due to parsing errors.");
        Some(SimulationChunk::Complete { data: SimulationComplete { summary } })
    }
}

/// Where a simulation run stands.
#[derive(Clone, Copy, Debug, PartialEq, Eq, Structural)]
pub enum RunState {
    Idle,
    Phase1Pending,
    Phase1Done,
    Phase2Streaming,
    /// Ended on a completion record from the service.
    Completed,
    /// Ended on a completion record made from the counts.
    CompletedByFallback,
    /// Ended on an error, before any record.
    Aborted,
}

/// What happens to a run.
#[derive(Clone, Copy, Debug, PartialEq, Eq, Structural)]
pub enum RunEvent {
    /// The identification request is sent.
    Start,
    /// The identification phase named neighborhoods that resolve.
    Phase1Succeeded,
    /// The identification phase, or the resolution of its names, failed.
    Phase1Failed,
    /// The detail request was answered and its stream opened.
    Phase2Opened,
    /// The detail request failed.
    Phase2Failed,
    /// The detail stream ended; `completed` tells whether a completion
    /// record came from the service.
    StreamEnded { completed: bool },
}

/// Whether a run has ended.
pub open spec fn is_terminal(s: RunState) -> bool {
    s is Completed || s is CompletedByFallback || s is Aborted
}

/// The state after `event`; an event that does not fit the state leaves it
/// unchanged.
pub open spec fn run_transition(s: RunState, e: RunEvent) -> RunState {
    match (s, e) {
        (RunState::Idle, RunEvent::Start) => RunState::Phase1Pending,
        (RunState::Phase1Pending, RunEvent::Phase1Succeeded) => RunState::Phase1Done,
        (RunState::Phase1Pending, RunEvent::Phase1Failed) => RunState::Aborted,
        (RunState::Phase1Done, RunEvent::Phase2Opened) => RunState::Phase2Streaming,
        (RunState::Phase1Done, RunEvent::Phase2Failed) => RunState::Aborted,
        (RunState::Phase2Streaming, RunEvent::StreamEnded { completed }) => if completed {
            RunState::Completed
        } else {
            RunState::CompletedByFallback
        },
        _ => s,
    }
}

impl RunState {
    /// The state after `event`. No retry is made: a failure ends the run, and
    /// an ended run stays where it ended.
    pub fn next(self, event: RunEvent) -> (r: RunState)
        ensures
            r == run_transition(self, event),
            is_terminal(self) ==> r == self,
    {
        match (self, event) {
            (RunState::Idle, RunEvent::Start) => RunState::Phase1Pending,
            (RunState::Phase1Pending, RunEvent::Phase1Succeeded) => RunState::Phase1Done,
            (RunState::Phase1Pending, RunEvent::Phase1Failed) => RunState::Aborted,
            (RunState::Phase1Done, RunEvent::Phase2Opened) => RunState::Phase2Streaming,
            (RunState::Phase1Done, RunEvent::Phase2Failed) => RunState::Aborted,
            (RunState::Phase2Streaming, RunEvent::StreamEnded { completed }) => if completed {
                RunState::Completed
            } else {
                RunState::CompletedByFallback
            },
            _ => self,
        }
    }

    /// Whether the run has ended.
    pub fn is_terminal(self) -> (r: bool)
        ensures
            r == is_terminal(self),
    {
        match self {
            RunState::Completed | RunState::CompletedByFallback | RunState::Aborted => true,
            _ => false,
        }
    }
}

/// A run ends at most once: after a terminal state, no sequence of events
/// leads anywhere else.
pub proof fn lemma_terminal_is_final(s: RunState, events: Seq<RunEvent>)
    requires
        is_terminal(s),
    ensures
        events.fold_left(s, |acc: RunState, e: RunEvent| run_transition(acc, e)) == s,
    decreases events.len(),
{
    if events.len() > 0 {
        lemma_terminal_is_final(s, events.drop_last());
    }
}

} // verus!
