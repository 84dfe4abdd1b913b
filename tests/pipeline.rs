use city_sim::{
    classify_line, plan_detail_phase, Commute, Derived, EducationDistribution, EventNotification,
    Fixed, NeighborhoodDatabase, NeighborhoodMetrics, NeighborhoodProperties, Phase2Session,
    RaceDistribution, RunEvent, RunState, SimulationChunk, SimulationComplete, SimulationError, SimulationRequest,
    SimulationUpdate, SseLine, SseLineBuffer,
};
use serde_json::Value;

fn fx(whole: i64) -> Fixed {
    Fixed::from_micros(whole * 1_000_000)
}

fn from_json_number(v: &Value) -> Fixed {
    Fixed::from_micros((v.as_f64().unwrap() * 1_000_000.0).round() as i64)
}

fn entity(name: &str, area: i64) -> NeighborhoodProperties {
    NeighborhoodProperties {
        name: name.to_string(),
        npu: "M".to_string(),
        area_acres: fx(area),
        population_total: 1000,
        median_age: fx(30),
        population_density: fx(10),
        median_income: 50000,
        median_home_value: 300000,
        affordability_index: fx(1),
        housing_units: 400,
        households: 380,
        vacant_units: 20,
        vacancy_rate: fx(5),
        owner_occupancy: fx(40),
        housing_density: fx(4),
        education_distribution: EducationDistribution {
            high_school_or_less: fx(30),
            some_college: fx(30),
            bachelors: fx(25),
            graduate: fx(15),
        },
        race_distribution: RaceDistribution {
            white: fx(40),
            black: fx(40),
            asian: fx(10),
            mixed: fx(5),
            hispanic: fx(5),
        },
        diversity_index: fx(0),
        livability_index: fx(70),
        commute: Commute { avg_minutes: fx(25), car_dependence: fx(60), transit_usage: fx(20) },
        derived: Derived { higher_ed_percent: fx(40), density_index: fx(10) },
        baseline_description: None,
        current_events: None,
        neighboring_neighborhoods: None,
    }
}

/// Decodes a record the way the service's records are shaped; `None` when the
/// text is not a known record.
fn decode(text: &str) -> Option<SimulationChunk> {
    let v: Value = serde_json::from_str(text).ok()?;
    let data = v.get("data")?;
    match v.get("type")?.as_str()? {
        "event" => {
            let s = |k: &str| data.get(k).and_then(|x| x.as_str()).unwrap_or("").to_string();
            let metrics = data.get("metrics").map(|m| {
                let mut out = NeighborhoodMetrics::default();
                out.zone_id = m.get("zoneId").and_then(|x| x.as_str()).unwrap_or("").to_string();
                out.zone_name = m.get("zoneName").and_then(|x| x.as_str()).unwrap_or("").to_string();
                out.population_total = m.get("population_total").and_then(|x| x.as_i64()).map(|p| p as i32);
                out.median_income = m.get("median_income").and_then(|x| x.as_i64()).map(|p| p as i32);
                out
            });
            Some(SimulationChunk::Event {
                data: EventNotification {
                    id: s("id"),
                    zone_id: s("zoneId"),
                    zone_name: s("zoneName"),
                    event_type: s("type"),
                    title: s("title"),
                    description: s("description"),
                    severity: data.get("severity").map(from_json_number).unwrap_or(fx(0)),
                    positivity: data.get("positivity").map(from_json_number).unwrap_or(fx(0)),
                    coordinates: data
                        .get("coordinates")
                        .and_then(|c| c.as_array())
                        .map(|c| c.iter().map(from_json_number).collect())
                        .unwrap_or_default(),
                    metrics,
                },
            })
        }
        "update" => Some(SimulationChunk::Update {
            data: SimulationUpdate {
                expected_event_count: data.get("expected_event_count")?.as_u64()? as u32,
                target_neighborhood_count: data.get("target_neighborhood_count")?.as_u64()? as u32,
            },
        }),
        "complete" => Some(SimulationChunk::Complete {
            data: SimulationComplete { summary: data.get("summary")?.as_str()?.to_string() },
        }),
        _ => None,
    }
}

/// Runs a detail-phase session over `content`, delivered in `pieces`.
fn run_session(pieces: &[&str], entities: &[NeighborhoodProperties]) -> (Vec<SimulationChunk>, Phase2Session) {
    let mut session = Phase2Session::new();
    let mut out = Vec::new();
    for piece in pieces {
        for text in session.accept_content(piece) {
            if let Some(record) = session.accept_record(decode(&text), entities) {
                out.push(record);
            }
        }
    }
    if let Some(last) = session.finish() {
        out.push(last);
    }
    (out, session)
}

const EVENT_A: &str = "{\"type\": \"event\", \"data\": {\"id\": \"event-1\", \"zoneId\": \"A\", \"zoneName\": \"A\", \"type\": \"housing\", \"title\": \"New homes\", \"description\": \"Homes open\", \"severity\": 0.5, \"positivity\": 0.75, \"coordinates\": [33.755, -84.389], \"metrics\": {\"zoneId\": \"A\", \"zoneName\": \"A\", \"population_total\": 500}}}";
const EVENT_B: &str = "{\"type\": \"event\", \"data\": {\"id\": \"event-2\", \"zoneId\": \"B\", \"zoneName\": \"B\", \"type\": \"economic\", \"title\": \"Shops close\", \"description\": \"Closures\", \"severity\": 0.25, \"positivity\": -0.5, \"coordinates\": [33.7, -84.3], \"metrics\": {\"zoneId\": \"B\", \"zoneName\": \"B\", \"median_income\": 52000}}}";
const MALFORMED: &str = "{\"type\": \"event\", \"data\": {\"id\": \"event-x\" \"zoneId\": }}";
const COMPLETE: &str = "{\"type\": \"complete\", \"data\": {\"summary\": \"Two events.\"}}";

#[test]
fn a_malformed_element_is_counted_and_skipped() {
    let stream = format!("[{}, {}, {}]", EVENT_A, MALFORMED, EVENT_B);
    let entities = vec![entity("A", 100), entity("B", 50)];
    let (out, session) = run_session(&[&stream], &entities);
    assert_eq!(session.parse_error_count(), 1);
    assert_eq!(session.event_count(), 2);
    assert_eq!(session.extracted_count(), 3);
    let events: Vec<_> = out.iter().filter(|c| matches!(c, SimulationChunk::Event { .. })).collect();
    assert_eq!(events.len(), 2);
    match out.last().unwrap() {
        SimulationChunk::Complete { data } => assert_eq!(
            data.summary,
            "Simulation completed with 2 events generated. 1 events were skipped due to parsing errors."
        ),
        other => panic!("unexpected last record {:?}", other),
    }
}

#[test]
fn two_phase_run_yields_progress_event_and_completion() {
    let names = vec!["A".to_string(), "B".to_string()];
    let request = SimulationRequest {
        prompt: "Build a light rail line".to_string(),
        selected_zones: vec![],
        neighborhood_context: vec![],
        neighborhood_properties: vec![entity("A", 100), entity("B", 50)],
    };
    let db = NeighborhoodDatabase::empty();
    let plan = plan_detail_phase(&names, &request, &db).unwrap();
    assert_eq!(plan.resolution.entities.len(), 2);
    let mut out = vec![plan.progress.clone()];
    let stream = format!("[{}, {}, {}]", EVENT_A, MALFORMED, COMPLETE);
    let pieces: Vec<String> = stream.chars().collect::<Vec<_>>().chunks(5).map(|c| c.iter().collect()).collect();
    let piece_refs: Vec<&str> = pieces.iter().map(|s| s.as_str()).collect();
    let (records, session) = run_session(&piece_refs, &plan.resolution.entities);
    out.extend(records);
    assert_eq!(out.len(), 3);
    assert_eq!(
        out[0],
        SimulationChunk::Update {
            data: SimulationUpdate { expected_event_count: 2, target_neighborhood_count: 2 }
        }
    );
    match &out[1] {
        SimulationChunk::Event { data } => {
            assert_eq!(data.zone_id, "A");
            assert_eq!(data.severity, Fixed::from_micros(500_000));
            let m = data.metrics.as_ref().unwrap();
            assert_eq!(m.population_total, Some(500));
            assert_eq!(
                m.derived,
                Some(Derived { higher_ed_percent: fx(40), density_index: fx(5) })
            );
        }
        other => panic!("unexpected record {:?}", other),
    }
    assert_eq!(
        out[2],
        SimulationChunk::Complete { data: SimulationComplete { summary: "Two events.".to_string() } }
    );
    assert!(session.received_complete());
    assert_eq!(session.parse_error_count(), 1);
}

#[test]
fn a_stream_without_completion_gets_a_summary() {
    let stream = format!("[{}", EVENT_A);
    let entities = vec![entity("A", 100)];
    let (out, session) = run_session(&[&stream], &entities);
    assert_eq!(out.len(), 2);
    assert!(!session.received_complete());
    match &out[1] {
        SimulationChunk::Complete { data } => {
            assert!(data.summary.contains("1 events generated"));
            assert_eq!(
                data.summary,
                "Simulation completed with 1 events generated. 0 events were skipped due to parsing errors."
            );
        }
        other => panic!("unexpected record {:?}", other),
    }
}

#[test]
fn an_update_from_the_service_is_dropped() {
    let update = "{\"type\": \"update\", \"data\": {\"expected_event_count\": 4, \"target_neighborhood_count\": 2}}";
    let stream = format!("[{}, {}]", update, COMPLETE);
    let (out, session) = run_session(&[&stream], &[]);
    assert_eq!(out.len(), 1);
    assert_eq!(session.parse_error_count(), 0);
    assert_eq!(session.event_count(), 0);
}

#[test]
fn an_event_for_an_unknown_zone_is_forwarded_unchanged() {
    let stream = format!("[{}]", EVENT_A);
    let (out, _) = run_session(&[&stream], &[entity("B", 50)]);
    match &out[0] {
        SimulationChunk::Event { data } => {
            assert_eq!(data.metrics.as_ref().unwrap().derived, None);
        }
        other => panic!("unexpected record {:?}", other),
    }
}

#[test]
fn planning_fails_without_names_or_known_entities() {
    let request = SimulationRequest {
        prompt: "p".to_string(),
        selected_zones: vec![],
        neighborhood_context: vec![],
        neighborhood_properties: vec![entity("A", 100)],
    };
    let db = NeighborhoodDatabase::from_entries(vec![entity("C", 10)]);
    assert_eq!(plan_detail_phase(&[], &request, &db).err(), Some(SimulationError::NoTargets));
    assert_eq!(
        plan_detail_phase(&["Z".to_string()], &request, &db).err(),
        Some(SimulationError::NoEntitiesFound)
    );
    let plan = plan_detail_phase(&["Z".to_string(), "C".to_string(), "A".to_string()], &request, &db).unwrap();
    assert_eq!(plan.resolution.found_from_request, 1);
    assert_eq!(plan.resolution.found_from_db, 1);
    assert_eq!(plan.resolution.missing, vec!["Z".to_string()]);
    let names: Vec<&str> = plan.resolution.entities.iter().map(|e| e.name.as_str()).collect();
    assert_eq!(names, vec!["C", "A"]);
    assert_eq!(
        plan.progress,
        SimulationChunk::Update {
            data: SimulationUpdate { expected_event_count: 2, target_neighborhood_count: 2 }
        }
    );
}

#[test]
fn sse_lines_are_reassembled_across_chunks() {
    let mut buf = SseLineBuffer::new();
    let mut lines = buf.push_chunk("data: {\"a\"");
    assert!(lines.is_empty());
    lines.extend(buf.push_chunk(": 1}\n\ndata: [DO"));
    lines.extend(buf.push_chunk("NE]\n"));
    assert_eq!(lines, vec!["data: {\"a\": 1}".to_string(), String::new(), "data: [DONE]".to_string()]);
    assert_eq!(classify_line(&lines[0]), SseLine::Data("{\"a\": 1}".to_string()));
    assert_eq!(classify_line(&lines[1]), SseLine::Ignored);
    assert_eq!(classify_line(&lines[2]), SseLine::Done);
}

#[test]
fn sse_lines_are_trimmed_and_filtered() {
    assert_eq!(classify_line("  data:   [DONE]  \r"), SseLine::Done);
    assert_eq!(classify_line("data:  {\"x\": 2} \r"), SseLine::Data("{\"x\": 2}".to_string()));
    assert_eq!(classify_line(": keep-alive"), SseLine::Ignored);
    assert_eq!(classify_line("event: message"), SseLine::Ignored);
    assert_eq!(classify_line("data:{}"), SseLine::Ignored);
}

#[test]
fn run_states_end_once() {
    let s = RunState::Idle.next(RunEvent::Start);
    assert_eq!(s, RunState::Phase1Pending);
    assert_eq!(s.next(RunEvent::Phase1Failed), RunState::Aborted);
    let s = s.next(RunEvent::Phase1Succeeded);
    assert_eq!(s, RunState::Phase1Done);
    assert_eq!(s.next(RunEvent::Phase2Failed), RunState::Aborted);
    let s = s.next(RunEvent::Phase2Opened);
    assert_eq!(s, RunState::Phase2Streaming);
    assert!(!s.is_terminal());
    let done = s.next(RunEvent::StreamEnded { completed: true });
    assert_eq!(done, RunState::Completed);
    assert_eq!(s.next(RunEvent::StreamEnded { completed: false }), RunState::CompletedByFallback);
    assert!(done.is_terminal());
    assert_eq!(done.next(RunEvent::Start), RunState::Completed);
    assert_eq!(RunState::Aborted.next(RunEvent::Phase2Opened), RunState::Aborted);
    assert_eq!(RunState::Idle.next(RunEvent::Phase2Opened), RunState::Idle);
}

#[test]
fn only_the_first_failures_get_a_preview() {
    let mut session = Phase2Session::new();
    assert!(!session.preview_wanted());
    let mut wanted = Vec::new();
    for _ in 0..5 {
        assert!(session.accept_record(None, &[]).is_none());
        wanted.push(session.preview_wanted());
    }
    assert_eq!(wanted, vec![true, true, true, false, false]);
    assert_eq!(session.parse_error_count(), 5);
}
