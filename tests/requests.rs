use city_sim::{
    default_frequency_penalty, default_presence_penalty, default_temperature, default_top_p,
    ChatCompletionRequest,
    phase1_content, Phase1Envelope,
    build_minimal_context, build_neighborhoods_context, build_phase1_system_prompt,
    build_phase1_user_prompt, build_phase2_user_prompt, build_system_prompt, check_status,
    default_model, exceeds_soft_cap, is_false, lookup_neighborhoods_by_names, range_guidance,
    strip_code_fence, validate_target_names, Commute, Delta, Derived, EducationDistribution,
    Fixed, Message, MessageRole, MinimalNeighborhoodContext, NeighborhoodDatabase,
    NeighborhoodProperties, RaceDistribution, SimulationError, StreamChoice, StreamResponse,
};

fn fx(micros: i64) -> Fixed {
    Fixed::from_micros(micros)
}

fn entity(name: &str, population: i32) -> NeighborhoodProperties {
    NeighborhoodProperties {
        name: name.to_string(),
        npu: "M".to_string(),
        area_acres: fx(100_000_000),
        population_total: population,
        median_age: fx(31_000_000),
        population_density: fx(10_000_000),
        median_income: 52000,
        median_home_value: 310000,
        affordability_index: fx(1_000_000),
        housing_units: 420,
        households: 380,
        vacant_units: 20,
        vacancy_rate: fx(4_760_000),
        owner_occupancy: fx(41_250_000),
        housing_density: fx(4_000_000),
        education_distribution: EducationDistribution {
            high_school_or_less: fx(30_000_000),
            some_college: fx(30_000_000),
            bachelors: fx(25_000_000),
            graduate: fx(15_040_000),
        },
        race_distribution: RaceDistribution {
            white: fx(40_000_000),
            black: fx(39_960_000),
            asian: fx(10_000_000),
            mixed: fx(5_000_000),
            hispanic: fx(5_040_000),
        },
        diversity_index: fx(655_000),
        livability_index: fx(-2_350_000),
        commute: Commute {
            avg_minutes: fx(25_500_000),
            car_dependence: fx(60_000_000),
            transit_usage: fx(20_000_000),
        },
        derived: Derived { higher_ed_percent: fx(40_040_000), density_index: fx(10_000_000) },
        baseline_description: Some("Dense and walkable".to_string()),
        current_events: Some(vec!["Festival".to_string(), "Road work".to_string()]),
        neighboring_neighborhoods: None,
    }
}

#[test]
fn minimal_context_lists_each_neighborhood() {
    assert_eq!(
        build_minimal_context(&[]),
        "No specific neighborhood data provided. Use general Atlanta neighborhood characteristics."
    );
    let ctx = vec![
        MinimalNeighborhoodContext {
            name: "Downtown".to_string(),
            baseline_description: Some("Core".to_string()),
            current_events: Some(vec!["Parade".to_string(), "Rally".to_string()]),
            neighboring_neighborhoods: Some(vec!["Midtown".to_string(), "Castleberry Hill".to_string()]),
        },
        MinimalNeighborhoodContext {
            name: "Kirkwood".to_string(),
            baseline_description: None,
            current_events: None,
            neighboring_neighborhoods: None,
        },
    ];
    assert_eq!(
        build_minimal_context(&ctx),
        "Neighborhood: Downtown\nBaseline Description: Core\nCurrent Events: Parade; Rally\nNeighboring Neighborhoods: Midtown, Castleberry Hill\n\n---\n\nNeighborhood: Kirkwood\nBaseline Description: No baseline description available\nCurrent Events: None specified\nNeighboring Neighborhoods: None specified"
    );
}

#[test]
fn full_context_formats_every_figure() {
    let text = build_neighborhoods_context(&[entity("Midtown", 1500)]);
    assert_eq!(
        text,
        "Neighborhood: Midtown\nArea: 0.16 sq miles\nPopulation: 1500\nMedian Income: $52000\nMedian Home Value: $310000\nHousing Units: 420\nVacancy Rate: 4.8%\nOwner Occupancy: 41.3%\nDiversity Index: 0.66\nLivability Index: -2.4\nAverage Commute: 25.5 minutes\nCar Dependence: 60.0%\nTransit Usage: 20.0%\nEducation: 40.0% Bachelor's+, 15.0% Graduate\nRace Distribution: White 40.0%, Black 40.0%, Asian 10.0%, Mixed 5.0%, Hispanic 5.0%\nBaseline Description: Dense and walkable\nCurrent Events: Festival; Road work\nNeighboring Neighborhoods: None specified"
    );
    let two = build_neighborhoods_context(&[entity("A", -7), entity("B", 0)]);
    assert!(two.contains("Population: -7\n"));
    assert!(two.contains("\n\n---\n\nNeighborhood: B\n"));
    assert_eq!(
        build_neighborhoods_context(&[]),
        "No specific neighborhood data provided. Use general Atlanta neighborhood characteristics."
    );
}

#[test]
fn system_prompts_wrap_the_context() {
    let p1 = build_phase1_system_prompt("CTX-ONE");
    assert!(p1.starts_with("You are an expert urban planning analyst"));
    assert!(p1.contains("Neighborhood Context Data:\nCTX-ONE\n\nCRITICAL OUTPUT FORMAT REQUIREMENTS:"));
    assert!(p1.contains("{\"neighborhoods\": [\"Downtown\", \"Midtown\", \"Buckhead\"]}"));
    let p2 = build_system_prompt("CTX-TWO");
    assert!(p2.contains("GROUNDING DATA:\nCTX-TWO\n\nOUTPUT FORMAT (CRITICAL):"));
    assert!(p2.contains("- Each element: {\"type\": \"...\", \"data\": {...}}"));
    assert!(p2.ends_with("NO markdown, NO explanations, NO text outside the JSON array"));
}

#[test]
fn identification_request_scales_with_selected_zones() {
    let none = build_phase1_user_prompt("Add bike lanes", &[]);
    assert!(none.starts_with("Policy Proposal: Add bike lanes\n\nSelected Zones: All neighborhoods may be affected"));
    assert!(none.contains("(0 zones)"));
    assert!(none.contains("Based on 0 selected zones, return approximately 3-6 neighborhoods (few zones selected)."));
    let zones: Vec<String> = (1..=9).map(|i| format!("Z{}", i)).collect();
    let many = build_phase1_user_prompt("Add bike lanes", &zones);
    assert!(many.contains("Selected Zones: Focus on these neighborhoods: Z1, Z2, Z3, Z4, Z5, Z6, Z7, Z8, Z9 (9 zones)"));
    assert!(many.contains("return approximately 12-18 neighborhoods (many zones selected)."));
    assert_eq!(range_guidance(3), "3-6 neighborhoods (few zones selected)");
    assert_eq!(range_guidance(4), "6-12 neighborhoods (moderate zones selected)");
    assert_eq!(range_guidance(8), "6-12 neighborhoods (moderate zones selected)");
    assert_eq!(range_guidance(9), "12-18 neighborhoods (many zones selected)");
}

#[test]
fn detail_request_names_the_targets() {
    let r = build_phase2_user_prompt("Raise taxes", &["A".to_string(), "B".to_string()]);
    assert!(r.starts_with("Policy Proposal: Raise taxes\n\nTarget Neighborhoods: A, B\n\nAnalyze the policy scope"));
    assert!(r.contains("METRICS REQUIREMENTS (MANDATORY):\n1. Every event"));
    assert!(r.ends_with("No markdown, comments, or prose outside the array."));
}

#[test]
fn fences_are_removed_from_identification_answers() {
    assert_eq!(strip_code_fence("  ```json\n{\"neighborhoods\": [\"A\"]}\n```  "), "{\"neighborhoods\": [\"A\"]}");
    assert_eq!(strip_code_fence("```\n[\"A\", \"B\"]\n``````"), "[\"A\", \"B\"]");
    assert_eq!(strip_code_fence("\t{\"names\": []}\n"), "{\"names\": []}");
    assert_eq!(strip_code_fence(""), "");
}

#[test]
fn identification_results_are_checked() {
    assert_eq!(check_status(200), Ok(()));
    assert_eq!(check_status(299), Ok(()));
    assert_eq!(check_status(404), Err(SimulationError::UpstreamStatus { status: 404 }));
    assert_eq!(check_status(199), Err(SimulationError::UpstreamStatus { status: 199 }));
    assert_eq!(validate_target_names(vec![]), Err(SimulationError::NoTargets));
    assert_eq!(validate_target_names(vec!["A".to_string()]), Ok(vec!["A".to_string()]));
    assert!(!exceeds_soft_cap(18));
    assert!(exceeds_soft_cap(19));
}

#[test]
fn registry_keeps_the_last_record_of_a_name() {
    let table = lookup_neighborhoods_by_names(&[entity("A", 1), entity("B", 2), entity("A", 3)]);
    assert_eq!(table.count(), 2);
    assert_eq!(table.find_by_name("A").unwrap().population_total, 3);
    assert_eq!(table.find_by_name("B").unwrap().population_total, 2);
    assert!(table.find_by_name("C").is_none());
    let some = table.find_by_names(&["B".to_string(), "C".to_string()]);
    assert_eq!(some.count(), 1);
    assert_eq!(some.find_by_name("B").unwrap().population_total, 2);
    assert!(some.find_by_name("A").is_none());
    let mut db = NeighborhoodDatabase::empty();
    assert_eq!(db.count(), 0);
    db.insert(entity("X", 5));
    db.insert(entity("X", 6));
    assert_eq!(db.count(), 1);
    assert_eq!(db.find_by_name("X").unwrap().population_total, 6);
}

#[test]
fn copies_keep_every_field() {
    let e = entity("A", 9);
    assert_eq!(e.duplicate(), e);
}

#[test]
fn small_helpers() {
    assert_eq!(default_model(), "DeepSeek-V3.1");
    assert!(is_false(&false));
    assert!(!is_false(&true));
    let m = Message::new(MessageRole::User, "hi".to_string());
    assert_eq!(m.role, MessageRole::User);
    assert_eq!(m.content, "hi");
    let resp = StreamResponse {
        choices: vec![StreamChoice { delta: Delta { content: "[{".to_string() } }],
        usage: None,
    };
    assert_eq!(resp.delta_content(), Some("[{".to_string()));
    let empty = StreamResponse {
        choices: vec![StreamChoice { delta: Delta { content: String::new() } }],
        usage: None,
    };
    assert_eq!(empty.delta_content(), None);
    assert_eq!(StreamResponse { choices: vec![], usage: None }.delta_content(), None);
}

#[test]
fn identification_envelope_decisions() {
    let ok = Phase1Envelope {
        has_error: false,
        choice_count: 1,
        content: Some("```json\n{\"neighborhoods\": [\"A\"]}\n```".to_string()),
    };
    assert_eq!(phase1_content(&ok), Ok("{\"neighborhoods\": [\"A\"]}".to_string()));
    let err = Phase1Envelope { has_error: true, choice_count: 1, content: Some("x".to_string()) };
    assert_eq!(phase1_content(&err), Err(SimulationError::UpstreamError));
    let no_choice = Phase1Envelope { has_error: false, choice_count: 0, content: None };
    assert_eq!(phase1_content(&no_choice), Err(SimulationError::MalformedResponse));
    let no_content = Phase1Envelope { has_error: false, choice_count: 2, content: None };
    assert_eq!(phase1_content(&no_content), Err(SimulationError::MalformedResponse));
}

#[test]
fn phase_requests_carry_their_parameters() {
    let one = ChatCompletionRequest::identification("sys".to_string(), "usr".to_string());
    assert!(!one.stream);
    assert_eq!(one.temperature, Fixed::from_micros(700_000));
    assert_eq!(one.top_p, default_top_p());
    assert_eq!(one.max_tokens, Some(2048));
    assert_eq!(one.model, "DeepSeek-V3.1");
    assert_eq!(one.messages.len(), 2);
    assert_eq!(one.messages[0].role, MessageRole::System);
    assert_eq!(one.messages[0].content, "sys");
    assert_eq!(one.messages[1].role, MessageRole::User);
    assert_eq!(one.messages[1].content, "usr");
    assert_eq!(one.response_format.unwrap().format_type, "json_object");
    let two = ChatCompletionRequest::generation("a".to_string(), "b".to_string());
    assert!(two.stream);
    assert_eq!(two.temperature, default_temperature());
    assert_eq!(default_temperature().micros, 800_000);
    assert_eq!(default_top_p().micros, 100_000);
    assert_eq!(default_presence_penalty().micros, 0);
    assert_eq!(default_frequency_penalty().micros, 0);
    assert!(two.response_format.is_none());
}
