//! The text of the requests sent to the generation service.

use vstd::prelude::*;

use crate::fixed::{decimal_text, push_decimal_text, push_signed, signed_decimal};
use crate::text::{decimal, joined, push_decimal, push_joined, push_str};
use crate::types::{MinimalNeighborhoodContext, NeighborhoodProperties};

verus! {

/// Instructions of the identification phase, before the neighborhood context.
pub const IDENTIFY_SYSTEM_HEAD: &'static str = "You are an expert urban planning analyst for the city of Atlanta, Georgia. Your role is to analyze policy proposals and identify which neighborhoods would be impacted.\n\nWhen given a policy proposal, you must:\n1. Analyze the policy to determine its scope and potential impacts\n2. Consider the baseline descriptions, current events, and neighboring neighborhoods to understand context and connections\n3. Identify neighborhoods that would be directly or indirectly affected by this policy\n4. Include neighborhoods that would experience spillover effects or secondary impacts\n5. Select neighborhoods based on realistic policy impact analysis - prioritize the most impacted neighborhoods\n6. Return a DYNAMIC number of neighborhoods (3-18 range) based on the number of selected zones and policy scope:\n   * Few selected zones (1-3): Return 3-6 neighborhoods\n   * Moderate selected zones (4-8): Return 6-12 neighborhoods\n   * Many selected zones (9+): Return 12-18 neighborhoods\n   * The number should reflect both the selected zones count and actual impact scope - don't pad with unnecessary neighborhoods\n\nNeighborhood Context Data:\n";

/// Instructions of the identification phase, after the neighborhood context.
pub const IDENTIFY_SYSTEM_TAIL: &'static str = "\n\nCRITICAL OUTPUT FORMAT REQUIREMENTS:\nYou MUST return a valid JSON object with a \"neighborhoods\" array. The response must be:\n- A JSON object with a \"neighborhoods\" field containing an array of strings\n- Each string is the exact neighborhood name\n- NO markdown code blocks (no ```json or ```)\n- NO explanatory text before or after the JSON\n- NO comments or additional formatting\n- Valid JSON that can be parsed directly\n- Return 3-18 neighborhoods based on selected zones count and policy scope (not always the maximum)\n\nExample output formats:\nFew zones (1-3 selected): {\"neighborhoods\": [\"Downtown\", \"Midtown\", \"Buckhead\"]}\nModerate zones (4-8 selected): {\"neighborhoods\": [\"Downtown\", \"Midtown\", \"Buckhead\", \"West End\", \"Grant Park\", \"Cabbagetown\", \"Old Fourth Ward\", \"Inman Park\"]}\nMany zones (9+ selected): {\"neighborhoods\": [\"Downtown\", \"Midtown\", \"Buckhead\", \"West End\", \"Grant Park\", \"Cabbagetown\", \"Old Fourth Ward\", \"Inman Park\", \"Virginia-Highland\", \"Poncey-Highland\", \"Little Five Points\", \"East Atlanta\", \"Reynoldstown\", \"Edgewood\", \"Kirkwood\", \"Ormewood Park\", \"East Lake\", \"Candler Park\"]}\n\nCRITICAL: Return a DYNAMIC number of neighborhoods (3-18) that accurately reflects both the number of selected zones and the policy's actual impact scope. Base your count on the selected zones - if few zones are selected, return fewer neighborhoods; if many zones are selected, return more neighborhoods.\n\nReturn ONLY the JSON object with the neighborhoods array, nothing else.";

/// Instructions of the detail phase, before the neighborhood data.
pub const GENERATE_SYSTEM_HEAD: &'static str = "You are an expert urban planning simulation AI for the city of Atlanta, Georgia. Your role is to generate realistic events that would occur as a result of a policy implementation in specific neighborhoods.\n\nROLE: Generate realistic events that would occur from policy implementation in specific neighborhoods.\n\nGROUNDING DATA:\n";

/// Instructions of the detail phase, after the neighborhood data.
pub const GENERATE_SYSTEM_TAIL: &'static str = "\n\nOUTPUT FORMAT (CRITICAL):\nYou MUST return a valid JSON array. Requirements:\n- Start with [ and end with ]\n- Each element: {\"type\": \"...\", \"data\": {...}}\n- NO markdown code blocks (no ```json or ```)\n- NO text before or after JSON\n- Valid, parseable JSON only\n\nEXAMPLE OUTPUT:\n[\n  {\"type\": \"event\", \"data\": {\n    \"id\": \"event-1\",\n    \"zoneId\": \"Downtown\",\n    \"zoneName\": \"Downtown\",\n    \"type\": \"infrastructure\",\n    \"title\": \"Water Service Disruption Begins\",\n    \"description\": \"Extended water shutdown forces temporary relocation of 500 residents. Emergency water distribution centers established.\",\n    \"severity\": 0.8,\n    \"positivity\": -0.7,\n    \"coordinates\": [33.755, -84.389],\n    \"metrics\": {\n      \"zoneId\": \"Downtown\",\n      \"zoneName\": \"Downtown\",\n      \"population_total\": 4800,\n      \"derived\": {\"higher_ed_percent\": 45.2, \"density_index\": 12.5}\n    }\n  }},\n  {\"type\": \"event\", \"data\": {\n    \"id\": \"event-2\",\n    \"zoneId\": \"Midtown\",\n    \"zoneName\": \"Midtown\",\n    \"type\": \"economic\",\n    \"title\": \"Business Closures Due to Water Crisis\",\n    \"description\": \"Restaurants and cafes forced to close, affecting 200 jobs.\",\n    \"severity\": 0.6,\n    \"positivity\": -0.5,\n    \"coordinates\": [33.784, -84.384],\n    \"metrics\": {\n      \"zoneId\": \"Midtown\",\n      \"zoneName\": \"Midtown\",\n      \"median_income\": 52000\n    }\n  }},\n  {\"type\": \"complete\", \"data\": {\n    \"summary\": \"Water shutdown resulted in temporary population displacement, business closures, and increased emergency service coordination across affected neighborhoods.\"\n  }}\n]\n\nCHUNK TYPES:\n\n1. Event chunks (REQUIRED: include metrics with ALL fields that change):\n   {\"type\": \"event\", \"data\": {\n     \"id\": \"event-<index>\",\n     \"zoneId\": \"<neighborhood-name>\",\n     \"zoneName\": \"<neighborhood-name>\",\n     \"type\": \"<dynamic-event-type>\",\n     \"title\": \"<concise-event-title>\",\n     \"description\": \"<detailed description>\",\n     \"severity\": <0.0-1.0>,\n     \"positivity\": <-1.0 to 1.0>,\n     \"coordinates\": [<latitude>, <longitude>],\n     \"metrics\": {\n       \"zoneId\": \"<neighborhood-name>\",\n       \"zoneName\": \"<neighborhood-name>\",\n       (REQUIRED: include at least ONE concrete metric - population_total, median_income, housing_units, etc. - NOT just abstract indices)\n       (include ALL fields that change for this event - estimate and guess when appropriate)\n     } (MANDATORY: every event must affect at least one concrete metric)\n   }}\n\n2. Complete chunk (exactly one, at the end):\n   {\"type\": \"complete\", \"data\": {\n     \"summary\": \"<brief summary of events and results>\"\n   }}\n\nINTERDEPENDENCY RULES (MANDATORY):\n- Changing \"education_distribution\" → update \"derived.higher_ed_percent\" = bachelors + graduate\n- Changing \"race_distribution\" → update \"diversity_index\" using Shannon diversity: 1 - Σ(p²)\n- Changing \"population_total\" → update \"derived.density_index\" = population_total / area_acres\n- CRITICAL: If you include a \"derived\" object, it MUST have BOTH \"higher_ed_percent\" AND \"density_index\" (never partial)\n\nMANDATORY METRICS RULE:\n- EVERY event MUST include a \"metrics\" object with at least ONE concrete metric that changes\n- The metric MUST be a concrete, measurable value - NOT abstract indices like \"livability_index\" or \"affordability_index\" alone\n- Valid concrete metrics include: population_total, median_income, median_home_value, housing_units, vacant_units, vacancy_rate, owner_occupancy, households, median_age, population_density, housing_density, education_distribution, race_distribution, commute.avg_minutes, etc.\n- Abstract indices (livability_index, affordability_index, diversity_index) can be included BUT only alongside concrete metrics - never as the only metric\n- If an event doesn't affect any concrete metrics, it's not a valid event - every event must change something measurable\n\nGUIDELINES:\n- Event count: Generate a DYNAMIC number of events (3-13 range) based on policy complexity and scope:\n  * Simple, focused policies (e.g., single infrastructure change): 3-6 events\n  * Moderate policies (e.g., multi-neighborhood program): 5-10 events\n  * Complex, wide-ranging policies (e.g., city-wide initiative): 8-13 events\n  * The number should reflect the actual impact scope - don't pad with unnecessary events\n- Use exact neighborhood names from provided data for zoneId and zoneName\n- Event \"type\": descriptive category (e.g., \"transportation\", \"housing\", \"economic\", \"infrastructure\")\n- Event \"title\": 3-8 words, concise and specific\n- Metrics: DO NOT limit yourself - include ALL metrics that the event would realistically affect. It is GOOD to estimate and guess based on the event's nature. Think comprehensively about cascading effects:\n  * Direct impacts: What metrics does this event directly change?\n  * Indirect impacts: What secondary effects would this event cause?\n  * Ripple effects: What other metrics might be affected downstream?\n  * Examples: If an event affects housing, consider population, income, education, diversity, affordability, vacancy rates, etc.\n  * If an event affects transportation, consider commute times, population density, economic activity, etc.\n  * Estimate values when you don't have exact data - reasonable estimates are better than omitting metrics\n  * Include multiple related metrics that make sense together - don't be conservative\n  * REMEMBER: At minimum, include at least one concrete metric (not just abstract indices)\n- Distribution objects: When included, provide ALL fields (complete objects only)\n- Make changes realistic and proportional to the policy's scope\n- Consider both positive and negative impacts\n- Each event is like a news headline: specific, impactful, and tied to a location\n- Quality over quantity: Generate only meaningful events that represent real impacts\n\nFALLBACK:\nIf you cannot generate valid events for any reason, return a complete chunk with an error summary:\n{\"type\": \"complete\", \"data\": {\"summary\": \"Unable to generate events: [reason]\"}}\n\nFINAL REMINDERS:\n- Return ONLY the JSON array, nothing else\n- If including \"derived\" object, BOTH \"higher_ed_percent\" AND \"density_index\" are required\n- NO markdown, NO explanations, NO text outside the JSON array";

/// Label of the policy text in a request.
pub const POLICY_LABEL: &'static str = "Policy Proposal: ";

/// Label of the selected zones in the identification request.
pub const ZONES_LABEL: &'static str = "\n\nSelected Zones: ";

/// Text before the count of selected zones.
pub const ZONE_COUNT_OPEN: &'static str = " (";

/// Instructions of the identification request, before the count of zones.
pub const IDENTIFY_SCOPE: &'static str = " zones)\n\nAnalyze the policy scope and the number of selected zones, then identify a DYNAMIC number of neighborhoods (3-18 range) that would be directly or indirectly affected. Based on ";

/// Text before the range of neighborhoods to return.
pub const IDENTIFY_APPROXIMATELY: &'static str = " selected zones, return approximately ";

/// Closing instructions of the identification request.
pub const IDENTIFY_CLOSING: &'static str = ". Include neighborhoods that would experience spillover effects or secondary impacts. Return a JSON object with a \"neighborhoods\" array containing the neighborhood names. The count should reflect both the selected zones count and the policy's actual impact scope.";

/// Label of the target neighborhoods in the detail request.
pub const TARGETS_LABEL: &'static str = "\n\nTarget Neighborhoods: ";

/// Instructions of the detail request.
pub const GENERATE_INSTRUCTIONS: &'static str = "\n\nAnalyze the policy scope and complexity, then generate a DYNAMIC number of realistic events (3-13 total) that matches the true impact radius. Simple policies: 3-6 events. Multi-neighborhood programs: 5-10 events. Large or transformational policies: 8-13 events. Never emit filler events.\n\nMETRICS REQUIREMENTS (MANDATORY):\n1. Every event MUST include a partial \"metrics\" object referencing ONLY the fields that change in that zone.\n2. Always read the provided neighborhood baselines and output the UPDATED absolute values (not deltas).\n3. Each event must change at least one concrete metric in a meaningful way:\n• Populations / households / housing units: adjust by ≥0.5% of the baseline (minimum 25 units) unless the narrative justifies more.\n• Rates / percentages (vacancy_rate, owner_occupancy, distributions, commute shares): adjust by ≥1 percentage point and stay within 0-100.\n• Currency metrics (median_income, median_home_value): adjust by ≥2% of the baseline or ≥$500, whichever is greater.\n• Commute minutes and similar scalars: adjust by ≥0.5 minutes.\n4. If a policy would cause no measurable change in a neighborhood, do NOT generate an event for that neighborhood.\n5. When a metric changes, include related metrics that logically move with it (population ↔ households ↔ density, housing ↔ vacancy ↔ affordability, etc.). Consider direct, indirect, and ripple effects.\n6. Keep changes realistic: avoid microscopic tweaks and avoid impossible swings (>50% change) unless you explicitly describe a crisis-level shift.\n7. Distribution objects (race_distribution, education_distribution) must include every key and normalize to 100. When they change, also update dependent derived values (diversity_index, derived.higher_ed_percent).\n8. If you output a derived object, it MUST include BOTH higher_ed_percent and density_index computed from the new values.\n9. Abstract indices (livability_index, affordability_index, diversity_index) may appear ONLY in addition to concrete metrics.\n\nCOHESION:\n- Metrics must align with the event narrative/severity.\n- Cascading effects are encouraged—estimate secondary impacts rather than leaving them untouched.\n- Never copy the baseline numbers; adjust them intentionally per the thresholds above.\n\nCRITICAL OUTPUT RULE:\nReturn ONLY the valid JSON array described in the system prompt. No markdown, comments, or prose outside the array.";

/// The model that serves both phases.
pub const DEFAULT_MODEL: &'static str = "DeepSeek-V3.1";

/// The context sent when no neighborhood data is given.
pub const NO_CONTEXT: &'static str = "No specific neighborhood data provided. Use general Atlanta neighborhood characteristics.";

/// Stands for a missing baseline description.
pub const NO_BASELINE: &'static str = "No baseline description available";

/// Stands for a missing list.
pub const NONE_SPECIFIED: &'static str = "None specified";

/// Separates the neighborhoods of a context.
pub const ENTRY_SEPARATOR: &'static str = "\n\n---\n\n";

/// Stands for an empty selection of zones.
pub const ALL_ZONES: &'static str = "All neighborhoods may be affected (analyze which ones would realistically be impacted by this policy)";

/// Precedes the list of selected zones.
pub const FOCUS_LABEL: &'static str = "Focus on these neighborhoods: ";

/// Range asked for when at most three zones are selected.
pub const FEW_ZONES: &'static str = "3-6 neighborhoods (few zones selected)";

/// Range asked for when four to eight zones are selected.
pub const MODERATE_ZONES: &'static str = "6-12 neighborhoods (moderate zones selected)";

/// Range asked for when more zones are selected.
pub const MANY_ZONES: &'static str = "12-18 neighborhoods (many zones selected)";

/// The model that serves both phases.
pub fn default_model() -> (r: String)
    ensures
        r@ == DEFAULT_MODEL@,
{
    String::from_str(DEFAULT_MODEL)
}

/// Whether a flag is off: an off flag is left out of a request.
pub fn is_false(b: &bool) -> (r: bool)
    ensures
        r == !*b,
{
    !*b
}

/// The instructions of the identification phase around `minimal_context`.
pub fn build_phase1_system_prompt(minimal_context: &str) -> (r: String)
    ensures
        r@ == IDENTIFY_SYSTEM_HEAD@ + minimal_context@ + IDENTIFY_SYSTEM_TAIL@,
{
    let mut r = String::from_str(IDENTIFY_SYSTEM_HEAD);
    push_str(&mut r, minimal_context);
    push_str(&mut r, IDENTIFY_SYSTEM_TAIL);
    r
}

/// The instructions of the detail phase around `neighborhoods_context`.
pub fn build_system_prompt(neighborhoods_context: &str) -> (r: String)
    ensures
        r@ == GENERATE_SYSTEM_HEAD@ + neighborhoods_context@ + GENERATE_SYSTEM_TAIL@,
{
    let mut r = String::from_str(GENERATE_SYSTEM_HEAD);
    push_str(&mut r, neighborhoods_context);
    push_str(&mut r, GENERATE_SYSTEM_TAIL);
    r
}

/// The range of neighborhoods to ask for, by the number of selected zones.
pub open spec fn guidance_for(selected: nat) -> Seq<char> {
    if selected <= 3 {
        FEW_ZONES@
    } else if selected <= 8 {
        MODERATE_ZONES@
    } else {
        MANY_ZONES@
    }
}

/// The range of neighborhoods to ask for: fewer when few zones are selected.
pub fn range_guidance(selected_zones_count: usize) -> (r: &'static str)
    ensures
        r@ == guidance_for(selected_zones_count as nat),
{
    if selected_zones_count <= 3 {
        FEW_ZONES
    } else if selected_zones_count <= 8 {
        MODERATE_ZONES
    } else {
        MANY_ZONES
    }
}

/// The texts of a sequence of strings.
pub open spec fn views(v: Seq<String>) -> Seq<Seq<char>> {
    v.map_values(|t: String| t@)
}

/// How the selected zones are described to the identification phase.
pub open spec fn zones_text(zones: Seq<String>) -> Seq<char> {
    if zones.len() == 0 {
        ALL_ZONES@
    } else {
        FOCUS_LABEL@ + joined(views(zones), ", "@)
    }
}

/// The request of the identification phase.
pub open spec fn phase1_user_text(prompt: Seq<char>, zones: Seq<String>) -> Seq<char> {
    POLICY_LABEL@ + prompt + ZONES_LABEL@ + zones_text(zones) + ZONE_COUNT_OPEN@ + decimal(
        zones.len(),
    ) + IDENTIFY_SCOPE@ + decimal(zones.len()) + IDENTIFY_APPROXIMATELY@ + guidance_for(zones.len())
        + IDENTIFY_CLOSING@
}

/// The request of the identification phase: the policy, the selected zones
/// and how many neighborhoods to return.
pub fn build_phase1_user_prompt(prompt: &str, selected_zones: &[String]) -> (r: String)
    ensures
        r@ == phase1_user_text(prompt@, selected_zones@),
{
    let n = selected_zones.len();
    let mut r = String::from_str(POLICY_LABEL);
    push_str(&mut r, prompt);
    push_str(&mut r, ZONES_LABEL);
    let ghost before_zones = r@;
    if n == 0 {
        push_str(&mut r, ALL_ZONES);
    } else {
        push_str(&mut r, FOCUS_LABEL);
        push_joined(&mut r, selected_zones, ", ");
    }
    assert(r@ =~= before_zones + zones_text(selected_zones@));
    push_str(&mut r, ZONE_COUNT_OPEN);
    push_decimal(&mut r, n as u64);
    push_str(&mut r, IDENTIFY_SCOPE);
    push_decimal(&mut r, n as u64);
    push_str(&mut r, IDENTIFY_APPROXIMATELY);
    push_str(&mut r, range_guidance(n));
    push_str(&mut r, IDENTIFY_CLOSING);
    r
}

/// The request of the detail phase: the policy and the target neighborhoods.
pub fn build_phase2_user_prompt(prompt: &str, target_neighborhoods: &[String]) -> (r: String)
    ensures
        r@ == POLICY_LABEL@ + prompt@ + TARGETS_LABEL@ + joined(views(target_neighborhoods@), ", "@)
            + GENERATE_INSTRUCTIONS@,
{
    let mut r = String::from_str(POLICY_LABEL);
    push_str(&mut r, prompt);
    push_str(&mut r, TARGETS_LABEL);
    push_joined(&mut r, target_neighborhoods, ", ");
    push_str(&mut r, GENERATE_INSTRUCTIONS);
    r
}

/// An optional text, or `fallback` in its absence.
pub open spec fn text_or(o: Option<String>, fallback: Seq<char>) -> Seq<char> {
    match o {
        Some(t) => t@,
        None => fallback,
    }
}

/// An optional list joined by `sep`, or `fallback` in its absence.
pub open spec fn list_or(o: Option<Vec<String>>, sep: Seq<char>, fallback: Seq<char>) -> Seq<char> {
    match o {
        Some(v) => joined(views(v@), sep),
        None => fallback,
    }
}

fn push_text_or(out: &mut String, o: &Option<String>, fallback: &str)
    ensures
        final(out)@ == old(out)@ + text_or(*o, fallback@),
{
    match o {
        Some(t) => push_str(out, t.as_str()),
        None => push_str(out, fallback),
    }
}

fn push_list_or(out: &mut String, o: &Option<Vec<String>>, sep: &str, fallback: &str)
    ensures
        final(out)@ == old(out)@ + list_or(*o, sep@, fallback@),
{
    match o {
        Some(v) => push_joined(out, v.as_slice(), sep),
        None => push_str(out, fallback),
    }
}

/// The description of one neighborhood for the identification phase.
pub open spec fn minimal_entry(n: MinimalNeighborhoodContext) -> Seq<char> {
    "Neighborhood: "@ + n.name@ + "\nBaseline Description: "@ + text_or(n.baseline_description, NO_BASELINE@)
        + "\nCurrent Events: "@ + list_or(n.current_events, "; "@, NONE_SPECIFIED@)
        + "\nNeighboring Neighborhoods: "@ + list_or(n.neighboring_neighborhoods, ", "@, NONE_SPECIFIED@)
}

/// The descriptions of `s`, separated.
pub open spec fn minimal_entries(s: Seq<MinimalNeighborhoodContext>) -> Seq<char>
    decreases s.len(),
{
    if s.len() == 0 {
        Seq::empty()
    } else if s.len() == 1 {
        minimal_entry(s[0])
    } else {
        minimal_entries(s.drop_last()) + ENTRY_SEPARATOR@ + minimal_entry(s.last())
    }
}

fn push_minimal_entry(out: &mut String, n: &MinimalNeighborhoodContext)
    ensures
        final(out)@ == old(out)@ + minimal_entry(*n),
{
    push_str(out, "Neighborhood: ");
    push_str(out, n.name.as_str());
    push_str(out, "\nBaseline Description: ");
    push_text_or(out, &n.baseline_description, NO_BASELINE);
    push_str(out, "\nCurrent Events: ");
    push_list_or(out, &n.current_events, "; ", NONE_SPECIFIED);
    push_str(out, "\nNeighboring Neighborhoods: ");
    push_list_or(out, &n.neighboring_neighborhoods, ", ", NONE_SPECIFIED);
    assert(final(out)@ =~= old(out)@ + minimal_entry(*n));
}

/// The neighborhood context of the identification phase: name, baseline
/// description, current events and neighbors of each neighborhood.
pub fn build_minimal_context(context: &[MinimalNeighborhoodContext]) -> (r: String)
    ensures
        r@ == if context@.len() == 0 {
            NO_CONTEXT@
        } else {
            minimal_entries(context@)
        },
{
    if context.len() == 0 {
        return String::from_str(NO_CONTEXT);
    }
    let mut r = String::new();
    let mut i: usize = 0;
    while i < context.len()
        invariant
            i <= context@.len(),
            r@ == minimal_entries(context@.take(i as int)),
        decreases context@.len() - i,
    {
        let ghost next = context@.take(i + 1);
        assert(next.drop_last() =~= context@.take(i as int));
        assert(next.last() == context@[i as int]);
        if i > 0 {
            push_str(&mut r, ENTRY_SEPARATOR);
        }
        push_minimal_entry(&mut r, &context[i]);
        assert(i == 0 ==> r@ =~= minimal_entry(context@[0]));
        i = i + 1;
    }
    assert(context@.take(context@.len() as int) =~= context@);
    r
}

/// `prefix` followed by the full description of one neighborhood.
#[verifier::opaque]
pub open spec fn with_entity(prefix: Seq<char>, n: NeighborhoodProperties) -> Seq<char> {
    prefix + "Neighborhood: "@ + n.name@ + "\nArea: "@ + decimal_text(n.area_acres.micros as int, 640, 2) + " sq miles\nPopulation: "@ + signed_decimal(n.population_total as int) + "\nMedian Income: $"@ + signed_decimal(n.median_income as int) + "\nMedian Home Value: $"@ + signed_decimal(n.median_home_value as int) + "\nHousing Units: "@ + signed_decimal(n.housing_units as int) + "\nVacancy Rate: "@ + decimal_text(n.vacancy_rate.micros as int, 1, 1) + "%\nOwner Occupancy: "@ + decimal_text(n.owner_occupancy.micros as int, 1, 1) + "%\nDiversity Index: "@ + decimal_text(n.diversity_index.micros as int, 1, 2) + "\nLivability Index: "@ + decimal_text(n.livability_index.micros as int, 1, 1) + "\nAverage Commute: "@ + decimal_text(n.commute.avg_minutes.micros as int, 1, 1) + " minutes\nCar Dependence: "@ + decimal_text(n.commute.car_dependence.micros as int, 1, 1) + "%\nTransit Usage: "@ + decimal_text(n.commute.transit_usage.micros as int, 1, 1) + "%\nEducation: "@ + decimal_text(n.derived.higher_ed_percent.micros as int, 1, 1) + "% Bachelor's+, "@ + decimal_text(n.education_distribution.graduate.micros as int, 1, 1) + "% Graduate\nRace Distribution: White "@ + decimal_text(n.race_distribution.white.micros as int, 1, 1) + "%, Black "@ + decimal_text(n.race_distribution.black.micros as int, 1, 1) + "%, Asian "@ + decimal_text(n.race_distribution.asian.micros as int, 1, 1) + "%, Mixed "@ + decimal_text(n.race_distribution.mixed.micros as int, 1, 1) + "%, Hispanic "@ + decimal_text(n.race_distribution.hispanic.micros as int, 1, 1) + "%\nBaseline Description: "@ + text_or(n.baseline_description, NO_BASELINE@) + "\nCurrent Events: "@ + list_or(n.current_events, "; "@, NONE_SPECIFIED@) + "\nNeighboring Neighborhoods: "@ + list_or(n.neighboring_neighborhoods, ", "@, NONE_SPECIFIED@)
}

/// The full descriptions of `s`, separated.
pub open spec fn entity_entries(s: Seq<NeighborhoodProperties>) -> Seq<char>
    decreases s.len(),
{
    if s.len() == 0 {
        Seq::empty()
    } else if s.len() == 1 {
        with_entity(Seq::empty(), s[0])
    } else {
        with_entity(entity_entries(s.drop_last()) + ENTRY_SEPARATOR@, s.last())
    }
}

fn push_entity(out: &mut String, n: &NeighborhoodProperties)
    ensures
        final(out)@ == with_entity(old(out)@, *n),
{
    reveal(with_entity);
    push_str(out, "Neighborhood: ");
    push_str(out, n.name.as_str());
    push_str(out, "\nArea: ");
    push_decimal_text(out, n.area_acres.micros, 640, 2);
    push_str(out, " sq miles\nPopulation: ");
    push_signed(out, n.population_total as i64);
    push_str(out, "\nMedian Income: $");
    push_signed(out, n.median_income as i64);
    push_str(out, "\nMedian Home Value: $");
    push_signed(out, n.median_home_value as i64);
    push_str(out, "\nHousing Units: ");
    push_signed(out, n.housing_units as i64);
    push_str(out, "\nVacancy Rate: ");
    push_decimal_text(out, n.vacancy_rate.micros, 1, 1);
    push_str(out, "%\nOwner Occupancy: ");
    push_decimal_text(out, n.owner_occupancy.micros, 1, 1);
    push_str(out, "%\nDiversity Index: ");
    push_decimal_text(out, n.diversity_index.micros, 1, 2);
    push_str(out, "\nLivability Index: ");
    push_decimal_text(out, n.livability_index.micros, 1, 1);
    push_str(out, "\nAverage Commute: ");
    push_decimal_text(out, n.commute.avg_minutes.micros, 1, 1);
    push_str(out, " minutes\nCar Dependence: ");
    push_decimal_text(out, n.commute.car_dependence.micros, 1, 1);
    push_str(out, "%\nTransit Usage: ");
    push_decimal_text(out, n.commute.transit_usage.micros, 1, 1);
    push_str(out, "%\nEducation: ");
    push_decimal_text(out, n.derived.higher_ed_percent.micros, 1, 1);
    push_str(out, "% Bachelor's+, ");
    push_decimal_text(out, n.education_distribution.graduate.micros, 1, 1);
    push_str(out, "% Graduate\nRace Distribution: White ");
    push_decimal_text(out, n.race_distribution.white.micros, 1, 1);
    push_str(out, "%, Black ");
    push_decimal_text(out, n.race_distribution.black.micros, 1, 1);
    push_str(out, "%, Asian ");
    push_decimal_text(out, n.race_distribution.asian.micros, 1, 1);
    push_str(out, "%, Mixed ");
    push_decimal_text(out, n.race_distribution.mixed.micros, 1, 1);
    push_str(out, "%, Hispanic ");
    push_decimal_text(out, n.race_distribution.hispanic.micros, 1, 1);
    push_str(out, "%\nBaseline Description: ");
    push_text_or(out, &n.baseline_description, NO_BASELINE);
    push_str(out, "\nCurrent Events: ");
    push_list_or(out, &n.current_events, "; ", NONE_SPECIFIED);
    push_str(out, "\nNeighboring Neighborhoods: ");
    push_list_or(out, &n.neighboring_neighborhoods, ", ", NONE_SPECIFIED);
}

/// The neighborhood context of the detail phase: every figure of each
/// neighborhood, percentages with one decimal, the area in square miles.
pub fn build_neighborhoods_context(properties: &[NeighborhoodProperties]) -> (r: String)
    ensures
        r@ == if properties@.len() == 0 {
            NO_CONTEXT@
        } else {
            entity_entries(properties@)
        },
{
    if properties.len() == 0 {
        return String::from_str(NO_CONTEXT);
    }
    let mut r = String::new();
    let mut i: usize = 0;
    while i < properties.len()
        invariant
            i <= properties@.len(),
            r@ == entity_entries(properties@.take(i as int)),
        decreases properties@.len() - i,
    {
        let ghost next = properties@.take(i + 1);
        assert(next.drop_last() =~= properties@.take(i as int));
        assert(next.last() == properties@[i as int]);
        if i > 0 {
            push_str(&mut r, ENTRY_SEPARATOR);
        }
        push_entity(&mut r, &properties[i]);
        i = i + 1;
    }
    assert(properties@.take(properties@.len() as int) =~= properties@);
    r
}

} // verus!
