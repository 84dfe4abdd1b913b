//! Neighborhood data, partial metric updates and the records of a simulation
//! stream.
//!
//! Every quantity that is not a count is a [`Fixed`] decimal.

use vstd::prelude::*;

use crate::fixed::Fixed;

verus! {

/// Shares of education levels, in percent.
#[derive(Clone, Copy, Debug, PartialEq, Eq, Structural)]
pub struct EducationDistribution {
    pub high_school_or_less: Fixed,
    pub some_college: Fixed,
    pub bachelors: Fixed,
    pub graduate: Fixed,
}

/// Shares of racial and ethnic groups, in percent.
#[derive(Clone, Copy, Debug, PartialEq, Eq, Structural)]
pub struct RaceDistribution {
    pub white: Fixed,
    pub black: Fixed,
    pub asian: Fixed,
    pub mixed: Fixed,
    pub hispanic: Fixed,
}

/// Commute statistics.
#[derive(Clone, Copy, Debug, PartialEq, Eq, Structural)]
pub struct Commute {
    pub avg_minutes: Fixed,
    pub car_dependence: Fixed,
    pub transit_usage: Fixed,
}

/// Values computed from other fields of the same neighborhood. Both are
/// always present together.
#[derive(Clone, Copy, Debug, PartialEq, Eq, Structural)]
pub struct Derived {
    pub higher_ed_percent: Fixed,
    pub density_index: Fixed,
}

/// The context of one neighborhood that the identification phase sends:
/// no numeric field, to keep the request small.
#[derive(Clone, Debug, PartialEq)]
pub struct MinimalNeighborhoodContext {
    pub name: String,
    pub baseline_description: Option<String>,
    pub current_events: Option<Vec<String>>,
    pub neighboring_neighborhoods: Option<Vec<String>>,
}

/// The full record of a neighborhood; `name` identifies it.
#[derive(Clone, Debug, PartialEq)]
pub struct NeighborhoodProperties {
    pub name: String,
    pub npu: String,
    pub area_acres: Fixed,
    pub population_total: i32,
    pub median_age: Fixed,
    pub population_density: Fixed,
    pub median_income: i32,
    pub median_home_value: i32,
    pub affordability_index: Fixed,
    pub housing_units: i32,
    pub households: i32,
    pub vacant_units: i32,
    pub vacancy_rate: Fixed,
    pub owner_occupancy: Fixed,
    pub housing_density: Fixed,
    pub education_distribution: EducationDistribution,
    pub race_distribution: RaceDistribution,
    pub diversity_index: Fixed,
    pub livability_index: Fixed,
    pub commute: Commute,
    pub derived: Derived,
    pub baseline_description: Option<String>,
    pub current_events: Option<Vec<String>>,
    pub neighboring_neighborhoods: Option<Vec<String>>,
}

/// The texts of an optional list of strings.
pub open spec fn opt_texts(o: Option<Vec<String>>) -> Option<Seq<Seq<char>>> {
    match o {
        Some(v) => Some(v@.map_values(|t: String| t@)),
        None => None,
    }
}

/// The text of an optional string.
pub open spec fn opt_text(o: Option<String>) -> Option<Seq<char>> {
    match o {
        Some(t) => Some(t@),
        None => None,
    }
}

/// A copy of an optional string.
pub(crate) fn copy_opt_string(o: &Option<String>) -> (r: Option<String>)
    ensures
        opt_text(r) == opt_text(*o),
{
    match o {
        Some(t) => Some(t.clone()),
        None => None,
    }
}

/// A copy of an optional list of strings.
pub(crate) fn copy_opt_strings(o: &Option<Vec<String>>) -> (r: Option<Vec<String>>)
    ensures
        opt_texts(r) == opt_texts(*o),
{
    match o {
        Some(v) => {
            let c = v.clone();
            assert(c@.map_values(|t: String| t@) =~= v@.map_values(|t: String| t@));
            Some(c)
        },
        None => None,
    }
}

impl NeighborhoodProperties {
    /// The two records hold the same values.
    pub open spec fn same_as(self, o: NeighborhoodProperties) -> bool {
        &&& self.name@ == o.name@
        &&& self.npu@ == o.npu@
        &&& self.area_acres == o.area_acres
        &&& self.population_total == o.population_total
        &&& self.median_age == o.median_age
        &&& self.population_density == o.population_density
        &&& self.median_income == o.median_income
        &&& self.median_home_value == o.median_home_value
        &&& self.affordability_index == o.affordability_index
        &&& self.housing_units == o.housing_units
        &&& self.households == o.households
        &&& self.vacant_units == o.vacant_units
        &&& self.vacancy_rate == o.vacancy_rate
        &&& self.owner_occupancy == o.owner_occupancy
        &&& self.housing_density == o.housing_density
        &&& self.education_distribution == o.education_distribution
        &&& self.race_distribution == o.race_distribution
        &&& self.diversity_index == o.diversity_index
        &&& self.livability_index == o.livability_index
        &&& self.commute == o.commute
        &&& self.derived == o.derived
        &&& opt_text(self.baseline_description) == opt_text(o.baseline_description)
        &&& opt_texts(self.current_events) == opt_texts(o.current_events)
        &&& opt_texts(self.neighboring_neighborhoods) == opt_texts(o.neighboring_neighborhoods)
    }

    /// A copy of this record.
    pub fn duplicate(&self) -> (r: NeighborhoodProperties)
        ensures
            r.same_as(*self),
    {
        NeighborhoodProperties {
            name: self.name.clone(),
            npu: self.npu.clone(),
            area_acres: self.area_acres,
            population_total: self.population_total,
            median_age: self.median_age,
            population_density: self.population_density,
            median_income: self.median_income,
            median_home_value: self.median_home_value,
            affordability_index: self.affordability_index,
            housing_units: self.housing_units,
            households: self.households,
            vacant_units: self.vacant_units,
            vacancy_rate: self.vacancy_rate,
            owner_occupancy: self.owner_occupancy,
            housing_density: self.housing_density,
            education_distribution: self.education_distribution,
            race_distribution: self.race_distribution,
            diversity_index: self.diversity_index,
            livability_index: self.livability_index,
            commute: self.commute,
            derived: self.derived,
            baseline_description: copy_opt_string(&self.baseline_description),
            current_events: copy_opt_strings(&self.current_events),
            neighboring_neighborhoods: copy_opt_strings(&self.neighboring_neighborhoods),
        }
    }
}

/// A sparse update of a neighborhood: only the fields that change are
/// present.
#[derive(Clone, Debug, PartialEq)]
pub struct NeighborhoodMetrics {
    pub zone_id: String,
    pub zone_name: String,
    pub population_total: Option<i32>,
    pub median_age: Option<Fixed>,
    pub population_density: Option<Fixed>,
    pub median_income: Option<i32>,
    pub median_home_value: Option<i32>,
    pub affordability_index: Option<Fixed>,
    pub housing_units: Option<i32>,
    pub households: Option<i32>,
    pub vacant_units: Option<i32>,
    pub vacancy_rate: Option<Fixed>,
    pub owner_occupancy: Option<Fixed>,
    pub housing_density: Option<Fixed>,
    pub education_distribution: Option<EducationDistribution>,
    pub race_distribution: Option<RaceDistribution>,
    pub diversity_index: Option<Fixed>,
    pub livability_index: Option<Fixed>,
    pub commute: Option<Commute>,
    pub derived: Option<Derived>,
}

impl NeighborhoodMetrics {
    /// The update that changes nothing.
    pub open spec fn is_empty_update(self) -> bool {
        &&& self.zone_id@ == Seq::<char>::empty()
        &&& self.zone_name@ == Seq::<char>::empty()
        &&& self.population_total is None
        &&& self.median_age is None
        &&& self.population_density is None
        &&& self.median_income is None
        &&& self.median_home_value is None
        &&& self.affordability_index is None
        &&& self.housing_units is None
        &&& self.households is None
        &&& self.vacant_units is None
        &&& self.vacancy_rate is None
        &&& self.owner_occupancy is None
        &&& self.housing_density is None
        &&& self.education_distribution is None
        &&& self.race_distribution is None
        &&& self.diversity_index is None
        &&& self.livability_index is None
        &&& self.commute is None
        &&& self.derived is None
    }
}

impl Default for NeighborhoodMetrics {
    fn default() -> (r: NeighborhoodMetrics)
        ensures
            r.is_empty_update(),
    {
        NeighborhoodMetrics {
            zone_id: String::new(),
            zone_name: String::new(),
            population_total: None,
            median_age: None,
            population_density: None,
            median_income: None,
            median_home_value: None,
            affordability_index: None,
            housing_units: None,
            households: None,
            vacant_units: None,
            vacancy_rate: None,
            owner_occupancy: None,
            housing_density: None,
            education_distribution: None,
            race_distribution: None,
            diversity_index: None,
            livability_index: None,
            commute: None,
            derived: None,
        }
    }
}

/// An event caused by a policy in one neighborhood.
///
/// `severity` lies in `[0, 1]` and `positivity` in `[-1, 1]`; `metrics` holds
/// the fields of the neighborhood that the event changes.
#[derive(Clone, Debug, PartialEq)]
pub struct EventNotification {
    pub id: String,
    pub zone_id: String,
    pub zone_name: String,
    pub event_type: String,
    pub title: String,
    pub description: String,
    pub severity: Fixed,
    pub positivity: Fixed,
    pub coordinates: Vec<Fixed>,
    pub metrics: Option<NeighborhoodMetrics>,
}

impl Default for EventNotification {
    fn default() -> (r: EventNotification)
        ensures
            r.id@ == Seq::<char>::empty(),
            r.zone_id@ == Seq::<char>::empty(),
            r.zone_name@ == Seq::<char>::empty(),
            r.event_type@ == Seq::<char>::empty(),
            r.title@ == Seq::<char>::empty(),
            r.description@ == Seq::<char>::empty(),
            r.severity.micros == 0,
            r.positivity.micros == 0,
            r.coordinates@.len() == 0,
            r.metrics is None,
    {
        EventNotification {
            id: String::new(),
            zone_id: String::new(),
            zone_name: String::new(),
            event_type: String::new(),
            title: String::new(),
            description: String::new(),
            severity: Fixed::zero(),
            positivity: Fixed::zero(),
            coordinates: Vec::new(),
            metrics: None,
        }
    }
}

/// Announces, before the detail phase streams, how many records to expect.
#[derive(Clone, Debug, PartialEq)]
pub struct SimulationUpdate {
    pub expected_event_count: u32,
    pub target_neighborhood_count: u32,
}

/// The last record of a simulation stream.
#[derive(Clone, Debug, PartialEq)]
pub struct SimulationComplete {
    pub summary: String,
}

/// One record of a simulation stream, told apart by its kind.
#[allow(inconsistent_fields)]
#[derive(Clone, Debug, PartialEq)]
pub enum SimulationChunk {
    Event { data: EventNotification },
    Update { data: SimulationUpdate },
    Complete { data: SimulationComplete },
}

/// A request to simulate a policy.
#[derive(Clone, Debug, PartialEq)]
pub struct SimulationRequest {
    /// The text of the policy proposal.
    pub prompt: String,
    /// Neighborhoods to focus on; empty when any may be affected.
    pub selected_zones: Vec<String>,
    /// Context for the identification phase.
    pub neighborhood_context: Vec<MinimalNeighborhoodContext>,
    /// Full records for the detail phase, looked up by name.
    pub neighborhood_properties: Vec<NeighborhoodProperties>,
}

} // verus!
