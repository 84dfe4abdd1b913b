use city_sim::{
    complete_interdependent_metrics, Commute, Derived, EducationDistribution, Fixed,
    NeighborhoodMetrics, NeighborhoodProperties, RaceDistribution,
};

fn fx(whole: i64) -> Fixed {
    Fixed::from_micros(whole * 1_000_000)
}

fn baseline(area_acres: i64, higher_ed: i64, density: i64) -> NeighborhoodProperties {
    NeighborhoodProperties {
        name: "Midtown".to_string(),
        npu: "E".to_string(),
        area_acres: fx(area_acres),
        population_total: 1000,
        median_age: fx(30),
        population_density: fx(10),
        median_income: 50000,
        median_home_value: 300000,
        affordability_index: fx(1),
        housing_units: 400,
        households: 380,
        vacant_units: 20,
        vacancy_rate: fx(5),
        owner_occupancy: fx(40),
        housing_density: fx(4),
        education_distribution: EducationDistribution {
            high_school_or_less: fx(30),
            some_college: fx(30),
            bachelors: fx(25),
            graduate: fx(15),
        },
        race_distribution: RaceDistribution {
            white: fx(40),
            black: fx(40),
            asian: fx(10),
            mixed: fx(5),
            hispanic: fx(5),
        },
        diversity_index: fx(0),
        livability_index: fx(70),
        commute: Commute { avg_minutes: fx(25), car_dependence: fx(60), transit_usage: fx(20) },
        derived: Derived { higher_ed_percent: fx(higher_ed), density_index: fx(density) },
        baseline_description: None,
        current_events: None,
        neighboring_neighborhoods: None,
    }
}

#[test]
fn population_sets_density_and_keeps_baseline_education() {
    let base = baseline(100, 40, 10);
    let mut m = NeighborhoodMetrics::default();
    m.population_total = Some(500);
    complete_interdependent_metrics(&mut m, &base);
    let d = m.derived.unwrap();
    assert_eq!(d.density_index, Fixed::from_micros(5_000_000));
    assert_eq!(d.higher_ed_percent, fx(40));
    let once = m.clone();
    complete_interdependent_metrics(&mut m, &base);
    assert_eq!(m, once);
}

#[test]
fn equal_race_shares_give_diversity_of_four_fifths() {
    let base = baseline(100, 40, 10);
    let mut m = NeighborhoodMetrics::default();
    m.race_distribution = Some(RaceDistribution {
        white: fx(20),
        black: fx(20),
        asian: fx(20),
        mixed: fx(20),
        hispanic: fx(20),
    });
    complete_interdependent_metrics(&mut m, &base);
    assert_eq!(m.diversity_index, Some(Fixed::from_micros(800_000)));
    assert!(m.derived.is_none());
}

#[test]
fn a_single_group_gives_zero_diversity() {
    let base = baseline(100, 40, 10);
    let mut m = NeighborhoodMetrics::default();
    m.race_distribution = Some(RaceDistribution {
        white: fx(100),
        black: fx(0),
        asian: fx(0),
        mixed: fx(0),
        hispanic: fx(0),
    });
    complete_interdependent_metrics(&mut m, &base);
    assert_eq!(m.diversity_index, Some(fx(0)));
}

#[test]
fn education_sets_higher_ed_and_keeps_baseline_density() {
    let base = baseline(100, 40, 10);
    let mut m = NeighborhoodMetrics::default();
    m.education_distribution = Some(EducationDistribution {
        high_school_or_less: fx(20),
        some_college: fx(20),
        bachelors: Fixed::from_micros(35_500_000),
        graduate: Fixed::from_micros(24_250_000),
    });
    complete_interdependent_metrics(&mut m, &base);
    let d = m.derived.unwrap();
    assert_eq!(d.higher_ed_percent, Fixed::from_micros(59_750_000));
    assert_eq!(d.density_index, fx(10));
}

#[test]
fn existing_derived_values_are_updated_in_place() {
    let base = baseline(200, 40, 10);
    let mut m = NeighborhoodMetrics::default();
    m.derived = Some(Derived { higher_ed_percent: fx(33), density_index: fx(99) });
    m.population_total = Some(1000);
    complete_interdependent_metrics(&mut m, &base);
    assert_eq!(m.derived, Some(Derived { higher_ed_percent: fx(33), density_index: fx(5) }));
}

#[test]
fn untouched_update_stays_untouched() {
    let base = baseline(100, 40, 10);
    let mut m = NeighborhoodMetrics::default();
    m.zone_id = "Midtown".to_string();
    m.median_income = Some(52000);
    let before = m.clone();
    complete_interdependent_metrics(&mut m, &base);
    assert_eq!(m, before);
}

#[test]
fn density_rounds_toward_zero_and_handles_zero_area() {
    let base = baseline(3, 40, 10);
    let mut m = NeighborhoodMetrics::default();
    m.population_total = Some(10);
    complete_interdependent_metrics(&mut m, &base);
    assert_eq!(m.derived.unwrap().density_index, Fixed::from_micros(3_333_333));

    let empty_area = baseline(0, 40, 10);
    let mut m = NeighborhoodMetrics::default();
    m.population_total = Some(10);
    complete_interdependent_metrics(&mut m, &empty_area);
    assert_eq!(m.derived.unwrap().density_index, Fixed::from_micros(i64::MAX));
    let mut m = NeighborhoodMetrics::default();
    m.population_total = Some(0);
    complete_interdependent_metrics(&mut m, &empty_area);
    assert_eq!(m.derived.unwrap().density_index, fx(0));
}

#[test]
fn fixed_constructors() {
    assert_eq!(Fixed::from_int(-3).micros, -3_000_000);
    assert_eq!(Fixed::zero().micros, 0);
}
