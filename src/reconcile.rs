//! Completion of derived metrics in a partial neighborhood update.

use vstd::prelude::*;

use crate::fixed::{clamp_i64, Fixed, SCALE};
use crate::types::{Derived, EducationDistribution, NeighborhoodMetrics, NeighborhoodProperties, RaceDistribution};

verus! {

/// Millionths in one hundredth squared: `(s / 100)^2` of a share `s` held in
/// millionths is `s * s / DIVISOR_SQ` millionths.
pub const DIVISOR_SQ: i128 = 10000000000;

/// Share of residents with a bachelor's or graduate degree, in millionths of a
/// percent.
pub open spec fn higher_ed_of(e: EducationDistribution) -> int {
    clamp_i64(e.bachelors.micros + e.graduate.micros)
}

/// `(s / 100)^2`, in millionths, rounded down.
pub open spec fn share_squared(s: Fixed) -> int {
    (s.micros * s.micros) / (DIVISOR_SQ as int)
}

/// The concentration index `1 - Σ (share / 100)^2` over the five groups, in
/// millionths.
pub open spec fn diversity_of(r: RaceDistribution) -> int {
    clamp_i64(
        SCALE - (share_squared(r.white) + share_squared(r.black) + share_squared(r.asian)
            + share_squared(r.mixed) + share_squared(r.hispanic)),
    )
}

/// `a / b` rounded toward zero, for `b != 0`.
pub open spec fn div_toward_zero(a: int, b: int) -> int {
    let q = abs(a) / abs(b);
    if (a < 0) == (b < 0) {
        q
    } else {
        -q
    }
}

/// The absolute value.
pub open spec fn abs(a: int) -> int {
    if a < 0 {
        -a
    } else {
        a
    }
}

/// Residents per acre, in millionths, rounded toward zero. On an area of zero
/// it is the largest or smallest value by the sign of the population, and zero
/// for no residents.
pub open spec fn density_of(population: i32, area: Fixed) -> int {
    if area.micros == 0 {
        if population > 0 {
            i64::MAX as int
        } else if population < 0 {
            i64::MIN as int
        } else {
            0
        }
    } else {
        clamp_i64(div_toward_zero(population * SCALE * SCALE, area.micros as int))
    }
}

/// The update with its derived fields filled in from the fields they depend
/// on, the baseline supplying the half of `derived` that the update lacks.
pub open spec fn reconciled(m: NeighborhoodMetrics, base: NeighborhoodProperties) -> NeighborhoodMetrics {
    let after_education = match m.education_distribution {
        Some(e) => {
            let h = Fixed { micros: higher_ed_of(e) as i64 };
            match m.derived {
                Some(d) => Some(Derived { higher_ed_percent: h, ..d }),
                None => Some(
                    Derived { higher_ed_percent: h, density_index: base.derived.density_index },
                ),
            }
        },
        None => m.derived,
    };
    let diversity = match m.race_distribution {
        Some(r) => Some(Fixed { micros: diversity_of(r) as i64 }),
        None => m.diversity_index,
    };
    let after_population = match m.population_total {
        Some(p) => {
            let dens = Fixed { micros: density_of(p, base.area_acres) as i64 };
            match after_education {
                Some(d) => Some(Derived { density_index: dens, ..d }),
                None => Some(
                    Derived {
                        higher_ed_percent: base.derived.higher_ed_percent,
                        density_index: dens,
                    },
                ),
            }
        },
        None => after_education,
    };
    NeighborhoodMetrics { derived: after_population, diversity_index: diversity, ..m }
}

fn clamp_to_i64(x: i128) -> (r: i64)
    ensures
        r == clamp_i64(x as int),
{
    if x > i64::MAX as i128 {
        i64::MAX
    } else if x < i64::MIN as i128 {
        i64::MIN
    } else {
        x as i64
    }
}

fn higher_ed(e: &EducationDistribution) -> (r: Fixed)
    ensures
        r.micros == higher_ed_of(*e),
{
    Fixed { micros: clamp_to_i64(e.bachelors.micros as i128 + e.graduate.micros as i128) }
}

fn share_sq(s: Fixed) -> (r: i128)
    ensures
        r == share_squared(s),
        0 <= r <= 10000000000000000000000000000int,
{
    let m = s.micros as i128;
    assert(0 <= m * m <= 0x4000_0000_0000_0000_0000_0000_0000_0000) by (nonlinear_arith)
        requires
            -0x8000_0000_0000_0000 <= m <= 0x7fff_ffff_ffff_ffff,
    ;
    let sq = m * m;
    assert(sq / DIVISOR_SQ <= 10000000000000000000000000000int) by (nonlinear_arith)
        requires
            0 <= sq <= 0x4000_0000_0000_0000_0000_0000_0000_0000,
    ;
    sq / DIVISOR_SQ
}

fn diversity(r: &RaceDistribution) -> (d: Fixed)
    ensures
        d.micros == diversity_of(*r),
{
    let total = share_sq(r.white) + share_sq(r.black) + share_sq(r.asian) + share_sq(r.mixed)
        + share_sq(r.hispanic);
    Fixed { micros: clamp_to_i64(SCALE as i128 - total) }
}

fn density(population: i32, area: Fixed) -> (d: Fixed)
    ensures
        d.micros == density_of(population, area),
{
    if area.micros == 0 {
        if population > 0 {
            Fixed { micros: i64::MAX }
        } else if population < 0 {
            Fixed { micros: i64::MIN }
        } else {
            Fixed { micros: 0 }
        }
    } else {
        let p = population as i128;
        let num: u128 = if p < 0 { (-p) as u128 } else { p as u128 };
        let a = area.micros as i128;
        let den: u128 = if a < 0 { (-a) as u128 } else { a as u128 };
        assert(num * 1000000000000 <= 0x8000_0000 * 1000000000000) by (nonlinear_arith)
            requires
                num <= 0x8000_0000,
        ;
        let num = num * 1000000000000;
        let q = num / den;
        assert(q <= num) by (nonlinear_arith)
            requires
                den >= 1,
                q == num / den,
        ;
        let q = q as i128;
        let signed = if (p < 0) == (a < 0) { q } else { -q };
        assert(population * SCALE * SCALE == p * 1000000000000);
        Fixed { micros: clamp_to_i64(signed) }
    }
}

/// Fills the derived fields of `metrics` from the fields they depend on, with
/// `original_neighborhood` as the baseline:
/// - an education distribution sets `derived.higher_ed_percent` to bachelors
///   plus graduate;
/// - a race distribution sets `diversity_index` to `1 - Σ (share / 100)^2`;
/// - a population sets `derived.density_index` to population over the
///   baseline's area.
///
/// Where `derived` was absent, the baseline's value fills its other half.
pub fn complete_interdependent_metrics(
    metrics: &mut NeighborhoodMetrics,
    original_neighborhood: &NeighborhoodProperties,
)
    ensures
        *final(metrics) == reconciled(*old(metrics), *original_neighborhood),
{
    if let Some(edu) = &metrics.education_distribution {
        let h = higher_ed(edu);
        match &metrics.derived {
            Some(d) => {
                metrics.derived = Some(Derived { higher_ed_percent: h, density_index: d.density_index });
            },
            None => {
                metrics.derived = Some(
                    Derived {
                        higher_ed_percent: h,
                        density_index: original_neighborhood.derived.density_index,
                    },
                );
            },
        }
    }
    if let Some(race) = &metrics.race_distribution {
        metrics.diversity_index = Some(diversity(race));
    }
    if let Some(p) = metrics.population_total {
        let dens = density(p, original_neighborhood.area_acres);
        match &metrics.derived {
            Some(d) => {
                metrics.derived = Some(Derived { higher_ed_percent: d.higher_ed_percent, density_index: dens });
            },
            None => {
                metrics.derived = Some(
                    Derived {
                        higher_ed_percent: original_neighborhood.derived.higher_ed_percent,
                        density_index: dens,
                    },
                );
            },
        }
    }
}

/// Reconciling an already reconciled update changes nothing.
pub proof fn lemma_reconcile_idempotent(m: NeighborhoodMetrics, base: NeighborhoodProperties)
    ensures
        reconciled(reconciled(m, base), base) == reconciled(m, base),
{
}

/// After reconciliation `derived` is present exactly when it was present
/// before or an education distribution or a population is present; and being
/// a [`Derived`], it then carries both of its values.
pub proof fn lemma_derived_presence(m: NeighborhoodMetrics, base: NeighborhoodProperties)
    ensures
        reconciled(m, base).derived is Some <==> (m.derived is Some
            || m.education_distribution is Some || m.population_total is Some),
{
}

} // verus!
