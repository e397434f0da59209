//! A small algebra for describing and validating bounded quantities.
//!
//! A [`Measurement`] states what values are acceptable for a measured,
//! non-negative, additive quantity: exactly one value, the values strictly
//! between two bounds, or every value strictly below a bound. `matches`
//! decides whether an observed value satisfies the description, and `compose`
//! derives the description for a sum of two quantities from the descriptions
//! of the addends.

use vstd::prelude::*;

verus! {

/// A `Measurement` is a condition on a measurable quantity.
///
/// All three variants denote open (exclusive) conditions: `Range` excludes
/// both of its bounds and `UpperBound` excludes the bound itself. A `Range`
/// whose lower bound exceeds its upper bound is not rejected; it is simply
/// satisfied by no value.
#[derive(Clone, Debug, PartialEq, Eq, Structural)]
pub enum Measurement {
    /// The only acceptable value is exactly the given one.
    Exact(usize),
    /// Acceptable values lie strictly between the two bounds.
    Range(usize, usize),
    /// Acceptable values are strictly less than the bound.
    UpperBound(usize),
}

/// The mathematical model of a [`Measurement`]: the same three shapes, over
/// unbounded integers.
pub enum MeasurementModel {
    Exact(int),
    Range(int, int),
    UpperBound(int),
}

impl MeasurementModel {
    /// The acceptance set: whether `candidate` satisfies this measurement.
    pub open spec fn accepts(self, candidate: int) -> bool {
        match self {
            MeasurementModel::Exact(value) => candidate == value,
            MeasurementModel::Range(lower_bound, upper_bound) => {
                lower_bound < candidate && candidate < upper_bound
            },
            MeasurementModel::UpperBound(bound) => candidate < bound,
        }
    }

    /// The composition table: the measurement satisfied by `a + b` whenever
    /// a non-negative `a` satisfies `self` and a non-negative `b` satisfies
    /// `other`.
    pub open spec fn composed(self, other: Self) -> Self {
        match (self, other) {
            (MeasurementModel::Exact(a), MeasurementModel::Exact(c)) => {
                MeasurementModel::Exact(a + c)
            },
            (MeasurementModel::Exact(a), MeasurementModel::Range(lo, hi)) => {
                MeasurementModel::Range(a + lo, a + hi)
            },
            (MeasurementModel::Exact(a), MeasurementModel::UpperBound(c)) => {
                MeasurementModel::UpperBound(a + c)
            },
            (MeasurementModel::Range(lo, hi), MeasurementModel::Exact(c)) => {
                MeasurementModel::Range(lo + c, hi + c)
            },
            (MeasurementModel::Range(lo1, hi1), MeasurementModel::Range(lo2, hi2)) => {
                MeasurementModel::Range(lo1 + lo2, hi1 + hi2)
            },
            (MeasurementModel::Range(lo, hi), MeasurementModel::UpperBound(c)) => {
                MeasurementModel::Range(lo, hi + c)
            },
            (MeasurementModel::UpperBound(a), MeasurementModel::Exact(c)) => {
                MeasurementModel::UpperBound(a + c)
            },
            (MeasurementModel::UpperBound(a), MeasurementModel::Range(lo, hi)) => {
                MeasurementModel::Range(lo, a + hi)
            },
            (MeasurementModel::UpperBound(a), MeasurementModel::UpperBound(c)) => {
                MeasurementModel::UpperBound(a + c)
            },
        }
    }

    /// Whether every sum that the composition table forms for this pair of
    /// measurements fits in `usize`.
    pub open spec fn compose_fits(self, other: Self) -> bool {
        match (self, other) {
            (MeasurementModel::Exact(a), MeasurementModel::Exact(c)) => a + c <= usize::MAX,
            (MeasurementModel::Exact(a), MeasurementModel::Range(lo, hi)) => {
                a + lo <= usize::MAX && a + hi <= usize::MAX
            },
            (MeasurementModel::Exact(a), MeasurementModel::UpperBound(c)) => a + c <= usize::MAX,
            (MeasurementModel::Range(lo, hi), MeasurementModel::Exact(c)) => {
                lo + c <= usize::MAX && hi + c <= usize::MAX
            },
            (MeasurementModel::Range(lo1, hi1), MeasurementModel::Range(lo2, hi2)) => {
                lo1 + lo2 <= usize::MAX && hi1 + hi2 <= usize::MAX
            },
            (MeasurementModel::Range(_lo, hi), MeasurementModel::UpperBound(c)) => {
                hi + c <= usize::MAX
            },
            (MeasurementModel::UpperBound(a), MeasurementModel::Exact(c)) => a + c <= usize::MAX,
            (MeasurementModel::UpperBound(a), MeasurementModel::Range(_lo, hi)) => {
                a + hi <= usize::MAX
            },
            (MeasurementModel::UpperBound(a), MeasurementModel::UpperBound(c)) => {
                a + c <= usize::MAX
            },
        }
    }
}

impl View for Measurement {
    type V = MeasurementModel;

    open spec fn view(&self) -> MeasurementModel {
        match self {
            Measurement::Exact(value) => MeasurementModel::Exact(*value as int),
            Measurement::Range(lower_bound, upper_bound) => {
                MeasurementModel::Range(*lower_bound as int, *upper_bound as int)
            },
            Measurement::UpperBound(bound) => MeasurementModel::UpperBound(*bound as int),
        }
    }
}

impl Measurement {
    /// Returns `true` if the candidate value satisfies the measurement.
    ///
    /// For an `Exact` measurement, the candidate must equal the exact value.
    /// For a `Range` measurement, the candidate must lie strictly between the
    /// lower bound and the upper bound. For an `UpperBound` measurement, the
    /// candidate must be strictly less than the bound.
    pub fn matches(&self, candidate: usize) -> (outcome: bool)
        ensures
            outcome == self@.accepts(candidate as int),
    {
        match self {
            Measurement::Exact(expected) => *expected == candidate,
            Measurement::Range(lower_bound, upper_bound) => {
                candidate > *lower_bound && candidate < *upper_bound
            },
            Measurement::UpperBound(bound) => candidate < *bound,
        }
    }

    /// Composes two measurements into the measurement for the sum of the two
    /// measured quantities: if a value `a` satisfies `self` and a value `b`
    /// satisfies `other`, then `a + b` satisfies the result.
    pub fn compose(&self, other: &Self) -> (result: Self)
        requires
            self@.compose_fits(other@),
        ensures
            result@ == self@.composed(other@),
    {
        match (self, other) {
            // An `Exact` composed with an `Exact` produces an `Exact`.
            (Measurement::Exact(self_value), Measurement::Exact(other_value)) => {
                Measurement::Exact(*self_value + *other_value)
            },
            // An `Exact` composed with a `Range` shifts both bounds uniformly.
            (Measurement::Exact(self_value), Measurement::Range(lower_bound, upper_bound)) => {
                Measurement::Range(*self_value + *lower_bound, *self_value + *upper_bound)
            },
            // An `Exact` composed with an `UpperBound` shifts the bound.
            (Measurement::Exact(self_value), Measurement::UpperBound(other_value)) => {
                Measurement::UpperBound(*self_value + *other_value)
            },
            // A `Range` composed with an `Exact` shifts both bounds uniformly.
            (Measurement::Range(lower_bound, upper_bound), Measurement::Exact(other_value)) => {
                Measurement::Range(*lower_bound + *other_value, *upper_bound + *other_value)
            },
            // A `Range` composed with a `Range` adds the bounds pointwise.
            (
                Measurement::Range(self_lower_bound, self_upper_bound),
                Measurement::Range(other_lower_bound, other_upper_bound),
            ) => {
                Measurement::Range(
                    *self_lower_bound + *other_lower_bound,
                    *self_upper_bound + *other_upper_bound,
                )
            },
            // A `Range` composed with an `UpperBound` keeps the lower bound;
            // the `UpperBound` side contributes no lower bound of its own.
            (Measurement::Range(lower_bound, upper_bound), Measurement::UpperBound(other_value)) => {
                Measurement::Range(*lower_bound, *upper_bound + *other_value)
            },
            // An `UpperBound` composed with an `Exact` shifts the bound.
            (Measurement::UpperBound(self_value), Measurement::Exact(other_value)) => {
                Measurement::UpperBound(*self_value + *other_value)
            },
            // An `UpperBound` composed with a `Range` keeps the `Range`'s
            // lower bound.
            (Measurement::UpperBound(self_value), Measurement::Range(lower_bound, upper_bound)) => {
                Measurement::Range(*lower_bound, *self_value + *upper_bound)
            },
            // An `UpperBound` composed with an `UpperBound` adds the bounds.
            (Measurement::UpperBound(self_value), Measurement::UpperBound(other_value)) => {
                Measurement::UpperBound(*self_value + *other_value)
            },
        }
    }
}

/// Law: an `Exact` measurement accepts its own value, and accepts a candidate
/// exactly when the candidate equals that value.
pub proof fn lemma_exact_accepts_only_value(value: int, candidate: int)
    ensures
        MeasurementModel::Exact(value).accepts(value),
        MeasurementModel::Exact(value).accepts(candidate) <==> candidate == value,
{
}

/// Law: a `Range` measurement excludes both of its bounds, and accepts a
/// candidate exactly when the candidate lies strictly between them.
pub proof fn lemma_range_excludes_bounds(lower_bound: int, upper_bound: int, candidate: int)
    requires
        lower_bound < upper_bound,
    ensures
        !MeasurementModel::Range(lower_bound, upper_bound).accepts(lower_bound),
        !MeasurementModel::Range(lower_bound, upper_bound).accepts(upper_bound),
        MeasurementModel::Range(lower_bound, upper_bound).accepts(candidate) <==> lower_bound
            < candidate < upper_bound,
{
}

/// Law: an `UpperBound` measurement excludes the bound itself, and accepts a
/// candidate exactly when the candidate is strictly less than the bound.
pub proof fn lemma_upper_bound_excludes_bound(bound: int, candidate: int)
    ensures
        !MeasurementModel::UpperBound(bound).accepts(bound),
        MeasurementModel::UpperBound(bound).accepts(candidate) <==> candidate < bound,
{
}

/// Law: composition is commutative. The two orders produce the same
/// measurement, so in particular they agree on every candidate, and on every
/// sum `a + b` of values satisfying the two operands.
pub proof fn lemma_compose_commutative(m1: MeasurementModel, m2: MeasurementModel)
    ensures
        m1.composed(m2) == m2.composed(m1),
        forall|candidate: int|
            m1.composed(m2).accepts(candidate) == m2.composed(m1).accepts(candidate),
{
}

/// Law: composition is sound. If a non-negative `a` satisfies `m1` and a
/// non-negative `b` satisfies `m2`, then `a + b` satisfies their composition.
/// (Measured quantities are non-negative; a `Measurement` over `usize` can
/// only be asked about non-negative candidates.)
pub proof fn lemma_compose_sound(m1: MeasurementModel, m2: MeasurementModel, a: int, b: int)
    requires
        0 <= a,
        0 <= b,
        m1.accepts(a),
        m2.accepts(b),
    ensures
        m1.composed(m2).accepts(a + b),
{
}

/// Law: composition preserves exclusivity at the boundaries. For every pair
/// of operands with an exclusive bound, the boundary sums implied by the
/// operands' bounds fail to satisfy the composed measurement.
pub proof fn lemma_compose_boundaries_excluded(m1: MeasurementModel, m2: MeasurementModel)
    ensures
        m1 is Exact && m2 is Range ==> !m1.composed(m2).accepts(m1->Exact_0 + m2->Range_0)
            && !m1.composed(m2).accepts(m1->Exact_0 + m2->Range_1),
        m1 is Exact && m2 is UpperBound ==> !m1.composed(m2).accepts(
            m1->Exact_0 + m2->UpperBound_0,
        ),
        m1 is Range && m2 is Exact ==> !m1.composed(m2).accepts(m1->Range_0 + m2->Exact_0)
            && !m1.composed(m2).accepts(m1->Range_1 + m2->Exact_0),
        m1 is Range && m2 is Range ==> !m1.composed(m2).accepts(m1->Range_0 + m2->Range_0)
            && !m1.composed(m2).accepts(m1->Range_1 + m2->Range_1),
        m1 is Range && m2 is UpperBound ==> !m1.composed(m2).accepts(m1->Range_0)
            && !m1.composed(m2).accepts(m1->Range_1 + m2->UpperBound_0),
        m1 is UpperBound && m2 is Exact ==> !m1.composed(m2).accepts(
            m1->UpperBound_0 + m2->Exact_0,
        ),
        m1 is UpperBound && m2 is Range ==> !m1.composed(m2).accepts(m2->Range_0)
            && !m1.composed(m2).accepts(m1->UpperBound_0 + m2->Range_1),
        m1 is UpperBound && m2 is UpperBound ==> !m1.composed(m2).accepts(
            m1->UpperBound_0 + m2->UpperBound_0,
        ),
{
}

} // verus!
