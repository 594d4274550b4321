//! A named product or activity, the cost lines traced to it, and its unit
//! economics.
use vstd::prelude::*;

use crate::cost::{Cost, CostClassification, CostType};
use crate::ratio::{fits_i128, DomainError, Ratio};

verus! {

/// The sum of all amounts in a sequence of cost lines.
pub open spec fn total_of(s: Seq<Cost>) -> int
    decreases s.len(),
{
    if s.len() == 0 {
        0
    } else {
        total_of(s.drop_last()) + s.last().amount
    }
}

/// The sum of the amounts of the cost lines of one type.
pub open spec fn type_total(s: Seq<Cost>, t: CostType) -> int
    decreases s.len(),
{
    if s.len() == 0 {
        0
    } else {
        type_total(s.drop_last(), t) + if s.last().cost_type == t {
            s.last().amount as int
        } else {
            0
        }
    }
}

/// The sum of the amounts of the cost lines of one classification.
pub open spec fn class_total(s: Seq<Cost>, c: CostClassification) -> int
    decreases s.len(),
{
    if s.len() == 0 {
        0
    } else {
        class_total(s.drop_last(), c) + if s.last().classification == c {
            s.last().amount as int
        } else {
            0
        }
    }
}

/// The smallest integer at or above `a / b`, for a positive `b`.
pub open spec fn ceil_div(a: int, b: int) -> int
    recommends
        b > 0,
{
    if a % b == 0 {
        a / b
    } else {
        a / b + 1
    }
}

/// An integer brought into the range of `u32`, as a saturating cast does.
pub open spec fn clamp_u32(x: int) -> u32 {
    if x < 0 {
        0
    } else if x > u32::MAX {
        u32::MAX
    } else {
        x as u32
    }
}

/// Every cost line's amount is split by type into variable and fixed, and by
/// classification into direct and indirect; both splits add up to the total.
pub(crate) proof fn lemma_splits_add_up(s: Seq<Cost>)
    ensures
        total_of(s) == type_total(s, CostType::Variable) + type_total(s, CostType::Fixed),
        total_of(s) == class_total(s, CostClassification::Direct) + class_total(
            s,
            CostClassification::Indirect,
        ),
    decreases s.len(),
{
    if s.len() > 0 {
        lemma_splits_add_up(s.drop_last());
    }
}

/// Each sum over `n` cost lines lies between `n` times the smallest and `n` times
/// the largest `i64`.
pub proof fn lemma_totals_bounded(s: Seq<Cost>)
    ensures
        s.len() * i64::MIN <= total_of(s) <= s.len() * i64::MAX,
        forall|t: CostType|
            s.len() * i64::MIN <= #[trigger] type_total(s, t) <= s.len() * i64::MAX,
        forall|c: CostClassification|
            s.len() * i64::MIN <= #[trigger] class_total(s, c) <= s.len() * i64::MAX,
    decreases s.len(),
{
    if s.len() > 0 {
        let p = s.drop_last();
        lemma_totals_bounded(p);
        assert forall|t: CostType|
            s.len() * i64::MIN <= #[trigger] type_total(s, t) <= s.len() * i64::MAX by {
            assert(p.len() * i64::MIN <= type_total(p, t) <= p.len() * i64::MAX);
        }
        assert forall|c: CostClassification|
            s.len() * i64::MIN <= #[trigger] class_total(s, c) <= s.len() * i64::MAX by {
            assert(p.len() * i64::MIN <= class_total(p, c) <= p.len() * i64::MAX);
        }
    }
}

/// `clamp_u32(ceil_div(a, b))`, computed without leaving `i128`.
fn clamped_ceil_div(a: i128, b: i128) -> (r: u32)
    requires
        b > 0,
    ensures
        r == clamp_u32(ceil_div(a as int, b as int)),
{
    if a <= 0 {
        assert(ceil_div(a as int, b as int) <= 0) by (nonlinear_arith)
            requires
                a <= 0,
                b > 0,
        {
        }
        return 0;
    }
    let q = a / b;
    let rem = a % b;
    assert(0 <= q <= a) by (nonlinear_arith)
        requires
            a > 0,
            b > 0,
            q == a as int / b as int,
    {
    }
    let c: i128 = if rem == 0 {
        q
    } else {
        proof {
            vstd::arithmetic::div_mod::lemma_fundamental_div_mod(a as int, b as int);
        }
        assert(q < a) by (nonlinear_arith)
            requires
                a > 0,
                b > 0,
                q >= 0,
                a == b * q + rem,
                rem > 0,
        {
        }
        q + 1
    };
    if c > u32::MAX as i128 {
        u32::MAX
    } else {
        c as u32
    }
}

/// A cost object: a name, the cost lines traced to it, the number of units it
/// produces or sells, and the price of one unit.
pub struct CostObject {
    pub name: String,
    pub costs: Vec<Cost>,
    pub units: u32,
    pub price_per_unit: i64,
}

impl CostObject {
    /// Total variable cost.
    pub open spec fn variable_total(&self) -> int {
        type_total(self.costs@, CostType::Variable)
    }

    /// Total fixed cost.
    pub open spec fn fixed_total(&self) -> int {
        type_total(self.costs@, CostType::Fixed)
    }

    /// Revenue of all units minus all variable cost: the contribution margin per
    /// unit, multiplied by the number of units.
    pub open spec fn margin_numer(&self) -> int {
        self.price_per_unit * self.units - self.variable_total()
    }

    /// A cost object with no cost lines.
    pub fn new(name: String, units: u32, price_per_unit: i64) -> (r: CostObject)
        ensures
            r.name@ == name@,
            r.costs@ == Seq::<Cost>::empty(),
            r.units == units,
            r.price_per_unit == price_per_unit,
    {
        CostObject { name, costs: Vec::new(), units, price_per_unit }
    }

    /// Appends a cost line.
    pub fn add_cost(&mut self, cost: Cost)
        ensures
            final(self).costs@ == old(self).costs@.push(cost),
            final(self).name@ == old(self).name@,
            final(self).units == old(self).units,
            final(self).price_per_unit == old(self).price_per_unit,
    {
        self.costs.push(cost);
    }

    /// The sum of all cost amounts.
    pub fn total_cost(&self) -> (r: i128)
        ensures
            r == total_of(self.costs@),
    {
        let n = self.costs.len();
        let mut acc: i128 = 0;
        let mut i: usize = 0;
        while i < n
            invariant
                n == self.costs@.len(),
                i <= n,
                acc == total_of(self.costs@.take(i as int)),
                i * i64::MIN <= acc <= i * i64::MAX,
            decreases n - i,
        {
            assert(self.costs@.take(i + 1).drop_last() =~= self.costs@.take(i as int));
            acc = acc + self.costs[i].amount as i128;
            i = i + 1;
        }
        assert(self.costs@.take(n as int) =~= self.costs@);
        acc
    }

    /// The sums of the variable and of the fixed cost amounts, in that order.
    pub fn variable_fixed_breakdown(&self) -> (r: (i128, i128))
        ensures
            r.0 == type_total(self.costs@, CostType::Variable),
            r.1 == type_total(self.costs@, CostType::Fixed),
    {
        let n = self.costs.len();
        let mut variable: i128 = 0;
        let mut fixed: i128 = 0;
        let mut i: usize = 0;
        while i < n
            invariant
                n == self.costs@.len(),
                i <= n,
                variable == type_total(self.costs@.take(i as int), CostType::Variable),
                fixed == type_total(self.costs@.take(i as int), CostType::Fixed),
                i * i64::MIN <= variable <= i * i64::MAX,
                i * i64::MIN <= fixed <= i * i64::MAX,
            decreases n - i,
        {
            assert(self.costs@.take(i + 1).drop_last() =~= self.costs@.take(i as int));
            let c = self.costs[i];
            match c.cost_type {
                CostType::Variable => variable = variable + c.amount as i128,
                CostType::Fixed => fixed = fixed + c.amount as i128,
            }
            i = i + 1;
        }
        assert(self.costs@.take(n as int) =~= self.costs@);
        (variable, fixed)
    }

    /// The sums of the direct and of the indirect cost amounts, in that order.
    pub fn direct_indirect_breakdown(&self) -> (r: (i128, i128))
        ensures
            r.0 == class_total(self.costs@, CostClassification::Direct),
            r.1 == class_total(self.costs@, CostClassification::Indirect),
    {
        let n = self.costs.len();
        let mut direct: i128 = 0;
        let mut indirect: i128 = 0;
        let mut i: usize = 0;
        while i < n
            invariant
                n == self.costs@.len(),
                i <= n,
                direct == class_total(self.costs@.take(i as int), CostClassification::Direct),
                indirect == class_total(self.costs@.take(i as int), CostClassification::Indirect),
                i * i64::MIN <= direct <= i * i64::MAX,
                i * i64::MIN <= indirect <= i * i64::MAX,
            decreases n - i,
        {
            assert(self.costs@.take(i + 1).drop_last() =~= self.costs@.take(i as int));
            let c = self.costs[i];
            match c.classification {
                CostClassification::Direct => direct = direct + c.amount as i128,
                CostClassification::Indirect => indirect = indirect + c.amount as i128,
            }
            i = i + 1;
        }
        assert(self.costs@.take(n as int) =~= self.costs@);
        (direct, indirect)
    }

    /// The contribution margin per unit: the price per unit less the total
    /// variable cost spread over the units, as the exact fraction
    /// `(price * units - variable) / units`.
    pub fn contribution_margin_per_unit(&self) -> (r: Result<Ratio, DomainError>)
        ensures
            self.units == 0 ==> r == Err::<Ratio, DomainError>(DomainError::ZeroUnits),
            self.units != 0 && !fits_i128(self.margin_numer()) ==> r == Err::<Ratio, DomainError>(
                DomainError::Overflow,
            ),
            self.units != 0 && fits_i128(self.margin_numer()) ==> r == Ok::<Ratio, DomainError>(
                (Ratio { numer: self.margin_numer() as i128, denom: self.units as i128 }),
            ),
    {
        if self.units == 0 {
            return Err(DomainError::ZeroUnits);
        }
        let (variable, _) = self.variable_fixed_breakdown();
        let price = self.price_per_unit as i128;
        let units = self.units as i128;
        assert(i64::MIN * u32::MAX <= price * units <= i64::MAX * u32::MAX) by (nonlinear_arith)
            requires
                i64::MIN <= price <= i64::MAX,
                0 <= units <= u32::MAX,
        {
        }
        let revenue = price * units;
        match revenue.checked_sub(variable) {
            None => Err(DomainError::Overflow),
            Some(n) => Ok(Ratio { numer: n, denom: units }),
        }
    }

    /// The contribution margin ratio: the contribution margin per unit divided by
    /// the price per unit, as the exact fraction
    /// `(price * units - variable) / (price * units)`.
    pub fn contribution_margin_ratio(&self) -> (r: Result<Ratio, DomainError>)
        ensures
            self.units == 0 ==> r == Err::<Ratio, DomainError>(DomainError::ZeroUnits),
            self.units != 0 && !fits_i128(self.margin_numer()) ==> r == Err::<Ratio, DomainError>(
                DomainError::Overflow,
            ),
            self.units != 0 && fits_i128(self.margin_numer()) && self.price_per_unit == 0 ==> r
                == Err::<Ratio, DomainError>(DomainError::ZeroPrice),
            self.units != 0 && fits_i128(self.margin_numer()) && self.price_per_unit != 0 ==> r
                == Ok::<Ratio, DomainError>(
                (Ratio {
                    numer: self.margin_numer() as i128,
                    denom: (self.price_per_unit * self.units) as i128,
                }),
            ),
    {
        let per_unit = match self.contribution_margin_per_unit() {
            Ok(m) => m,
            Err(e) => return Err(e),
        };
        if self.price_per_unit == 0 {
            return Err(DomainError::ZeroPrice);
        }
        let price = self.price_per_unit as i128;
        let units = self.units as i128;
        assert(i64::MIN * u32::MAX <= price * units <= i64::MAX * u32::MAX) by (nonlinear_arith)
            requires
                i64::MIN <= price <= i64::MAX,
                0 <= units <= u32::MAX,
        {
        }
        Ok(Ratio { numer: per_unit.numer, denom: price * units })
    }

    /// The number of units to sell to cover the fixed costs: the total fixed cost
    /// divided by the contribution margin per unit, rounded up, and brought into
    /// the range of `u32` (a negative count gives 0, a larger one `u32::MAX`).
    pub fn break_even_units(&self) -> (r: Result<u32, DomainError>)
        ensures
            self.units == 0 ==> r == Err::<u32, DomainError>(DomainError::ZeroUnits),
            self.units != 0 && !fits_i128(self.margin_numer()) ==> r == Err::<u32, DomainError>(
                DomainError::Overflow,
            ),
            self.units != 0 && fits_i128(self.margin_numer()) && self.margin_numer() <= 0 ==> r
                == Err::<u32, DomainError>(DomainError::NonPositiveMargin),
            self.units != 0 && fits_i128(self.margin_numer()) && self.margin_numer() > 0
                && !fits_i128(self.fixed_total() * self.units) ==> r == Err::<u32, DomainError>(
                DomainError::Overflow,
            ),
            self.units != 0 && fits_i128(self.margin_numer()) && self.margin_numer() > 0
                && fits_i128(self.fixed_total() * self.units) ==> r == Ok::<u32, DomainError>(
                clamp_u32(ceil_div(self.fixed_total() * self.units, self.margin_numer())),
            ),
    {
        let per_unit = match self.contribution_margin_per_unit() {
            Ok(m) => m,
            Err(e) => return Err(e),
        };
        if per_unit.numer <= 0 {
            return Err(DomainError::NonPositiveMargin);
        }
        let (_, fixed) = self.variable_fixed_breakdown();
        match fixed.checked_mul(self.units as i128) {
            None => Err(DomainError::Overflow),
            Some(scaled) => Ok(clamped_ceil_div(scaled, per_unit.numer)),
        }
    }
}

/// For every cost object, the total cost equals variable plus fixed cost, and
/// equals direct plus indirect cost.
pub proof fn lemma_cost_object_splits_add_up(co: &CostObject)
    ensures
        total_of(co.costs@) == co.variable_total() + co.fixed_total(),
        total_of(co.costs@) == class_total(co.costs@, CostClassification::Direct) + class_total(
            co.costs@,
            CostClassification::Indirect,
        ),
{
    lemma_splits_add_up(co.costs@);
}

/// The figures of a cost object depend on its cost lines, units and price
/// alone: asking twice, with no change in between, gives the same answers.
pub proof fn lemma_cost_object_figures_repeatable(a: &CostObject, b: &CostObject)
    requires
        a.costs@ == b.costs@,
        a.units == b.units,
        a.price_per_unit == b.price_per_unit,
    ensures
        total_of(a.costs@) == total_of(b.costs@),
        a.variable_total() == b.variable_total(),
        a.fixed_total() == b.fixed_total(),
        forall|c: CostClassification| #[trigger]
            class_total(a.costs@, c) == class_total(b.costs@, c),
        a.margin_numer() == b.margin_numer(),
{
}

} // verus!
