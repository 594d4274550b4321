//! A collection of cost objects, keyed by name, and totals across them.
use vstd::prelude::*;

use crate::cost::{CostClassification, CostType};
use crate::cost_object::{class_total, lemma_splits_add_up, lemma_totals_bounded, total_of, type_total, CostObject};
use crate::text::text_eq;

verus! {

/// Whether the object at `i` is the first in `s` with the given name.
pub open spec fn first_named(s: Seq<CostObject>, name: Seq<char>, i: int) -> bool {
    &&& 0 <= i < s.len()
    &&& s[i].name@ == name
    &&& forall|j: int| 0 <= j < i ==> s[j].name@ != name
}

/// Whether some object in `s` has the given name.
pub open spec fn has_name(s: Seq<CostObject>, name: Seq<char>) -> bool {
    exists|i: int| 0 <= i < s.len() && s[i].name@ == name
}

/// The number of cost lines over all objects.
pub open spec fn line_count(s: Seq<CostObject>) -> int
    decreases s.len(),
{
    if s.len() == 0 {
        0
    } else {
        line_count(s.drop_last()) + s.last().costs@.len()
    }
}

/// The sum of the total costs of all objects.
pub open spec fn objects_total(s: Seq<CostObject>) -> int
    decreases s.len(),
{
    if s.len() == 0 {
        0
    } else {
        objects_total(s.drop_last()) + total_of(s.last().costs@)
    }
}

/// The sum over all objects of the cost of one type.
pub open spec fn objects_type_total(s: Seq<CostObject>, t: CostType) -> int
    decreases s.len(),
{
    if s.len() == 0 {
        0
    } else {
        objects_type_total(s.drop_last(), t) + type_total(s.last().costs@, t)
    }
}

/// The sum over all objects of the cost of one classification.
pub open spec fn objects_class_total(s: Seq<CostObject>, c: CostClassification) -> int
    decreases s.len(),
{
    if s.len() == 0 {
        0
    } else {
        objects_class_total(s.drop_last(), c) + class_total(s.last().costs@, c)
    }
}

/// A prefix holds no more cost lines than the whole.
proof fn lemma_line_count_prefix(s: Seq<CostObject>, i: int)
    requires
        0 <= i <= s.len(),
    ensures
        0 <= line_count(s.take(i)) <= line_count(s),
    decreases s.len(),
{
    if s.len() > 0 {
        if i == s.len() {
            assert(s.take(i) =~= s);
            lemma_line_count_prefix(s.drop_last(), i - 1);
        } else {
            assert(s.drop_last().take(i) =~= s.take(i));
            lemma_line_count_prefix(s.drop_last(), i);
        }
    }
}

/// Across all objects, the split by type and the split by classification each
/// add up to the total cost.
proof fn lemma_overall_splits_add_up(s: Seq<CostObject>)
    ensures
        objects_total(s) == objects_type_total(s, CostType::Variable) + objects_type_total(
            s,
            CostType::Fixed,
        ),
        objects_total(s) == objects_class_total(s, CostClassification::Direct)
            + objects_class_total(s, CostClassification::Indirect),
    decreases s.len(),
{
    if s.len() > 0 {
        lemma_overall_splits_add_up(s.drop_last());
        lemma_splits_add_up(s.last().costs@);
    }
}

/// Cost objects keyed by name. No two share a name (`wf`) as long as objects
/// are added through [`CostAnalysis::add_cost_object`].
pub struct CostAnalysis {
    pub cost_objects: Vec<CostObject>,
}

impl CostAnalysis {
    /// Whether no two cost objects share a name.
    pub open spec fn wf(&self) -> bool {
        forall|i: int, j: int|
            0 <= i < j < self.cost_objects@.len() ==> self.cost_objects@[i].name@
                != self.cost_objects@[j].name@
    }

    /// An analysis with no cost objects.
    pub fn new() -> (r: CostAnalysis)
        ensures
            r.cost_objects@ == Seq::<CostObject>::empty(),
            r.wf(),
    {
        CostAnalysis { cost_objects: Vec::new() }
    }

    /// The position of the first cost object with the given name.
    fn position(&self, name: &str) -> (r: Option<usize>)
        ensures
            r matches Some(i) ==> first_named(self.cost_objects@, name@, i as int),
            r is None ==> !has_name(self.cost_objects@, name@),
    {
        let n = self.cost_objects.len();
        let mut i: usize = 0;
        while i < n
            invariant
                n == self.cost_objects@.len(),
                i <= n,
                forall|j: int| 0 <= j < i ==> self.cost_objects@[j].name@ != name@,
            decreases n - i,
        {
            if text_eq(self.cost_objects[i].name.as_str(), name) {
                return Some(i);
            }
            i = i + 1;
        }
        None
    }

    /// Whether a cost object with the given name is held.
    pub fn contains_key(&self, name: &str) -> (r: bool)
        ensures
            r == has_name(self.cost_objects@, name@),
    {
        self.position(name).is_some()
    }

    /// The cost object with the given name, if one is held.
    pub fn get(&self, name: &str) -> (r: Option<&CostObject>)
        ensures
            r matches Some(o) ==> exists|i: int|
                first_named(self.cost_objects@, name@, i) && *o == self.cost_objects@[i],
            r is None ==> !has_name(self.cost_objects@, name@),
    {
        match self.position(name) {
            Some(i) => Some(&self.cost_objects[i]),
            None => None,
        }
    }

    /// Adds a cost object under its name. One already held under that name is
    /// replaced in place, so the number of objects stays the same; otherwise the
    /// object is appended.
    pub fn add_cost_object(&mut self, cost_object: CostObject)
        ensures
            has_name(old(self).cost_objects@, cost_object.name@) ==> exists|i: int|
                first_named(old(self).cost_objects@, cost_object.name@, i)
                    && final(self).cost_objects@ == old(self).cost_objects@.update(i, cost_object),
            !has_name(old(self).cost_objects@, cost_object.name@) ==> final(self).cost_objects@
                == old(self).cost_objects@.push(cost_object),
            final(self).cost_objects@.len() == old(self).cost_objects@.len() + if has_name(
                old(self).cost_objects@,
                cost_object.name@,
            ) {
                0int
            } else {
                1int
            },
            old(self).wf() ==> final(self).wf(),
    {
        match self.position(cost_object.name.as_str()) {
            Some(i) => {
                self.cost_objects.set(i, cost_object);
            },
            None => {
                self.cost_objects.push(cost_object);
            },
        }
    }
    /// The number of cost lines over all held objects. All of them are in memory
    /// at once, so it never exceeds `usize::MAX`.
    pub open spec fn line_count(&self) -> int {
        line_count(self.cost_objects@)
    }

    /// The sum of the total costs of all held cost objects.
    pub fn total_costs(&self) -> (r: i128)
        requires
            self.line_count() <= usize::MAX,
        ensures
            r == objects_total(self.cost_objects@),
    {
        let s = Ghost(self.cost_objects@);
        let n = self.cost_objects.len();
        let mut acc: i128 = 0;
        let mut i: usize = 0;
        while i < n
            invariant
                s@ == self.cost_objects@,
                n == s@.len(),
                i <= n,
                line_count(s@) <= usize::MAX,
                acc == objects_total(s@.take(i as int)),
                line_count(s@.take(i as int)) * i64::MIN <= acc <= line_count(s@.take(i as int))
                    * i64::MAX,
            decreases n - i,
        {
            assert(s@.take(i + 1).drop_last() =~= s@.take(i as int));
            proof {
                lemma_line_count_prefix(s@, i + 1);
                lemma_totals_bounded(s@[i as int].costs@);
            }
            let t = self.cost_objects[i].total_cost();
            acc = acc + t;
            i = i + 1;
        }
        assert(s@.take(n as int) =~= s@);
        acc
    }

    /// The sums over all held cost objects of their variable and of their fixed
    /// costs, in that order.
    pub fn overall_variable_fixed_breakdown(&self) -> (r: (i128, i128))
        requires
            self.line_count() <= usize::MAX,
        ensures
            r.0 == objects_type_total(self.cost_objects@, CostType::Variable),
            r.1 == objects_type_total(self.cost_objects@, CostType::Fixed),
    {
        let s = Ghost(self.cost_objects@);
        let n = self.cost_objects.len();
        let mut variable: i128 = 0;
        let mut fixed: i128 = 0;
        let mut i: usize = 0;
        while i < n
            invariant
                s@ == self.cost_objects@,
                n == s@.len(),
                i <= n,
                line_count(s@) <= usize::MAX,
                variable == objects_type_total(s@.take(i as int), CostType::Variable),
                fixed == objects_type_total(s@.take(i as int), CostType::Fixed),
                line_count(s@.take(i as int)) * i64::MIN <= variable <= line_count(
                    s@.take(i as int),
                ) * i64::MAX,
                line_count(s@.take(i as int)) * i64::MIN <= fixed <= line_count(s@.take(i as int))
                    * i64::MAX,
            decreases n - i,
        {
            assert(s@.take(i + 1).drop_last() =~= s@.take(i as int));
            proof {
                lemma_line_count_prefix(s@, i + 1);
                lemma_totals_bounded(s@[i as int].costs@);
            }
            let (v, f) = self.cost_objects[i].variable_fixed_breakdown();
            variable = variable + v;
            fixed = fixed + f;
            i = i + 1;
        }
        assert(s@.take(n as int) =~= s@);
        (variable, fixed)
    }

    /// The sums over all held cost objects of their direct and of their indirect
    /// costs, in that order.
    pub fn overall_direct_indirect_breakdown(&self) -> (r: (i128, i128))
        requires
            self.line_count() <= usize::MAX,
        ensures
            r.0 == objects_class_total(self.cost_objects@, CostClassification::Direct),
            r.1 == objects_class_total(self.cost_objects@, CostClassification::Indirect),
    {
        let s = Ghost(self.cost_objects@);
        let n = self.cost_objects.len();
        let mut direct: i128 = 0;
        let mut indirect: i128 = 0;
        let mut i: usize = 0;
        while i < n
            invariant
                s@ == self.cost_objects@,
                n == s@.len(),
                i <= n,
                line_count(s@) <= usize::MAX,
                direct == objects_class_total(s@.take(i as int), CostClassification::Direct),
                indirect == objects_class_total(s@.take(i as int), CostClassification::Indirect),
                line_count(s@.take(i as int)) * i64::MIN <= direct <= line_count(
                    s@.take(i as int),
                ) * i64::MAX,
                line_count(s@.take(i as int)) * i64::MIN <= indirect <= line_count(
                    s@.take(i as int),
                ) * i64::MAX,
            decreases n - i,
        {
            assert(s@.take(i + 1).drop_last() =~= s@.take(i as int));
            proof {
                lemma_line_count_prefix(s@, i + 1);
                lemma_totals_bounded(s@[i as int].costs@);
            }
            let (d, x) = self.cost_objects[i].direct_indirect_breakdown();
            direct = direct + d;
            indirect = indirect + x;
            i = i + 1;
        }
        assert(s@.take(n as int) =~= s@);
        (direct, indirect)
    }
}

/// For every analysis, the total cost equals overall variable plus overall fixed
/// cost, and overall direct plus overall indirect cost: totalling across objects
/// agrees with splitting first and totalling each part.
pub proof fn lemma_analysis_splits_add_up(ca: &CostAnalysis)
    ensures
        objects_total(ca.cost_objects@) == objects_type_total(ca.cost_objects@, CostType::Variable)
            + objects_type_total(ca.cost_objects@, CostType::Fixed),
        objects_total(ca.cost_objects@) == objects_class_total(
            ca.cost_objects@,
            CostClassification::Direct,
        ) + objects_class_total(ca.cost_objects@, CostClassification::Indirect),
{
    lemma_overall_splits_add_up(ca.cost_objects@);
}

/// The totals of an analysis depend on the cost lines of its objects alone:
/// asking twice, with no change in between, gives the same answers.
pub proof fn lemma_analysis_figures_repeatable(a: &CostAnalysis, b: &CostAnalysis)
    requires
        a.cost_objects@ == b.cost_objects@,
    ensures
        objects_total(a.cost_objects@) == objects_total(b.cost_objects@),
        forall|t: CostType| #[trigger]
            objects_type_total(a.cost_objects@, t) == objects_type_total(b.cost_objects@, t),
        forall|c: CostClassification| #[trigger]
            objects_class_total(a.cost_objects@, c) == objects_class_total(b.cost_objects@, c),
{
}

} // verus!
