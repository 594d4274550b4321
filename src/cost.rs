//! A single classified cost line.
use vstd::prelude::*;

use crate::text::text_eq;

verus! {

/// Whether a cost varies with the number of units sold.
#[derive(Debug, Clone, Copy, PartialEq, Eq, Structural)]
pub enum CostType {
    Fixed,
    Variable,
}

/// Whether a cost can be traced to a specific cost object.
#[derive(Debug, Clone, Copy, PartialEq, Eq, Structural)]
pub enum CostClassification {
    Direct,
    Indirect,
}

/// Why a cost line could not be built from its textual description.
#[derive(Debug, Clone, Copy, PartialEq, Eq, Structural)]
pub enum CostError {
    /// The cost type was neither "fixed" nor "variable", in any letter case.
    InvalidCostType,
    /// The classification was neither "direct" nor "indirect", in any letter case.
    InvalidClassification,
}

/// One cost line: an amount, its behaviour with volume, and its traceability.
#[derive(Debug, Clone, Copy, PartialEq, Eq, Structural)]
pub struct Cost {
    pub amount: i64,
    pub cost_type: CostType,
    pub classification: CostClassification,
}

/// The lower-case form of a text, as `str::to_lowercase` computes it.
pub uninterp spec fn lower_of(s: Seq<char>) -> Seq<char>;

/// Relies on `str::to_lowercase`: its result depends on the characters of the
/// input alone.
#[verifier::external_body]
fn lowercase(s: &str) -> (r: String)
    ensures
        r@ == lower_of(s@),
{
    s.to_lowercase()
}

/// The cost type that a lower-case text names.
pub open spec fn cost_type_of(s: Seq<char>) -> Result<CostType, CostError> {
    if s == "fixed"@ {
        Ok(CostType::Fixed)
    } else if s == "variable"@ {
        Ok(CostType::Variable)
    } else {
        Err(CostError::InvalidCostType)
    }
}

/// The classification that a lower-case text names.
pub open spec fn classification_of(s: Seq<char>) -> Result<CostClassification, CostError> {
    if s == "direct"@ {
        Ok(CostClassification::Direct)
    } else if s == "indirect"@ {
        Ok(CostClassification::Indirect)
    } else {
        Err(CostError::InvalidClassification)
    }
}

/// The cost line described by an amount and two lower-case texts; the cost type
/// is checked first.
pub open spec fn cost_of(amount: i64, ty: Seq<char>, class: Seq<char>) -> Result<Cost, CostError> {
    match cost_type_of(ty) {
        Err(e) => Err(e),
        Ok(t) => match classification_of(class) {
            Err(e) => Err(e),
            Ok(c) => Ok(Cost { amount, cost_type: t, classification: c }),
        },
    }
}

impl CostType {
    /// Reads a cost type from text that is already in lower case.
    pub fn from_lowercase(text: &str) -> (r: Result<CostType, CostError>)
        ensures
            r == cost_type_of(text@),
    {
        proof {
            reveal_strlit("fixed");
            reveal_strlit("variable");
        }
        if text_eq(text, "fixed") {
            Ok(CostType::Fixed)
        } else if text_eq(text, "variable") {
            Ok(CostType::Variable)
        } else {
            Err(CostError::InvalidCostType)
        }
    }
}

impl CostClassification {
    /// Reads a classification from text that is already in lower case.
    pub fn from_lowercase(text: &str) -> (r: Result<CostClassification, CostError>)
        ensures
            r == classification_of(text@),
    {
        proof {
            reveal_strlit("direct");
            reveal_strlit("indirect");
        }
        if text_eq(text, "direct") {
            Ok(CostClassification::Direct)
        } else if text_eq(text, "indirect") {
            Ok(CostClassification::Indirect)
        } else {
            Err(CostError::InvalidClassification)
        }
    }
}

impl Cost {
    /// Builds a cost line from an amount and the lower-case names of its type and
    /// classification.
    pub fn from_lowercase(amount: i64, cost_type: &str, classification: &str) -> (r: Result<
        Cost,
        CostError,
    >)
        ensures
            r == cost_of(amount, cost_type@, classification@),
    {
        let t = match CostType::from_lowercase(cost_type) {
            Ok(t) => t,
            Err(e) => return Err(e),
        };
        let c = match CostClassification::from_lowercase(classification) {
            Ok(c) => c,
            Err(e) => return Err(e),
        };
        Ok(Cost { amount, cost_type: t, classification: c })
    }

    /// Builds a cost line from an amount and the names of its type ("fixed" or
    /// "variable") and classification ("direct" or "indirect"), in any letter
    /// case. The amount is kept as given.
    pub fn new(amount: i64, cost_type: &str, classification: &str) -> (r: Result<Cost, CostError>)
        ensures
            r == cost_of(amount, lower_of(cost_type@), lower_of(classification@)),
            r is Ok ==> r->Ok_0.amount == amount,
    {
        let t = lowercase(cost_type);
        let c = lowercase(classification);
        Cost::from_lowercase(amount, t.as_str(), c.as_str())
    }
}

} // verus!
