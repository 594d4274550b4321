//! Managerial-accounting cost concepts: classified cost lines, cost objects that
//! aggregate them, analyses over several cost objects, and the contribution-margin
//! and break-even formulas.
//!
//! Amounts of money are whole numbers of the currency unit the caller accounts in
//! (`i64` per cost line, `i128` for sums). Quantities that need a division are
//! returned as exact fractions ([`Ratio`]); a division by zero is a
//! [`DomainError`], never a silent infinity.

pub mod text;
pub mod cost;
pub mod ratio;
pub mod cost_object;
pub mod cost_analysis;
pub mod formulas;

pub use cost::{Cost, CostClassification, CostError, CostType};
pub use cost_object::CostObject;
pub use cost_analysis::CostAnalysis;
pub use formulas::{break_even_point, contribution_margin};
pub use ratio::{DomainError, Ratio};
