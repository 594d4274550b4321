//! Contribution margin and break-even formulas on plain amounts, independent of
//! cost objects.
use vstd::prelude::*;

use crate::ratio::{DomainError, Ratio};

verus! {

/// The break-even volume `fixed_costs / (selling_price - variable_costs)`, as an
/// exact fraction. A selling price equal to the variable cost is a
/// [`DomainError::ZeroMargin`].
pub fn break_even_point(fixed_costs: i64, selling_price: i64, variable_costs: i64) -> (r: Result<
    Ratio,
    DomainError,
>)
    ensures
        selling_price == variable_costs ==> r == Err::<Ratio, DomainError>(DomainError::ZeroMargin),
        selling_price != variable_costs ==> r == Ok::<Ratio, DomainError>(
            (Ratio {
                numer: fixed_costs as i128,
                denom: (selling_price - variable_costs) as i128,
            }),
        ),
{
    let margin = contribution_margin(selling_price, variable_costs);
    if margin == 0 {
        Err(DomainError::ZeroMargin)
    } else {
        Ok(Ratio { numer: fixed_costs as i128, denom: margin })
    }
}

/// The contribution margin `selling_price - variable_costs`.
pub fn contribution_margin(selling_price: i64, variable_costs: i64) -> (r: i128)
    ensures
        r == selling_price - variable_costs,
{
    selling_price as i128 - variable_costs as i128
}

} // verus!
