//! Fixed assets: the checks on a fixed asset's input.
use vstd::prelude::*;

use crate::amount::Amount;
use crate::error::{AppError, ErrorKind};
use crate::text::str_eq;

verus! {

/// The fixed asset service: the checks on a fixed asset's input.
pub struct FixedAssetService;

/// Why the input of a new fixed asset is refused, if it is, in the order
/// the checks run: a useful life that is not positive, a negative
/// acquisition cost, a negative residual value, a residual value above the
/// cost, a declining-balance asset without a rate.
pub open spec fn fixed_asset_refusal(
    acquisition_cost: int,
    residual_value: int,
    useful_life_years: int,
    depreciation_method: Seq<char>,
    has_declining_rate: bool,
) -> Option<Seq<char>> {
    if useful_life_years <= 0 {
        Some("Useful life must be positive"@)
    } else if acquisition_cost < 0 {
        Some("Acquisition cost cannot be negative"@)
    } else if residual_value < 0 {
        Some("Residual value cannot be negative"@)
    } else if residual_value > acquisition_cost {
        Some("Residual value cannot exceed acquisition cost"@)
    } else if depreciation_method == "declining_balance"@ && !has_declining_rate {
        Some("Declining rate is required for declining balance method"@)
    } else {
        None
    }
}

impl FixedAssetService {
    /// The checks on the input of a new fixed asset (see
    /// `fixed_asset_refusal`).
    pub fn check_input(
        acquisition_cost: Amount,
        residual_value: Amount,
        useful_life_years: i32,
        depreciation_method: &str,
        declining_rate: Option<Amount>,
    ) -> (r: Result<(), AppError>)
        requires
            acquisition_cost.wf(),
            residual_value.wf(),
        ensures
            match fixed_asset_refusal(
                acquisition_cost.value(),
                residual_value.value(),
                useful_life_years as int,
                depreciation_method@,
                declining_rate is Some,
            ) {
                None => r is Ok,
                Some(m) => r matches Err(e) && e.kind_and_message() == (ErrorKind::Validation, m),
            },
    {
        if useful_life_years <= 0 {
            return Err(AppError::Validation("Useful life must be positive".to_owned()));
        }
        if acquisition_cost.lt(Amount::zero()) {
            return Err(AppError::Validation("Acquisition cost cannot be negative".to_owned()));
        }
        if residual_value.lt(Amount::zero()) {
            return Err(AppError::Validation("Residual value cannot be negative".to_owned()));
        }
        if acquisition_cost.lt(residual_value) {
            return Err(
                AppError::Validation("Residual value cannot exceed acquisition cost".to_owned()),
            );
        }
        if str_eq(depreciation_method, "declining_balance") && declining_rate.is_none() {
            return Err(
                AppError::Validation(
                    "Declining rate is required for declining balance method".to_owned(),
                ),
            );
        }
        Ok(())
    }
}

} // verus!
