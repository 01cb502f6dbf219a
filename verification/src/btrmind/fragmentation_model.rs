//! The fragmentation model as data: its coefficients and scaling (as the IEEE 754 bits
//! of their `f64` values), its feature names and metadata, and the checks a loaded
//! model must pass. Predicting with it is floating-point arithmetic, left to the
//! caller.
use vstd::prelude::*;

use crate::binary64::{f64_le, le};
use crate::text::{append_decimal, clone_strings, decimal, string_views};

verus! {

/// Where a model comes from.
#[derive(Debug, Clone)]
pub struct ModelMetadata {
    pub model_type: String,
    pub training_date: String,
    pub framework: String,
    pub algorithm: String,
}

/// A linear model of fragmentation over standardized features.
#[derive(Debug, Clone)]
pub struct FragmentationModel {
    pub coefficients: Vec<u64>,
    pub intercept: u64,
    pub feature_means: Vec<u64>,
    pub feature_scales: Vec<u64>,
    pub feature_names: Vec<String>,
    pub metadata: ModelMetadata,
}

/// What a model is: its type, training date, and features.
#[derive(Debug, Clone)]
pub struct ModelInfo {
    pub model_type: String,
    pub training_date: String,
    pub n_features: usize,
    pub feature_names: Vec<String>,
}

/// `x == 0.0` on the bits of an `f64`: either zero.
pub open spec fn is_zero(x: u64) -> bool {
    le(x, 0) && le(0, x)
}

/// The first position at which the scale is zero.
pub open spec fn first_zero_scale(s: Seq<u64>, i: int) -> bool {
    0 <= i < s.len() && is_zero(s[i]) && forall|j: int| 0 <= j < i ==> !is_zero(#[trigger] s[j])
}

/// The first problem of a model: no coefficients, then means, scales or names of
/// another length than the coefficients, then a zero scale (named by its position).
pub open spec fn model_problem(m: FragmentationModel, msg: Seq<char>) -> bool {
    let n = m.coefficients.len();
    if n == 0 {
        msg == "Model has no coefficients"@
    } else if m.feature_means.len() != n {
        msg == "Feature means length mismatch"@
    } else if m.feature_scales.len() != n {
        msg == "Feature scales length mismatch"@
    } else if m.feature_names.len() != n {
        msg == "Feature names length mismatch"@
    } else {
        exists|i: int|
            first_zero_scale(m.feature_scales@, i) && msg == "Feature scale at index "@ + decimal(
                i as nat,
            ) + " is zero"@
    }
}

/// The model is well formed.
pub open spec fn model_ok(m: FragmentationModel) -> bool {
    let n = m.coefficients.len();
    &&& n > 0
    &&& m.feature_means.len() == n
    &&& m.feature_scales.len() == n
    &&& m.feature_names.len() == n
    &&& forall|j: int| 0 <= j < n ==> !is_zero(#[trigger] m.feature_scales@[j])
}

impl FragmentationModel {
    /// Checks the model's shape and that no scale is zero (see `model_problem`).
    pub fn validate(&self) -> (r: Result<(), String>)
        ensures
            r is Ok <==> model_ok(*self),
            r matches Err(e) ==> model_problem(*self, e@),
    {
        let n = self.coefficients.len();
        if n == 0 {
            return Err(String::from_str("Model has no coefficients"));
        }
        if self.feature_means.len() != n {
            return Err(String::from_str("Feature means length mismatch"));
        }
        if self.feature_scales.len() != n {
            return Err(String::from_str("Feature scales length mismatch"));
        }
        if self.feature_names.len() != n {
            return Err(String::from_str("Feature names length mismatch"));
        }
        let mut i: usize = 0;
        while i < n
            invariant
                n == self.feature_scales.len(),
                n == self.coefficients.len(),
                n == self.feature_means.len(),
                n == self.feature_names.len(),
                n > 0,
                i <= n,
                forall|j: int| 0 <= j < i ==> !is_zero(#[trigger] self.feature_scales@[j]),
            decreases n - i,
        {
            let s = self.feature_scales[i];
            if f64_le(s, 0) && f64_le(0, s) {
                let mut m = String::from_str("Feature scale at index ");
                append_decimal(&mut m, i as u64);
                m.append(" is zero");
                proof {
                    reveal_strlit(" is zero");
                }
                let ghost k: int = i as int;
                assert(first_zero_scale(self.feature_scales@, k) && m@ == "Feature scale at index "@
                    + decimal(k as nat) + " is zero"@);
                return Err(m);
            }
            i = i + 1;
        }
        Ok(())
    }

    /// The model's type, training date and features.
    pub fn info(&self) -> (i: ModelInfo)
        ensures
            i.model_type@ == self.metadata.model_type@,
            i.training_date@ == self.metadata.training_date@,
            i.n_features == self.coefficients.len(),
            string_views(i.feature_names@) == string_views(self.feature_names@),
    {
        ModelInfo {
            model_type: self.metadata.model_type.clone(),
            training_date: self.metadata.training_date.clone(),
            n_features: self.coefficients.len(),
            feature_names: clone_strings(&self.feature_names),
        }
    }
}

} // verus!
