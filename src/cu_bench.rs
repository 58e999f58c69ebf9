//! Compute-unit benchmarking framework.
//!
//! [`ComputeUnitEstimate`] and [`ComputeUnitDatabase`] here are the flat record kept
//! for callers that list the environments a series was measured in; they share the
//! order statistics of [`estimate`].

pub mod context;
pub mod estimate;
pub mod runner;

use vstd::prelude::*;
use crate::cu_bench::estimate::{
    find_entry, find_named, level_value, names_unique, order_statistic, percentile_position,
    sort_samples, lemma_sorted_samples, utc_now_rfc3339, ComputeUnitLevel,
};

verus! {

/// Confidence level of a compute-unit estimate.
#[derive(Debug, Clone, Copy, PartialEq, Eq, Structural)]
pub enum CuLevel {
    /// Minimum observed usage (0th percentile).
    Min,
    /// Conservative estimate (25th percentile).
    Conservative,
    /// Balanced estimate (50th percentile).
    Balanced,
    /// Safe estimate (75th percentile).
    Safe,
    /// Very high estimate (95th percentile).
    VeryHigh,
    /// Maximum observed usage (100th percentile).
    UnsafeMax,
    /// An exact compute-unit value.
    Custom(u64),
    /// The balanced estimate times `numerator / denominator`, rounded down.
    Multiplier(u64, u64),
}

impl CuLevel {
    /// The same level as a [`ComputeUnitLevel`].
    pub open spec fn spec_level(self) -> ComputeUnitLevel {
        match self {
            CuLevel::Min => ComputeUnitLevel::Min,
            CuLevel::Conservative => ComputeUnitLevel::Conservative,
            CuLevel::Balanced => ComputeUnitLevel::Balanced,
            CuLevel::Safe => ComputeUnitLevel::Safe,
            CuLevel::VeryHigh => ComputeUnitLevel::VeryHigh,
            CuLevel::UnsafeMax => ComputeUnitLevel::UnsafeMax,
            CuLevel::Custom(cu) => ComputeUnitLevel::Custom(cu),
            CuLevel::Multiplier(num, den) => ComputeUnitLevel::Multiplier(num, den),
        }
    }

    /// Converts to a [`ComputeUnitLevel`].
    pub fn to_level(self) -> (r: ComputeUnitLevel)
        ensures
            r == self.spec_level(),
    {
        match self {
            CuLevel::Min => ComputeUnitLevel::Min,
            CuLevel::Conservative => ComputeUnitLevel::Conservative,
            CuLevel::Balanced => ComputeUnitLevel::Balanced,
            CuLevel::Safe => ComputeUnitLevel::Safe,
            CuLevel::VeryHigh => ComputeUnitLevel::VeryHigh,
            CuLevel::UnsafeMax => ComputeUnitLevel::UnsafeMax,
            CuLevel::Custom(cu) => ComputeUnitLevel::Custom(cu),
            CuLevel::Multiplier(num, den) => ComputeUnitLevel::Multiplier(num, den),
        }
    }
}

/// Compute-unit statistics of one instruction type, with the environments it was
/// measured in.
#[derive(Debug, Clone)]
pub struct ComputeUnitEstimate {
    /// Instruction type identifier.
    pub instruction_type: String,
    /// Minimum observed usage (0th percentile).
    pub min: u64,
    /// Conservative estimate (25th percentile).
    pub conservative: u64,
    /// Balanced estimate (50th percentile).
    pub balanced: u64,
    /// Safe estimate (75th percentile).
    pub safe: u64,
    /// Very high estimate (95th percentile).
    pub very_high: u64,
    /// Maximum observed usage (100th percentile).
    pub unsafe_max: u64,
    /// Number of samples the estimate was taken from.
    pub sample_size: usize,
    /// Testing environments used.
    pub environments: Vec<String>,
}

impl ComputeUnitEstimate {
    /// Compute-unit value for the given confidence level.
    pub fn get_cu_for_level(&self, level: CuLevel) -> (r: u64)
        requires
            level.spec_level().well_formed(),
        ensures
            r == level_value(
                self.min,
                self.conservative,
                self.balanced,
                self.safe,
                self.very_high,
                self.unsafe_max,
                level.spec_level(),
            ),
    {
        crate::cu_bench::estimate::value_for_level(
            self.min,
            self.conservative,
            self.balanced,
            self.safe,
            self.very_high,
            self.unsafe_max,
            level.to_level(),
        )
    }

    /// Estimate from a non-empty series of measurements, in any order.
    pub fn from_measurements(
        instruction_type: String,
        measurements: &[u64],
        environments: Vec<String>,
    ) -> (r: Self)
        requires
            measurements@.len() > 0,
        ensures
            r.instruction_type == instruction_type,
            r.environments == environments,
            r.min == order_statistic(measurements@, 0),
            r.conservative == order_statistic(measurements@, 25),
            r.balanced == order_statistic(measurements@, 50),
            r.safe == order_statistic(measurements@, 75),
            r.very_high == order_statistic(measurements@, 95),
            r.unsafe_max == order_statistic(measurements@, 100),
            r.sample_size == measurements@.len(),
    {
        let sorted = sort_samples(measurements);
        let len = sorted.len();
        proof {
            lemma_sorted_samples(measurements@);
        }
        let min = sorted[percentile_position(len, 0)];
        let conservative = sorted[percentile_position(len, 25)];
        let balanced = sorted[percentile_position(len, 50)];
        let safe = sorted[percentile_position(len, 75)];
        let very_high = sorted[percentile_position(len, 95)];
        let unsafe_max = sorted[percentile_position(len, 100)];
        ComputeUnitEstimate {
            instruction_type,
            min,
            conservative,
            balanced,
            safe,
            very_high,
            unsafe_max,
            sample_size: len,
            environments,
        }
    }
}

/// Database of compute-unit estimates keyed by instruction type.
#[derive(Debug, Clone)]
pub struct ComputeUnitDatabase {
    /// Named estimates; a name occurs at most once.
    pub estimates: Vec<(String, ComputeUnitEstimate)>,
    /// RFC 3339 timestamp of creation.
    pub generated_at: String,
}

impl ComputeUnitDatabase {
    pub open spec fn well_formed(&self) -> bool {
        names_unique(self.estimates@)
    }

    /// Empty database stamped with the current time.
    pub fn new() -> (r: Self)
        ensures
            r.estimates@.len() == 0,
            r.well_formed(),
    {
        ComputeUnitDatabase { estimates: Vec::new(), generated_at: utc_now_rfc3339() }
    }

    /// Estimate stored under `instruction_type`, if any.
    pub fn get_estimate(&self, instruction_type: &str) -> (r: Option<&ComputeUnitEstimate>)
        ensures
            match find_entry(self.estimates@, instruction_type@, 0) {
                Some(k) => r == Some(&self.estimates@[k].1),
                None => r is None,
            },
    {
        match find_named(&self.estimates, instruction_type) {
            Some(k) => Some(&self.estimates[k].1),
            None => None,
        }
    }

    /// Compute-unit value at `level` of the estimate stored under
    /// `instruction_type`, if any.
    pub fn get_cu_estimate(&self, instruction_type: &str, level: CuLevel) -> (r: Option<u64>)
        requires
            level.spec_level().well_formed(),
        ensures
            match find_entry(self.estimates@, instruction_type@, 0) {
                Some(k) => r == Some(
                    level_value(
                        self.estimates@[k].1.min,
                        self.estimates@[k].1.conservative,
                        self.estimates@[k].1.balanced,
                        self.estimates@[k].1.safe,
                        self.estimates@[k].1.very_high,
                        self.estimates@[k].1.unsafe_max,
                        level.spec_level(),
                    ),
                ),
                None => r is None,
            },
    {
        match self.get_estimate(instruction_type) {
            Some(est) => Some(est.get_cu_for_level(level)),
            None => None,
        }
    }
}

impl Default for ComputeUnitDatabase {
    fn default() -> (r: Self)
        ensures
            r.estimates@.len() == 0,
    {
        Self::new()
    }
}

} // verus!
