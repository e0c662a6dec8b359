//! Decisions of the detectors that depend on whole numbers only.
use vstd::prelude::*;
use crate::error::Error;
use crate::types::Severity;

verus! {

/// Family of a detector.
#[derive(Debug, Clone, Copy, PartialEq, Eq, Structural)]
pub enum DetectorType {
    Statistical,
    MachineLearning,
    LlmPowered,
}

/// Fewest samples a baseline needs before any detector consults it.
pub const MIN_BASELINE_SAMPLES: usize = 10;

/// Severity ladder of the Z-score detector, by the whole number of standard
/// deviations `|z|` reaches: 6 or more is critical, 4 or more high, 3 or more
/// medium, anything less low. Each step of the ladder is a whole number, so the
/// whole part of `|z|` decides the severity exactly.
pub open spec fn sigma_severity(whole_sigmas: nat) -> Severity {
    if whole_sigmas >= 6 {
        Severity::Critical
    } else if whole_sigmas >= 4 {
        Severity::High
    } else if whole_sigmas >= 3 {
        Severity::Medium
    } else {
        Severity::Low
    }
}

/// Severity of a Z-score anomaly whose `|z|` has whole part `whole_sigmas`.
pub fn severity_for_sigmas(whole_sigmas: u64) -> (r: Severity)
    ensures
        r == sigma_severity(whole_sigmas as nat),
{
    if whole_sigmas >= 6 {
        Severity::Critical
    } else if whole_sigmas >= 4 {
        Severity::High
    } else if whole_sigmas >= 3 {
        Severity::Medium
    } else {
        Severity::Low
    }
}

/// A larger deviation never gets a lower severity.
pub proof fn lemma_severity_monotone(a: nat, b: nat)
    requires
        a <= b,
    ensures
        sigma_severity(a).rank() <= sigma_severity(b).rank(),
{
}

/// A baseline is usable once it holds at least the minimum number of samples.
pub fn has_enough_samples(sample_count: usize) -> (r: bool)
    ensures
        r == (sample_count >= MIN_BASELINE_SAMPLES),
{
    sample_count >= MIN_BASELINE_SAMPLES
}

/// The statistical detectors, in the order the engine consults them.
#[derive(Debug, Clone, Copy, PartialEq, Eq, Structural)]
pub enum DetectorKind {
    ZScore,
    Iqr,
    Mad,
    Cusum,
}

/// The enabled detectors, in the fixed order Z-score, IQR, MAD, CUSUM.
pub open spec fn enabled_order(zscore: bool, iqr: bool, mad: bool, cusum: bool) -> Seq<
    DetectorKind,
> {
    (if zscore {
        seq![DetectorKind::ZScore]
    } else {
        Seq::empty()
    }) + (if iqr {
        seq![DetectorKind::Iqr]
    } else {
        Seq::empty()
    }) + (if mad {
        seq![DetectorKind::Mad]
    } else {
        Seq::empty()
    }) + (if cusum {
        seq![DetectorKind::Cusum]
    } else {
        Seq::empty()
    })
}

/// The detectors an engine is built with. Construction fails with a configuration
/// error when the window capacity is zero or when no detector is enabled.
pub fn plan_detectors(
    enable_zscore: bool,
    enable_iqr: bool,
    enable_mad: bool,
    enable_cusum: bool,
    baseline_window_size: usize,
) -> (r: Result<Vec<DetectorKind>, Error>)
    ensures
        r.is_ok() <==> (baseline_window_size >= 1 && (enable_zscore || enable_iqr || enable_mad
            || enable_cusum)),
        r.is_ok() ==> r->Ok_0@ == enabled_order(enable_zscore, enable_iqr, enable_mad, enable_cusum),
        r.is_err() ==> r->Err_0 is Config,
{
    if baseline_window_size < 1 {
        return Err(Error::config("Baseline window size must be at least 1"));
    }
    let mut v: Vec<DetectorKind> = Vec::new();
    if enable_zscore {
        v.push(DetectorKind::ZScore);
    }
    if enable_iqr {
        v.push(DetectorKind::Iqr);
    }
    if enable_mad {
        v.push(DetectorKind::Mad);
    }
    if enable_cusum {
        v.push(DetectorKind::Cusum);
    }
    assert(v@ =~= enabled_order(enable_zscore, enable_iqr, enable_mad, enable_cusum));
    if v.len() == 0 {
        return Err(Error::config("No detectors enabled"));
    }
    Ok(v)
}

} // verus!
