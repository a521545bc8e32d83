//! Typed, error-tolerant metric readings.
//!
//! The sampler turns raw provider readings (CPU load, total and free
//! memory) into percentages in `[0, 100]`. A reading that cannot be
//! computed is reported as an error, which the render loop absorbs by
//! substituting a placeholder for that tick only.

use vstd::prelude::*;

verus! {

/// Why a single metric reading failed. Never fatal: the loop degrades
/// to placeholder data for the tick and recovers on the next one.
#[derive(Clone, Copy, Debug, PartialEq, Eq, Structural)]
pub enum SamplerError {
    /// The provider could not produce the reading.
    Unavailable,
    /// Memory percentage was requested with a reported total of zero.
    DivisionByZero,
}

/// Used memory as a whole percentage of the total: `(total - free) * 100 / total`.
pub open spec fn mem_percent_of(total: nat, free: nat) -> nat
    recommends
        free <= total,
        total > 0,
{
    ((total - free) * 100 / total as int) as nat
}

/// A percentage reading clamped into `[0, 100]`.
pub open spec fn clamp100(v: u64) -> u64 {
    if v > 100 {
        100
    } else {
        v
    }
}

/// Memory utilization in whole percent, from total and free amounts in
/// the same unit. Fails exactly when the reported total is zero; on any
/// valid reading the result is in `[0, 100]`.
pub fn memory_percent(total: u64, free: u64) -> (r: Result<u64, SamplerError>)
    requires
        free <= total,
    ensures
        r is Err <==> total == 0,
        r is Err ==> r == Err::<u64, SamplerError>(SamplerError::DivisionByZero),
        total > 0 ==> r == Ok::<u64, SamplerError>(
            mem_percent_of(total as nat, free as nat) as u64,
        ),
        r is Ok ==> r.unwrap() <= 100,
{
    if total == 0 {
        Err(SamplerError::DivisionByZero)
    } else {
        let used: u128 = (total - free) as u128;
        let pct: u128 = used * 100 / (total as u128);
        proof {
            assert(used as int * 100 <= total as int * 100) by (nonlinear_arith)
                requires
                    used as int <= total as int,
            ;
            assert(used as int * 100 / (total as int) <= 100) by (nonlinear_arith)
                requires
                    used as int * 100 <= total as int * 100,
                    total as int > 0,
            ;
            assert(pct == mem_percent_of(total as nat, free as nat));
        }
        Ok(pct as u64)
    }
}

/// Resolves a raw CPU reading into the value shown for the tick: a
/// successful reading is clamped into `[0, 100]`, a failed one becomes
/// "no data".
pub fn resolve_cpu(reading: &Result<u64, SamplerError>) -> (r: Option<u64>)
    ensures
        r == match *reading {
            Ok(v) => Some(clamp100(v)),
            Err(_) => None::<u64>,
        },
{
    match reading {
        Ok(v) => if *v > 100 {
            Some(100)
        } else {
            Some(*v)
        },
        Err(_) => None,
    }
}

/// The pair of metric readings produced once per tick; `None` is the
/// documented placeholder for a reading that failed this tick.
#[derive(Clone, Copy, Debug, PartialEq, Eq, Structural)]
pub struct Sample {
    /// CPU load percentage, absent when the provider failed.
    pub cpu_percent: Option<u64>,
    /// Memory utilization percentage, absent when the total was zero.
    pub mem_percent: Option<u64>,
}

impl Sample {
    /// Both present readings are percentages.
    pub open spec fn wf(&self) -> bool {
        (self.cpu_percent is Some ==> self.cpu_percent.unwrap() <= 100)
            && (self.mem_percent is Some ==> self.mem_percent.unwrap() <= 100)
    }

    /// The sample before any tick has run: no data for either metric.
    pub fn empty() -> (s: Sample)
        ensures
            s.wf(),
            s.cpu_percent is None,
            s.mem_percent is None,
    {
        Sample { cpu_percent: None, mem_percent: None }
    }
}

/// What the memory reading of a tick resolves to.
pub open spec fn mem_sample_spec(total: u64, free: u64) -> Option<u64> {
    if total == 0 {
        None
    } else {
        Some((mem_percent_of(total as nat, free as nat)) as u64)
    }
}

/// What the CPU reading of a tick resolves to.
pub open spec fn cpu_sample_spec(reading: Result<u64, SamplerError>) -> Option<u64> {
    match reading {
        Ok(v) => Some(clamp100(v)),
        Err(_) => None,
    }
}

/// Builds the tick's sample from the raw provider readings, absorbing
/// each failure into the placeholder for that metric.
pub fn make_sample(cpu_reading: &Result<u64, SamplerError>, mem_total: u64, mem_free: u64) -> (s:
    Sample)
    requires
        mem_free <= mem_total,
    ensures
        s.wf(),
        s.cpu_percent == cpu_sample_spec(*cpu_reading),
        s.mem_percent == mem_sample_spec(mem_total, mem_free),
{
    let cpu = resolve_cpu(cpu_reading);
    let mem = match memory_percent(mem_total, mem_free) {
        Ok(v) => Some(v),
        Err(_) => None,
    };
    Sample { cpu_percent: cpu, mem_percent: mem }
}

/// The value pushed into a trend history: the reading itself, or zero
/// as the placeholder when the reading failed.
pub fn value_or_placeholder(v: &Option<u64>) -> (r: u64)
    ensures
        r == value_or_placeholder_spec(*v),
{
    match v {
        Some(x) => *x,
        None => 0,
    }
}

/// Spec of the history placeholder: a failed reading counts as zero.
pub open spec fn value_or_placeholder_spec(v: Option<u64>) -> u64 {
    match v {
        Some(x) => x,
        None => 0,
    }
}

} // verus!
