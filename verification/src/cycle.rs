//! What the reader does with the outcome of one poll of the inverter.
use vstd::prelude::*;
use crate::decimal::{all_digits, decimal, digits_value, lemma_decimal_roundtrip, push_decimal};

verus! {

/// How reading the inverter turned out.
#[derive(Debug, Clone, Copy, PartialEq, Eq, Structural)]
pub enum ReadOutcome {
    /// The inverter could not be read.
    Failed,
    /// Readings came back but are not plausible.
    Implausible,
    /// Plausible readings came back.
    Plausible,
}

/// What to do after one poll.
#[derive(Debug, Clone, Copy, PartialEq, Eq, Structural)]
pub struct CyclePlan {
    /// Print the readings.
    pub print_readings: bool,
    /// Report the read error.
    pub report_read_error: bool,
    /// Log that the readings were discarded as implausible.
    pub log_implausible: bool,
    /// Precede printed output with the current time.
    pub timestamped: bool,
    /// Write the readings to InfluxDB.
    pub push: bool,
    /// Stop polling.
    pub stop: bool,
}

/// The plan for one poll. A single read (`-1`) prints plain output and
/// stops whatever happened; continuous polling stamps its output with the
/// time, writes plausible readings to InfluxDB and never stops.
pub open spec fn spec_plan_cycle(one_shot: bool, outcome: ReadOutcome) -> CyclePlan {
    CyclePlan {
        print_readings: outcome == ReadOutcome::Plausible,
        report_read_error: outcome == ReadOutcome::Failed,
        log_implausible: outcome == ReadOutcome::Implausible,
        timestamped: !one_shot,
        push: !one_shot && outcome == ReadOutcome::Plausible,
        stop: one_shot,
    }
}

/// How a read turned out, from whether it succeeded and whether its
/// readings are plausible.
pub open spec fn spec_classify_read(read_ok: bool, plausible: bool) -> ReadOutcome {
    if !read_ok {
        ReadOutcome::Failed
    } else if plausible {
        ReadOutcome::Plausible
    } else {
        ReadOutcome::Implausible
    }
}

/// Law: a failed read is a failure whatever else is known; a successful
/// read is plausible exactly when its readings are.
pub proof fn lemma_classify_read(read_ok: bool, plausible: bool)
    ensures
        !read_ok ==> spec_classify_read(read_ok, plausible) == ReadOutcome::Failed,
        read_ok ==> (spec_classify_read(read_ok, plausible) == ReadOutcome::Plausible
            <==> plausible),
        read_ok ==> spec_classify_read(read_ok, plausible) != ReadOutcome::Failed,
{
}

/// The outcome of a read, from whether it succeeded and whether its
/// readings are plausible.
pub fn classify_read(read_ok: bool, plausible: bool) -> (o: ReadOutcome)
    ensures
        o == spec_classify_read(read_ok, plausible),
{
    if !read_ok {
        ReadOutcome::Failed
    } else if plausible {
        ReadOutcome::Plausible
    } else {
        ReadOutcome::Implausible
    }
}

/// Decides what to do after one poll.
pub fn plan_cycle(one_shot: bool, outcome: ReadOutcome) -> (p: CyclePlan)
    ensures
        p == spec_plan_cycle(one_shot, outcome),
{
    let plausible = match outcome {
        ReadOutcome::Plausible => true,
        _ => false,
    };
    CyclePlan {
        print_readings: plausible,
        report_read_error: match outcome {
            ReadOutcome::Failed => true,
            _ => false,
        },
        log_implausible: match outcome {
            ReadOutcome::Implausible => true,
            _ => false,
        },
        timestamped: !one_shot,
        push: !one_shot && plausible,
        stop: one_shot,
    }
}

/// Law: continuous polling survives every outcome; readings reach InfluxDB
/// only when they are plausible and polling is continuous; and every
/// outcome is either shown, reported or logged.
pub proof fn lemma_cycle_plan(one_shot: bool, outcome: ReadOutcome)
    ensures
        !one_shot ==> !spec_plan_cycle(one_shot, outcome).stop,
        one_shot ==> spec_plan_cycle(one_shot, outcome).stop,
        spec_plan_cycle(one_shot, outcome).push ==> outcome == ReadOutcome::Plausible && !one_shot,
        spec_plan_cycle(one_shot, outcome).print_readings || spec_plan_cycle(
            one_shot,
            outcome,
        ).report_read_error || spec_plan_cycle(one_shot, outcome).log_implausible,
{
}

/// Law: each action follows from the outcome alone as the reader intends:
/// readings are printed exactly when plausible, a read error is reported
/// exactly when the read failed, implausible readings are only logged,
/// output is stamped with the time exactly in continuous polling, readings
/// are pushed exactly when plausible in continuous polling, and only a
/// single read stops.
pub proof fn lemma_cycle_actions(one_shot: bool, outcome: ReadOutcome)
    ensures
        spec_plan_cycle(one_shot, outcome).print_readings <==> outcome == ReadOutcome::Plausible,
        spec_plan_cycle(one_shot, outcome).report_read_error <==> outcome == ReadOutcome::Failed,
        spec_plan_cycle(one_shot, outcome).log_implausible <==> outcome
            == ReadOutcome::Implausible,
        spec_plan_cycle(one_shot, outcome).timestamped <==> !one_shot,
        spec_plan_cycle(one_shot, outcome).push <==> (!one_shot && outcome
            == ReadOutcome::Plausible),
        spec_plan_cycle(one_shot, outcome).stop <==> one_shot,
{
}

/// Law: the plan of a poll does not depend on anything but whether polling
/// is continuous and how the read turned out; in particular a single read
/// and a continuous poll print and report the same outcomes alike.
pub proof fn lemma_cycle_shows_alike(outcome: ReadOutcome)
    ensures
        spec_plan_cycle(true, outcome).print_readings == spec_plan_cycle(
            false,
            outcome,
        ).print_readings,
        spec_plan_cycle(true, outcome).report_read_error == spec_plan_cycle(
            false,
            outcome,
        ).report_read_error,
        spec_plan_cycle(true, outcome).log_implausible == spec_plan_cycle(
            false,
            outcome,
        ).log_implausible,
{
}

/// The error text when the inverter does not answer in time.
pub open spec fn spec_read_timeout_message(seconds: u64) -> Seq<char> {
    "inverter did not respond within "@ + decimal(seconds as nat) + " seconds"@
}

/// Law: the timeout message names the seconds waited, in decimal digits
/// that read back as that number, between its fixed opening and closing
/// words.
pub proof fn lemma_read_timeout_message(seconds: u64)
    ensures
        spec_read_timeout_message(seconds).take(32) == "inverter did not respond within "@,
        spec_read_timeout_message(seconds).skip(spec_read_timeout_message(seconds).len() - 8)
            == " seconds"@,
        all_digits(
            spec_read_timeout_message(seconds).subrange(
                32,
                spec_read_timeout_message(seconds).len() - 8,
            ),
        ),
        digits_value(
            spec_read_timeout_message(seconds).subrange(
                32,
                spec_read_timeout_message(seconds).len() - 8,
            ),
        ) == seconds,
{
    reveal_strlit("inverter did not respond within ");
    reveal_strlit(" seconds");
    lemma_decimal_roundtrip(seconds as nat);
    let m = spec_read_timeout_message(seconds);
    let d = decimal(seconds as nat);
    assert(m.take(32) =~= "inverter did not respond within "@);
    assert(m.skip(m.len() - 8) =~= " seconds"@);
    assert(m.subrange(32, m.len() - 8) =~= d);
}

/// The error text when the inverter does not answer within `seconds`.
pub fn read_timeout_message(seconds: u64) -> (m: String)
    ensures
        m@ == spec_read_timeout_message(seconds),
{
    let mut m = String::from_str("inverter did not respond within ");
    push_decimal(&mut m, seconds as u128);
    m.append(" seconds");
    m
}

} // verus!
