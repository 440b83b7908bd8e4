//! What one request's outcome leads to: its status, the severity of its log
//! record and whether the record is emitted, and its latency observation.

use vstd::prelude::*;
use crate::record::{ascii_chars, ascii_string, Elapsed, HttpRequestLog, LogView};
use crate::sampler::Sampler;

verus! {

/// The status recorded for a handler that failed: internal server error.
pub const FALLBACK_STATUS: u16 = 500;

/// The lowest status whose log record is an error.
pub const ERROR_STATUS_FLOOR: u16 = 500;

#[derive(Clone, Copy, Debug, PartialEq, Eq, Structural)]
pub enum Severity {
    Error,
    Debug,
}

/// What becomes of a request's log record.
#[derive(Clone, Copy, Debug, PartialEq, Eq, Structural)]
pub enum LogAction {
    Emit(Severity),
    Suppress,
}

/// The status of an outcome: the response's own on success, the fallback on
/// failure.
pub open spec fn status_of<T, E>(outcome: Result<(T, u16), E>) -> u16 {
    match outcome {
        Ok((_, s)) => s,
        Err(_) => FALLBACK_STATUS,
    }
}

/// The outcome as handed back to the caller: the response or the failure,
/// untouched.
pub open spec fn passed_on<T, E>(outcome: Result<(T, u16), E>) -> Result<T, E> {
    match outcome {
        Ok((t, _)) => Ok(t),
        Err(e) => Err(e),
    }
}

pub open spec fn severity_of_spec(status: u16) -> Severity {
    if status >= ERROR_STATUS_FLOOR {
        Severity::Error
    } else {
        Severity::Debug
    }
}

/// The action for a record of this severity arriving at `now`.
pub open spec fn action_of(severity: Severity, sampler: Sampler, now: u64) -> LogAction {
    match severity {
        Severity::Debug => LogAction::Emit(Severity::Debug),
        Severity::Error => if sampler.passes(now) {
            LogAction::Emit(Severity::Error)
        } else {
            LogAction::Suppress
        },
    }
}

/// The sampler after a record of this severity: only errors consult it.
pub open spec fn sampler_after(severity: Severity, sampler: Sampler, now: u64) -> Sampler {
    match severity {
        Severity::Debug => sampler,
        Severity::Error => sampler.after(now),
    }
}

/// The ASCII decimal digits of `n`, without leading zeros.
pub open spec fn decimal_digits(n: nat) -> Seq<u8>
    decreases n,
{
    if n < 10 {
        seq![(48 + n) as u8]
    } else {
        decimal_digits(n / 10).push((48 + n % 10) as u8)
    }
}

/// The label of a status in the metrics: its decimal text.
pub open spec fn status_label_of(status: u16) -> Seq<char> {
    ascii_chars(decimal_digits(status as nat))
}

/// The status derived from a handler's outcome.
pub fn outcome_status<T, E>(outcome: &Result<(T, u16), E>) -> (r: u16)
    ensures
        r == status_of(*outcome),
{
    match outcome {
        Ok((_, s)) => *s,
        Err(_) => FALLBACK_STATUS,
    }
}

/// Errors on the server's side are logged as errors, everything else as
/// routine.
pub fn severity_of(status: u16) -> (r: Severity)
    ensures
        r == severity_of_spec(status),
{
    if status >= ERROR_STATUS_FLOOR {
        Severity::Error
    } else {
        Severity::Debug
    }
}

/// Decides what becomes of a record of this severity arriving at `now`:
/// routine records are always emitted, errors go through the sampler.
pub fn log_action(severity: Severity, sampler: &mut Sampler, now: u64) -> (r: LogAction)
    ensures
        r == action_of(severity, *old(sampler), now),
        *final(sampler) == sampler_after(severity, *old(sampler), now),
{
    match severity {
        Severity::Debug => LogAction::Emit(Severity::Debug),
        Severity::Error => if sampler.try_pass(now) {
            LogAction::Emit(Severity::Error)
        } else {
            LogAction::Suppress
        },
    }
}

proof fn lemma_digits_ascii(n: nat)
    ensures
        forall|i: int| 0 <= i < decimal_digits(n).len() ==> #[trigger] decimal_digits(n)[i] < 128,
    decreases n,
{
    if n < 10 {
        assert(decimal_digits(n) =~= seq![(48 + n) as u8]);
    } else {
        lemma_digits_ascii(n / 10);
        let d = decimal_digits(n / 10);
        assert(decimal_digits(n) =~= d.push((48 + n % 10) as u8));
        assert forall|i: int| 0 <= i < decimal_digits(n).len() implies #[trigger] decimal_digits(n)[i]
            < 128 by {
            if i < d.len() {
                assert(decimal_digits(n)[i] == d[i]);
            }
        }
    }
}

fn push_digits(n: u16, out: &mut Vec<u8>)
    ensures
        final(out)@ == old(out)@ + decimal_digits(n as nat),
    decreases n,
{
    if n < 10 {
        out.push(48 + n as u8);
    } else {
        push_digits(n / 10, out);
        out.push(48 + (n % 10) as u8);
        assert(old(out)@ + decimal_digits(n as nat) =~= old(out)@ + decimal_digits((n / 10) as nat)
            + seq![(48 + n % 10) as u8]);
    }
}

/// The decimal text of a status, as the metrics label it.
pub fn status_label(status: u16) -> (r: String)
    ensures
        r@ == status_label_of(status),
{
    let mut digits: Vec<u8> = Vec::new();
    push_digits(status, &mut digits);
    proof {
        assert(digits@ =~= decimal_digits(status as nat));
        lemma_digits_ascii(status as nat);
    }
    ascii_string(&digits)
}

/// The one latency observation a request contributes to the metrics,
/// labelled by its status.
#[derive(Clone, Debug)]
pub struct Observation {
    pub label: String,
    pub elapsed: Elapsed,
}

/// Everything that follows a request once its handler has returned.
pub struct Report<T, E> {
    /// The handler's outcome, handed back to the caller untouched.
    pub result: Result<T, E>,
    /// The finished log record.
    pub log: HttpRequestLog,
    /// Whether, and at which severity, the record is emitted.
    pub action: LogAction,
    /// The latency observation, recorded whatever the outcome.
    pub observation: Observation,
}

/// The record with its outcome filled in.
pub open spec fn finished(log: LogView, status: u16, elapsed: Elapsed) -> LogView {
    LogView {
        remote_addr: log.remote_addr,
        method: log.method,
        path: log.path,
        status: status,
        referer: log.referer,
        user_agent: log.user_agent,
        elapsed: elapsed,
        forwarded: log.forwarded,
    }
}

/// Closes a request: `outcome` is what the handler produced, a response
/// with its status or a failure; `elapsed` is how long the handler took, and
/// `now` the time on the sampler's clock. The status and elapsed time go into
/// the record, the record's severity and the sampler decide whether it is
/// emitted, and exactly one observation is made of the elapsed time under the
/// status's label. The outcome itself is handed back unchanged.
pub fn complete<T, E>(
    log: HttpRequestLog,
    outcome: Result<(T, u16), E>,
    elapsed: Elapsed,
    sampler: &mut Sampler,
    now: u64,
) -> (r: Report<T, E>)
    ensures
        r.result == passed_on(outcome),
        r.log@ == finished(log@, status_of(outcome), elapsed),
        r.action == action_of(severity_of_spec(status_of(outcome)), *old(sampler), now),
        *final(sampler) == sampler_after(severity_of_spec(status_of(outcome)), *old(sampler), now),
        r.observation.label@ == status_label_of(status_of(outcome)),
        r.observation.elapsed == elapsed,
        // a failure is observed under the fallback status
        outcome is Err ==> r.log.status == FALLBACK_STATUS,
        // routine records are always emitted, and leave the sampler alone
        status_of(outcome) < ERROR_STATUS_FLOOR ==> r.action == LogAction::Emit(Severity::Debug)
            && *final(sampler) == *old(sampler),
        // an error within the interval after the last one that passed is suppressed
        status_of(outcome) >= ERROR_STATUS_FLOOR && old(sampler).last_pass is Some && (
        old(sampler).last_pass->0 <= now) && now - old(sampler).last_pass->0
            < old(sampler).interval ==> r.action == LogAction::Suppress && *final(sampler)
            == *old(sampler),
{
    let status = outcome_status(&outcome);
    let result = match outcome {
        Ok((response, _)) => Ok(response),
        Err(e) => Err(e),
    };
    let mut log = log;
    log.status = status;
    log.elapsed = elapsed;
    let action = log_action(severity_of(status), sampler, now);
    let observation = Observation { label: status_label(status), elapsed };
    Report { result, log, action, observation }
}

} // verus!
