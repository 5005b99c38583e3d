//! The wire-level event of one cycle.
//!
//! The three percentages become exactly one payload string of the fixed
//! schema `CPU_USAGE="<n>%" MEMORY_USAGE="<n>%" DISK_USAGE="<n>%"` — order,
//! key names, quoting and the trailing percent signs are a compatibility
//! contract with the consumer process and are pinned down character by
//! character.

use crate::metrics::MetricSnapshot;
use crate::normalize::NormalizeError;
use crate::normalize::UtilizationReport;
use crate::normalize::clamp_u32;
use crate::normalize::normalize_snapshot;
use crate::normalize::rounded_average_percent;
use crate::normalize::rounded_ratio_percent;
use crate::normalize::sum_centi;
use vstd::prelude::*;
use vstd::string::StringExecFns;

verus! {

/// The decimal digit character for `d`.
pub open spec fn digit_char(d: int) -> char
    recommends
        0 <= d <= 9,
{
    if d == 0 {
        '0'
    } else if d == 1 {
        '1'
    } else if d == 2 {
        '2'
    } else if d == 3 {
        '3'
    } else if d == 4 {
        '4'
    } else if d == 5 {
        '5'
    } else if d == 6 {
        '6'
    } else if d == 7 {
        '7'
    } else if d == 8 {
        '8'
    } else {
        '9'
    }
}

/// The decimal rendering of `n` without sign, padding or decimal places:
/// most significant digit first, a single `'0'` for zero.
pub open spec fn dec_digits(n: int) -> Seq<char>
    recommends
        0 <= n,
    decreases n,
{
    if n < 10 {
        seq![digit_char(n)]
    } else {
        dec_digits(n / 10).push(digit_char(n % 10))
    }
}

/// The one-character string for a single decimal digit.
fn digit_str(d: u32) -> (s: &'static str)
    requires
        d < 10,
    ensures
        s@ == seq![digit_char(d as int)],
{
    proof {
        reveal_strlit("0");
        reveal_strlit("1");
        reveal_strlit("2");
        reveal_strlit("3");
        reveal_strlit("4");
        reveal_strlit("5");
        reveal_strlit("6");
        reveal_strlit("7");
        reveal_strlit("8");
        reveal_strlit("9");
    }
    let s: &'static str = if d == 0 {
        "0"
    } else if d == 1 {
        "1"
    } else if d == 2 {
        "2"
    } else if d == 3 {
        "3"
    } else if d == 4 {
        "4"
    } else if d == 5 {
        "5"
    } else if d == 6 {
        "6"
    } else if d == 7 {
        "7"
    } else if d == 8 {
        "8"
    } else {
        "9"
    };
    proof {
        assert(s@ =~= seq![digit_char(d as int)]);
    }
    s
}

/// Renders `n` in decimal, matching `dec_digits`.
pub fn u32_dec_string(n: u32) -> (s: String)
    ensures
        s@ == dec_digits(n as int),
    decreases n,
{
    if n < 10 {
        String::from_str(digit_str(n))
    } else {
        let mut s = u32_dec_string(n / 10);
        s.append(digit_str(n % 10));
        proof {
            assert(s@ =~= dec_digits(n as int));
        }
        s
    }
}

/// The payload schema: three fixed keys in fixed order, each value a bare
/// integer percentage, double-quoted with a trailing literal `%`.
pub open spec fn payload_spec(cpu: int, mem: int, disk: int) -> Seq<char> {
    "CPU_USAGE=\""@ + dec_digits(cpu) + "%\" MEMORY_USAGE=\""@ + dec_digits(mem)
        + "%\" DISK_USAGE=\""@ + dec_digits(disk) + "%\""@
}

/// Serializes the three percentages of a report into the payload string,
/// bit for bit as `payload_spec` lays it out.
pub fn format_payload(report: &UtilizationReport) -> (r: String)
    ensures
        r@ == payload_spec(
            report.cpu_percent as int,
            report.memory_percent as int,
            report.disk_percent as int,
        ),
{
    let cpu = u32_dec_string(report.cpu_percent);
    let mem = u32_dec_string(report.memory_percent);
    let disk = u32_dec_string(report.disk_percent);
    let mut s = String::from_str("CPU_USAGE=\"");
    s.append(cpu.as_str());
    s.append("%\" MEMORY_USAGE=\"");
    s.append(mem.as_str());
    s.append("%\" DISK_USAGE=\"");
    s.append(disk.as_str());
    s.append("%\"");
    proof {
        assert(s@ =~= payload_spec(
            report.cpu_percent as int,
            report.memory_percent as int,
            report.disk_percent as int,
        ));
    }
    s
}

/// One cycle's notification: a constant event name and the formatted
/// payload, delivered once and discarded.
#[derive(Debug)]
pub struct NotificationEvent {
    pub name: String,
    pub payload: String,
}

/// Builds the cycle's event: the name is always `system_stats`, the payload
/// is the report serialized by `format_payload`.
pub fn build_event(report: &UtilizationReport) -> (ev: NotificationEvent)
    ensures
        ev.name@ == "system_stats"@,
        ev.payload@ == payload_spec(
            report.cpu_percent as int,
            report.memory_percent as int,
            report.disk_percent as int,
        ),
{
    NotificationEvent { name: String::from_str("system_stats"), payload: format_payload(report) }
}

/// Whether a snapshot admits normalization: at least one CPU sample and
/// non-zero memory and disk totals.
pub open spec fn cycle_ok(s: MetricSnapshot) -> bool {
    &&& s.cpu_core_centi_percents@.len() > 0
    &&& s.memory_total_bytes > 0
    &&& s.disk_total_bytes > 0
}

/// The fault reported for a snapshot that does not admit normalization.
pub open spec fn cycle_fault(s: MetricSnapshot) -> NormalizeError
    recommends
        !cycle_ok(s),
{
    if s.cpu_core_centi_percents@.len() == 0 {
        NormalizeError::EmptyCpuSample
    } else {
        NormalizeError::ZeroTotal
    }
}

/// The exact payload a normalizable snapshot produces: each counter
/// normalized as `normalize_snapshot` states, then laid out by
/// `payload_spec`.
pub open spec fn cycle_payload(s: MetricSnapshot) -> Seq<char>
    recommends
        cycle_ok(s),
{
    payload_spec(
        clamp_u32(
            rounded_average_percent(
                sum_centi(s.cpu_core_centi_percents@),
                s.cpu_core_centi_percents@.len() as int,
            ),
        ),
        rounded_ratio_percent(s.memory_used_bytes as int, s.memory_total_bytes as int),
        rounded_ratio_percent(
            s.disk_total_bytes - s.disk_available_bytes,
            s.disk_total_bytes as int,
        ),
    )
}

/// One cycle's pure pipeline after sampling: normalize the snapshot and
/// serialize the result into the notification event.
///
/// Succeeds exactly when the snapshot admits normalization; the event then
/// carries the constant name and the payload `cycle_payload` pins down.
pub fn build_cycle_event(s: &MetricSnapshot) -> (r: Result<NotificationEvent, NormalizeError>)
    requires
        s.wf(),
    ensures
        r is Ok <==> cycle_ok(*s),
        r matches Ok(ev) ==> ev.name@ == "system_stats"@ && ev.payload@ == cycle_payload(*s),
        r matches Err(e) ==> e == cycle_fault(*s),
{
    match normalize_snapshot(s) {
        Ok(report) => Ok(build_event(&report)),
        Err(e) => Err(e),
    }
}

} // verus!
