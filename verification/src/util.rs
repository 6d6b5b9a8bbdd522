use vstd::prelude::*;

verus! {

/// Relies on chrono's Local::now: the current wall-clock time as microseconds
/// since the Unix epoch. Nothing is promised of the value; callers must hold
/// for every reading.
#[verifier::external_body]
pub fn now_micros() -> (r: i64) {
    chrono::Local::now().timestamp_micros()
}

/// Relies on chrono's Local::now and DateTime::format: the current wall-clock
/// time rendered as "year-month-day hour:minute:second". Nothing is promised
/// of the text; it depends on the clock.
#[verifier::external_body]
pub fn now_text() -> (r: String) {
    chrono::Local::now().format("%Y-%m-%d %H:%M:%S").to_string()
}

/// Relies on chrono's Local::now and on format's zero-padded lower-case hex:
/// a fresh 32-character identifier derived from the nanosecond clock. Two
/// readings in the same nanosecond would coincide; nothing more is promised.
#[verifier::external_body]
pub fn random_str() -> (r: String)
    ensures
        r@.len() == 32,
{
    let n: u128 = chrono::Local::now().timestamp_nanos_opt().unwrap_or(0) as u128;
    format!("{:032x}", n)
}

}
