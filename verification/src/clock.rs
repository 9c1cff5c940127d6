//! Wall-clock timestamps in the two textual forms the server uses.
use vstd::prelude::*;
use crate::text::{decimal, decimal_chars, push_all, string_of};

verus! {

/// `std::time::SystemTime`, carried through as an opaque value.
#[verifier::external_type_specification]
#[verifier::external_body]
pub struct ExSystemTime(std::time::SystemTime);

/// Calls `std::time::SystemTime::now`; the result depends on the clock, so
/// nothing is stated of it.
#[verifier::external_body]
fn system_time_now() -> (res: std::time::SystemTime) {
    std::time::SystemTime::now()
}

/// Calls `SystemTime::duration_since(UNIX_EPOCH)` and returns the whole
/// seconds and the sub-second milliseconds (zero for a time before the
/// epoch, as `unwrap_or_default` gives). `Duration::subsec_millis` is
/// documented to be below one thousand.
#[verifier::external_body]
fn since_unix_epoch(t: std::time::SystemTime) -> (res: (u64, u32))
    ensures
        res.1 < 1000,
{
    match t.duration_since(std::time::UNIX_EPOCH) {
        Ok(d) => (d.as_secs(), d.subsec_millis()),
        Err(_) => (0, 0),
    }
}

/// `m` (below one thousand) zero-padded to three digits.
pub open spec fn three_digits(m: nat) -> Seq<char> {
    if m < 10 {
        seq!['0', '0'] + decimal(m)
    } else if m < 100 {
        seq!['0'] + decimal(m)
    } else {
        decimal(m)
    }
}

/// The text `<seconds>.<milliseconds>Z`.
pub open spec fn epoch_millis_text(secs: nat, millis: nat) -> Seq<char> {
    decimal(secs) + seq!['.'] + three_digits(millis) + seq!['Z']
}

/// Seconds since the epoch in decimal.
pub fn format_epoch_seconds(secs: u64) -> (res: String)
    ensures
        res@ == decimal(secs as nat),
{
    string_of(&decimal_chars(secs))
}

/// Seconds and milliseconds since the epoch as `<seconds>.<mmm>Z`.
pub fn format_epoch_millis(secs: u64, millis: u32) -> (res: String)
    requires
        millis < 1000,
    ensures
        res@ == epoch_millis_text(secs as nat, millis as nat),
{
    let mut out = decimal_chars(secs);
    out.push('.');
    if millis < 10 {
        out.push('0');
        out.push('0');
    } else if millis < 100 {
        out.push('0');
    }
    push_all(&mut out, &decimal_chars(millis as u64));
    out.push('Z');
    string_of(&out)
}

/// The current time as seconds since the Unix epoch, in decimal.
pub fn now_iso() -> (res: String)
    ensures
        exists|secs: u64| res@ == decimal(secs as nat),
{
    let (secs, _millis) = since_unix_epoch(system_time_now());
    format_epoch_seconds(secs)
}

/// The current time as `<seconds>.<mmm>Z` since the Unix epoch.
pub fn chrono_iso_now() -> (res: String)
    ensures
        exists|secs: u64, millis: u32| millis < 1000 && res@ == epoch_millis_text(secs as nat, millis as nat),
{
    let (secs, millis) = since_unix_epoch(system_time_now());
    format_epoch_millis(secs, millis)
}

} // verus!
