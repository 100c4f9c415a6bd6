//! Wording of the few values that are shown as text.

use crate::text::{decimal, decimal_digits};
use vstd::prelude::*;

verus! {

/// How an uptime of `seconds` reads: seconds alone below a minute, minutes
/// and seconds below an hour, hours and minutes from there on.
pub open spec fn uptime_text(seconds: nat) -> Seq<char> {
    if seconds < 60 {
        decimal_digits(seconds) + "s"@
    } else if seconds < 3600 {
        decimal_digits(seconds / 60) + "m "@ + decimal_digits(seconds % 60) + "s"@
    } else {
        decimal_digits(seconds / 3600) + "h "@ + decimal_digits((seconds % 3600) / 60) + "m"@
    }
}

/// Words an uptime given in seconds: `42s`, `5m 7s`, `3h 25m`.
pub fn format_uptime(seconds: u64) -> (text: String)
    ensures
        text@ == uptime_text(seconds as nat),
{
    if seconds < 60 {
        decimal(seconds).concat("s")
    } else if seconds < 3600 {
        let minutes = decimal(seconds / 60);
        let rest = decimal(seconds % 60);
        minutes.concat("m ").concat(rest.as_str()).concat("s")
    } else {
        let hours = decimal(seconds / 3600);
        let minutes = decimal((seconds % 3600) / 60);
        hours.concat("h ").concat(minutes.as_str()).concat("m")
    }
}

} // verus!
