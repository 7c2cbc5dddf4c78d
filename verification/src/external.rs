//! The one call into an outside crate that the reporting logic makes:
//! rendering a timestamp as a local calendar date and time.

use vstd::prelude::*;

verus! {

/// No local calendar timestamp is formatted beyond this many
/// milliseconds since the Unix epoch (the last instant of the year
/// 9999). The formatter itself reaches much further, but every
/// platform's system-time type covers at least this range.
pub const LOCAL_TIME_MAX_MS: u64 = 253_402_300_799_999;

/// Relies on chrono's `From<SystemTime> for DateTime<Local>` and
/// `DateTime::format` with the fixed, valid layout `"%d %b %Y %r"`: the
/// result renders the given millisecond Unix timestamp as a local
/// calendar date with a 12-hour clock time. It depends on the machine's
/// time zone, so nothing is stated of it. chrono panics only on
/// timestamps beyond its representable range, which the bound keeps
/// out.
#[verifier::external_body]
pub(crate) fn format_local_timestamp(unix_ms: u64) -> (r: String)
    requires
        unix_ms <= LOCAL_TIME_MAX_MS,
{
    let t = std::time::UNIX_EPOCH + std::time::Duration::from_millis(unix_ms);
    chrono::DateTime::<chrono::Local>::from(t).format("%d %b %Y %r").to_string()
}

} // verus!
