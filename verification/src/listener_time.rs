//! The one clock read the listener makes: the time of a detection, already
//! rendered for the notice line.

use crate::listener::timestamp_shape;
use vstd::prelude::*;

verus! {

/// Relies on `std::time::SystemTime::now` / `duration_since` (a checked
/// read of the system clock) and on chrono's `DateTime::<Utc>::from_timestamp`
/// (`None` outside the representable range) and `format("%F %T")`, which
/// renders any representable moment as `YYYY-MM-DD HH:MM:SS`. Every call on
/// this path returns rather than aborts; chrono's local-time lookup is not
/// used, because it can abort on degenerate time-zone data, so the moment is
/// rendered in UTC. `None` when the clock is before the epoch or out of
/// range; the text of a returned timestamp depends on the moment of the
/// call, so only its shape is assumed.
#[verifier::external_body]
pub(crate) fn clock_timestamp() -> (r: Option<String>)
    ensures
        r matches Some(ts) ==> timestamp_shape(ts@),
{
    let since_epoch = std::time::SystemTime::now()
        .duration_since(std::time::UNIX_EPOCH)
        .ok()?;
    let secs = i64::try_from(since_epoch.as_secs()).ok()?;
    let moment = chrono::DateTime::<chrono::Utc>::from_timestamp(secs, since_epoch.subsec_nanos())?;
    Some(moment.format("%F %T").to_string())
}

} // verus!
