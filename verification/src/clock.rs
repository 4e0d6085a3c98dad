//! Wall-clock readings and the calibration of the displayed time against the
//! `Date` header of a server's response.

use vstd::prelude::*;

verus! {

/// Nanoseconds in a millisecond.
pub const NANOS_PER_MILLI: i128 = 1_000_000;

/// The latest second that an HTTP date can denote: 9999-12-31 23:59:59 UTC.
pub const MAX_HTTP_DATE_SECS: u64 = 253_402_300_799;

/// `SystemTime::now()`, as its distance from the Unix epoch in nanoseconds:
/// `Ok` after the epoch, `Err` before it. Nothing is stated of the reading: it
/// is the machine's clock.
#[verifier::external_body]
fn system_time_now() -> (r: Result<u128, u128>) {
    match std::time::SystemTime::now().duration_since(std::time::UNIX_EPOCH) {
        Ok(d) => Ok(d.as_nanos()),
        Err(e) => Err(e.duration().as_nanos()),
    }
}

/// The instant `SystemTime` stands at, in signed nanoseconds since the epoch.
pub open spec fn signed_nanos(reading: Result<u128, u128>) -> int {
    match reading {
        Ok(after) => after as int,
        Err(before) => -(before as int),
    }
}

/// The current time in signed nanoseconds since the Unix epoch, saturated to
/// the range of `i128` (which any clock reading lies far within).
fn now_nanos() -> (r: i128)
    ensures
        exists|reading: Result<u128, u128>| r == saturate_i128(signed_nanos(reading)),
{
    let reading = system_time_now();
    let r: i128 = match reading {
        Ok(after) => if after > i128::MAX as u128 { i128::MAX } else { after as i128 },
        Err(before) => if before > i128::MAX as u128 { -i128::MAX } else { -(before as i128) },
    };
    assert(r == saturate_i128(signed_nanos(reading)));
    r
}

/// `v` clamped into the range of `i128`, without its most negative value.
pub open spec fn saturate_i128(v: int) -> int {
    if v > i128::MAX { i128::MAX as int } else if v < -i128::MAX { -i128::MAX } else { v }
}

/// The seconds since the Unix epoch that an HTTP date denotes, when `text`
/// is one.
pub uninterp spec fn http_date_seconds(text: Seq<char>) -> Option<u64>;

/// `httpdate::parse_http_date`, as whole seconds since the Unix epoch: the
/// crate accepts the IMF-fixdate, RFC 850 and asctime forms for the years 1970
/// to 9999 and yields a whole second in that range.
#[verifier::external_body]
fn parse_http_date(text: &str) -> (r: Option<u64>)
    ensures
        r == http_date_seconds(text@),
        r matches Some(s) ==> s <= MAX_HTTP_DATE_SECS,
{
    match httpdate::parse_http_date(text) {
        Ok(t) => match t.duration_since(std::time::UNIX_EPOCH) {
            Ok(d) => Some(d.as_secs()),
            Err(_) => Some(0),
        },
        Err(_) => None,
    }
}

/// Whole milliseconds since the epoch of an instant given in nanoseconds,
/// zero before the epoch, truncated to 64 bits.
pub open spec fn epoch_millis(nanos: i128) -> i64 {
    if nanos < 0 {
        0
    } else {
        (nanos / NANOS_PER_MILLI) as i64
    }
}

/// Whole milliseconds since the epoch of an instant given in nanoseconds.
pub fn millis_since_epoch(nanos: i128) -> (r: i64)
    ensures
        r == epoch_millis(nanos),
{
    if nanos < 0 {
        0
    } else {
        (nanos / NANOS_PER_MILLI) as i64
    }
}

/// The current time in milliseconds since the Unix epoch.
pub fn epoch_ms() -> (r: i64)
    ensures
        exists|now: i128| r == epoch_millis(now),
{
    let now = now_nanos();
    millis_since_epoch(now)
}

/// The instant halfway through a request, rounded down to a nanosecond; the
/// request's start when the clock went back during it.
pub open spec fn request_midpoint(started: i128, finished: i128) -> int {
    if finished >= started {
        started + (finished - started) / 2
    } else {
        started as int
    }
}

/// The local time, in epoch milliseconds, taken as the moment a server
/// stamped its response.
pub open spec fn local_millis(started: i128, finished: i128) -> i64 {
    let mid = request_midpoint(started, finished);
    if mid < 0 {
        0
    } else {
        (mid / NANOS_PER_MILLI as int) as i64
    }
}

/// The offset to add to the local clock to read the server's clock.
pub open spec fn clock_offset(server_secs: u64, started: i128, finished: i128) -> int {
    server_secs * 1000 - local_millis(started, finished)
}

/// Whether that offset fits in 64 bits.
pub open spec fn clock_offset_fits(server_secs: u64, started: i128, finished: i128) -> bool {
    i64::MIN <= clock_offset(server_secs, started, finished) <= i64::MAX
}

/// The offset when it fits in 64 bits, else `None`.
pub open spec fn offset_outcome(server_secs: u64, started: i128, finished: i128) -> Option<i64> {
    if clock_offset_fits(server_secs, started, finished) {
        Some(clock_offset(server_secs, started, finished) as i64)
    } else {
        None
    }
}

fn midpoint_nanos(started: i128, finished: i128) -> (r: i128)
    ensures
        r == request_midpoint(started, finished),
{
    if finished < started {
        started
    } else if started >= 0 || finished < 0 {
        started + (finished - started) / 2
    } else {
        // Opposite signs: the distance is computed unsigned, where it fits.
        let distance: u128 = (finished as u128) + ((-(started + 1)) as u128) + 1;
        let half: u128 = distance / 2;
        started + (half as i128)
    }
}

/// The local time taken as the moment the server stamped its response.
fn local_millis_of(started: i128, finished: i128) -> (r: i64)
    ensures
        r == local_millis(started, finished),
{
    let mid = midpoint_nanos(started, finished);
    if mid < 0 {
        0
    } else {
        (mid / NANOS_PER_MILLI) as i64
    }
}

/// The server's clock minus the local clock, in milliseconds, for a
/// response stamped `server_secs` to a request that ran from `started` to
/// `finished` (nanoseconds since the epoch).
pub fn clock_offset_ms(server_secs: u64, started: i128, finished: i128) -> (r: i64)
    requires
        server_secs <= MAX_HTTP_DATE_SECS,
        clock_offset_fits(server_secs, started, finished),
    ensures
        r == clock_offset(server_secs, started, finished),
{
    let local = local_millis_of(started, finished);
    let server_ms: i64 = (server_secs * 1000) as i64;
    server_ms - local
}

/// The offset of the server's clock from the local one, read from a
/// response's `Date` header for a request started at `request_started`
/// (nanoseconds since the epoch) and finished now. No header, or one that is
/// not an HTTP date, gives `Some(0)`; `None` means the clock reading was so
/// far from the epoch that the offset does not fit in 64 bits.
pub fn server_offset_ms(date_header: Option<&str>, request_started: i128) -> (r: Option<i64>)
    ensures
        match date_header {
            None => r == Some(0i64),
            Some(h) => match http_date_seconds(h@) {
                None => r == Some(0i64),
                Some(secs) => exists|finished: i128|
                    r == #[trigger] offset_outcome(secs, request_started, finished),
            },
        },
{
    let header = match date_header {
        Some(h) => h,
        None => return Some(0),
    };
    let server_secs = match parse_http_date(header) {
        Some(s) => s,
        None => return Some(0),
    };
    let finished = now_nanos();
    let r = if offset_fits(server_secs, request_started, finished) {
        Some(clock_offset_ms(server_secs, request_started, finished))
    } else {
        None
    };
    assert(r == offset_outcome(server_secs, request_started, finished));
    r
}

fn offset_fits(server_secs: u64, started: i128, finished: i128) -> (r: bool)
    requires
        server_secs <= MAX_HTTP_DATE_SECS,
    ensures
        r == clock_offset_fits(server_secs, started, finished),
{
    let local = local_millis_of(started, finished);
    let diff: i128 = (server_secs as i128) * 1000 - (local as i128);
    i64::MIN as i128 <= diff && diff <= i64::MAX as i128
}


/// Milliseconds since the epoch round the instant down to a whole
/// millisecond, and instants before the epoch read as the epoch.
pub proof fn lemma_epoch_millis(nanos: i128)
    ensures
        nanos < 0 ==> epoch_millis(nanos) == 0,
        0 <= nanos < 1_000_000 * (i64::MAX + 1) ==> epoch_millis(nanos) * 1_000_000 <= nanos
            < (epoch_millis(nanos) + 1) * 1_000_000,
{
}

/// The request's midpoint is halfway between its start and finish, rounded
/// down (its start when the clock went back); the local reading is that
/// midpoint in whole milliseconds (zero before the epoch); and the offset is
/// what turns that reading into the server's time.
pub proof fn lemma_offset_is_server_minus_midpoint(server_secs: u64, started: i128, finished: i128)
    ensures
        started <= finished ==> 2 * request_midpoint(started, finished) <= started + finished
            <= 2 * request_midpoint(started, finished) + 1,
        finished < started ==> request_midpoint(started, finished) == started,
        request_midpoint(started, finished) < 0 ==> local_millis(started, finished) == 0,
        0 <= request_midpoint(started, finished) < 1_000_000 * (i64::MAX + 1) ==> local_millis(
            started,
            finished,
        ) * 1_000_000 <= request_midpoint(started, finished) < (local_millis(started, finished)
            + 1) * 1_000_000,
        clock_offset(server_secs, started, finished) + local_millis(started, finished)
            == server_secs * 1000,
{
}

} // verus!
