use vstd::prelude::*;

verus! {

/// The most forecast segments one request may ask for: five days of
/// three-hour segments.
pub const MAX_REQUESTABLE: u8 = 40;

/// A request for more forecast segments than can be had: the count asked
/// for and the most allowed.
#[derive(Debug, Clone, Copy, PartialEq, Eq, Structural)]
pub struct TooManyRequested(pub u8, pub u8);

/// The segment count to put in a forecast request: none, or one of at most
/// `MAX_REQUESTABLE`; a larger count is refused.
pub fn requested_count(count: Option<u8>) -> (r: Result<Option<u8>, TooManyRequested>)
    ensures
        match count {
            Some(n) if n > MAX_REQUESTABLE => r == Err::<Option<u8>, TooManyRequested>(
                TooManyRequested(n, MAX_REQUESTABLE),
            ),
            _ => r == Ok::<Option<u8>, TooManyRequested>(count),
        },
{
    match count {
        Some(n) => {
            if n > MAX_REQUESTABLE {
                Err(TooManyRequested(n, MAX_REQUESTABLE))
            } else {
                Ok(Some(n))
            }
        },
        None => Ok(None),
    }
}

/// Whether an HTTP status code reports success, that is lies in 200..300.
pub fn is_success_status(code: u16) -> (r: bool)
    ensures
        r == (200 <= code < 300),
{
    200 <= code && code < 300
}

/// Three-hour forecast segments in a day.
pub const SEGMENTS_PER_DAY: usize = 8;

/// How many leading segments of a forecast with `available` segments make
/// up its day: a whole day where there is one, otherwise the first segment
/// alone.
pub fn day_segment_count(available: usize) -> (r: usize)
    requires
        available > 0,
    ensures
        r == if available >= SEGMENTS_PER_DAY { SEGMENTS_PER_DAY } else { 1 },
        1 <= r <= available,
{
    if available >= SEGMENTS_PER_DAY {
        SEGMENTS_PER_DAY
    } else {
        1
    }
}

} // verus!
