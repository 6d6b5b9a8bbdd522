pub mod cmd;
pub mod codec;
pub mod conn;
pub mod decode;
pub mod err;
pub mod request;
pub mod route;
pub mod strutil;
pub mod util;
pub mod wrapper;
pub mod value;

use vstd::prelude::*;

verus! {

/// The microsecond duration between two wall-clock readings, clamped so that a
/// clock that moved backwards never yields a negative duration.
pub fn duration_micros(start: i64, end: i64) -> (r: i64)
    ensures
        r >= 0,
        end >= start && end - start <= i64::MAX ==> r == end - start,
        end < start ==> r == 0,
{
    if end >= start {
        let d: i128 = end as i128 - start as i128;
        if d > i64::MAX as i128 {
            i64::MAX
        } else {
            d as i64
        }
    } else {
        0
    }
}

}
