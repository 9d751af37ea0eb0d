//! When the database files are built anew, and how much there is to download for it.

use vstd::prelude::*;

verus! {

/// Whether a file whose age is `age` (in nanoseconds; `None` when the file does not exist or
/// its age cannot be read) is at least `max_age` old; a file without a known age counts as
/// old.
pub fn older_than(age: Option<u128>, max_age: u128) -> (r: bool)
    ensures
        r == match age {
            Some(a) => a >= max_age,
            None => true,
        },
{
    match age {
        Some(a) => a >= max_age,
        None => true,
    }
}

/// Whether the databases are built anew: when asked to, or when the movies or the series
/// file is old.
pub fn needs_update(force: bool, movies_old: bool, series_old: bool) -> (r: bool)
    ensures
        r == (force || movies_old || series_old),
{
    force || movies_old || series_old
}

/// The number of bytes to download for both data files, when both are known.
pub fn total_content_length(basics: Option<u64>, ratings: Option<u64>) -> (r: Option<u64>)
    requires
        basics matches Some(b) && ratings matches Some(t) ==> b + t <= u64::MAX,
    ensures
        r == match (basics, ratings) {
            (Some(b), Some(t)) => Some((b + t) as u64),
            _ => None,
        },
{
    match (basics, ratings) {
        (Some(b), Some(t)) => Some(b + t),
        _ => None,
    }
}

} // verus!
