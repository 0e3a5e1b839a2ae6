//! Sizing of the worker pool.
use vstd::prelude::*;

verus! {

/// The number of concurrent workers: the requested count, or the host's
/// available parallelism when none is requested, and never fewer than one.
pub open spec fn worker_count_spec(requested: Option<usize>, available: usize) -> usize {
    let n = match requested {
        Some(n) => n,
        None => available,
    };
    if n == 0 {
        1
    } else {
        n
    }
}

pub fn worker_count(requested: Option<usize>, available: usize) -> (r: usize)
    ensures
        r == worker_count_spec(requested, available),
        r >= 1,
{
    let n = match requested {
        Some(n) => n,
        None => available,
    };
    if n == 0 {
        1
    } else {
        n
    }
}

} // verus!
