//! Watch points that do nothing: the library itself never guards a call
//! with a timer, so that it stays free of threads.

use vstd::prelude::*;

verus! {

/// Inert watch point.
pub struct WatchPoint();

/// Sets an inert watch point: none is ever created.
pub fn watch_millis(id: &'static str, millis: u64) -> (wp: Option<WatchPoint>)
    ensures
        wp is None,
{
    None
}

/// Like `watch_millis`; the callback is never called.
pub fn watch_millis_with<F: Fn() -> String + Send + 'static>(
    id: &'static str,
    millis: u64,
    callback: F,
) -> (wp: Option<WatchPoint>)
    ensures
        wp is None,
{
    None
}

} // verus!
