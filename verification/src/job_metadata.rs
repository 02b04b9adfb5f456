//! What a job type declares about itself.

use vstd::prelude::*;

verus! {

/// A job type's queue, name and retry budget.
pub trait JobMetadata {
    /// The queue its jobs go to.
    fn queue() -> &'static str;

    /// Its name, under which its handler is registered.
    fn name() -> &'static str;

    /// How many times a failed job is retried; none unless the type says otherwise.
    fn max_retries() -> (r: usize)
        default_ensures
            r == 0,
    {
        0
    }
}

} // verus!
