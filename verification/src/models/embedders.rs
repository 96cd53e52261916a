//! Embedders: the services that turn text into vectors.
use vstd::prelude::*;

verus! {

/// The default number of texts sent to an embedder at once: 50.
pub fn default_batch_size() -> (r: i32)
    ensures
        r == 50,
{
    50
}

} // verus!
