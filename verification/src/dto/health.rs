use vstd::prelude::*;

verus! {

/// Body of the health check answer
pub struct Health {
    /// state of the server
    pub status: String,
}

} // verus!
