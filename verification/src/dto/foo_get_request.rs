use vstd::prelude::*;

verus! {

/// Foo get request struct
pub struct FooGetRequest {
    /// third party url parameter
    pub third_party_url: String,
}

} // verus!
