use vstd::prelude::*;

verus! {

/// Foo post request struct
pub struct FooPostRequest {
    /// third party url parameter
    pub third_party_url: String,
}

} // verus!
