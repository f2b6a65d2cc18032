use vstd::prelude::*;

verus! {

/// Common data error
#[derive(Debug, PartialEq, Eq, Structural, Hash, Clone)]
#[allow(non_camel_case_types)]
pub enum CommonError {
    NO_VALID_INPUT_OR_PARAMETER,
    API_ACCESS_ERROR,
}

impl CommonError {
    /// The text that stands for the error in log statements: the variant's own name.
    pub open spec fn spec_text(self) -> Seq<char> {
        match self {
            CommonError::NO_VALID_INPUT_OR_PARAMETER => "NO_VALID_INPUT_OR_PARAMETER"@,
            CommonError::API_ACCESS_ERROR => "API_ACCESS_ERROR"@,
        }
    }

    /// Renders the error as its variant's name.
    pub fn to_string(&self) -> (text: String)
        ensures
            text@ == self.spec_text(),
    {
        match self {
            CommonError::NO_VALID_INPUT_OR_PARAMETER => String::from_str("NO_VALID_INPUT_OR_PARAMETER"),
            CommonError::API_ACCESS_ERROR => String::from_str("API_ACCESS_ERROR"),
        }
    }
}

/// Two errors render to the same text only when they are the same error.
pub proof fn lemma_error_text_identifies_error(a: CommonError, b: CommonError)
    ensures
        a.spec_text() == b.spec_text() ==> a == b,
{
    reveal_strlit("NO_VALID_INPUT_OR_PARAMETER");
    reveal_strlit("API_ACCESS_ERROR");
    if a != b {
        assert(a.spec_text().len() != b.spec_text().len());
    }
}

} // verus!
