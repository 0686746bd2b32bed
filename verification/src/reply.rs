use vstd::prelude::*;

verus! {

/// What came back from a request to the pad station.
#[derive(Clone, Copy, Debug, PartialEq, Eq, Structural)]
pub enum Reply {
    /// The request could not be sent or no response arrived.
    Failed,
    /// A response arrived with this HTTP status code.
    Status(u16),
}

/// Whether an HTTP status code lies in the success class (200 to 299).
pub open spec fn spec_is_success(code: u16) -> bool {
    200 <= code <= 299
}

/// `reqwest::StatusCode::from_u16` followed by `StatusCode::is_success`.
/// For a code in 100..=999 `from_u16` returns `Ok`, and `is_success` is true
/// exactly when the code lies in 200..300; codes outside 100..=999 are not
/// admitted.
#[verifier::external_body]
fn status_is_success(code: u16) -> (r: bool)
    requires
        100 <= code <= 999,
    ensures
        r == spec_is_success(code),
{
    match reqwest::StatusCode::from_u16(code) {
        Ok(status) => status.is_success(),
        Err(_) => false,
    }
}

impl Reply {
    /// A reply carries a status code that HTTP can express (100 to 999).
    pub open spec fn valid(self) -> bool {
        match self {
            Reply::Failed => true,
            Reply::Status(code) => 100 <= code <= 999,
        }
    }

    /// The request went through and was answered with a success status.
    pub open spec fn spec_succeeded(self) -> bool {
        match self {
            Reply::Failed => false,
            Reply::Status(code) => spec_is_success(code),
        }
    }

    /// Whether the request went through and was answered with a success status.
    pub fn succeeded(&self) -> (r: bool)
        requires
            self.valid(),
        ensures
            r == self.spec_succeeded(),
    {
        match self {
            Reply::Failed => false,
            Reply::Status(code) => status_is_success(*code),
        }
    }
}

} // verus!
