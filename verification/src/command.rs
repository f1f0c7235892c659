use vstd::prelude::*;

use crate::error::Error;

verus! {

/// What the operating system reported for a request to open a URL with its
/// default handler. The shell never inspects the text of a failure; it is
/// kept only so that a caller of the decision functions loses nothing.
pub enum OsOpenOutcome {
    /// The OS accepted the open request.
    Accepted,
    /// The OS rejected the request with a diagnostic.
    Failed { message: String },
}

/// The string handed to the system opener: exactly the caller's URL.
/// The command performs no validation and no rewriting.
pub fn open_request(url: &str) -> (r: &str)
    ensures
        r@ == url@,
{
    url
}

/// What the command reports to its caller, given what the operating system
/// answered: success, for every outcome. The OS result is discarded, never
/// surfaced as the declared error type.
pub fn open_url_result(_outcome: OsOpenOutcome) -> (r: Result<(), Error>)
    ensures
        r is Ok,
{
    Ok(())
}

} // verus!
