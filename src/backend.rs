use vstd::prelude::*;
use vstd::string::*;

verus! {

/// Path of the backend's list of items not yet delivered.
pub const UNPOSTED_PATH: &'static str = "/items/unposted";

/// Path of the backend's acknowledgement endpoint.
pub const MARK_POSTED_PATH: &'static str = "/items/mark-posted";

/// Why a call to the backend did not succeed.
#[derive(PartialEq, Eq, Structural, Clone, Copy, Debug)]
pub enum BackendError {
    /// The request never got an answer (network failure).
    Transport,
    /// The backend answered with a status outside 2xx.
    Status(u16),
    /// The answer's body was not the expected JSON.
    Decode,
}

/// Body of an acknowledgement: the delivered links, in delivery order.
pub struct MarkPostedRequest {
    pub links: Vec<String>,
}

/// Whether an HTTP status code reports success (the 2xx range).
pub fn is_success_status(code: u16) -> (r: bool)
    ensures
        r == (200 <= code && code < 300),
{
    200 <= code && code < 300
}

/// Maps a response status to the outcome of a backend call: success on 2xx,
/// else a `BackendError::Status` carrying the code.
pub fn check_status(code: u16) -> (r: Result<(), BackendError>)
    ensures
        r is Ok <==> 200 <= code && code < 300,
        r is Err ==> r == Err::<(), BackendError>(BackendError::Status(code)),
{
    if is_success_status(code) {
        Ok(())
    } else {
        Err(BackendError::Status(code))
    }
}

/// `<api_base>/items/unposted`.
pub fn unposted_url(api_base: &str) -> (r: String)
    ensures
        r@ == api_base@ + UNPOSTED_PATH@,
{
    let mut s = String::from_str(api_base);
    s.append(UNPOSTED_PATH);
    s
}

/// `<api_base>/items/mark-posted`.
pub fn mark_posted_url(api_base: &str) -> (r: String)
    ensures
        r@ == api_base@ + MARK_POSTED_PATH@,
{
    let mut s = String::from_str(api_base);
    s.append(MARK_POSTED_PATH);
    s
}

} // verus!
