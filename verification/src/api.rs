//! The service's endpoints and the rule for reading its answer.

use vstd::prelude::*;
use vstd::string::StringExecFns;

verus! {

/// The fixed base URL of the time-tracking service's API.
pub open spec fn api_base() -> Seq<char> {
    "https://www.toggl.com/api/v8"@
}

/// The endpoint that time entries are posted to.
pub fn toggl_api_time_entries() -> (r: String)
    ensures
        r@ == api_base() + "/time_entries"@,
{
    let mut url = String::from_str("https://www.toggl.com/api/v8");
    url.append("/time_entries");
    url
}

/// Decides whether the service accepted the request: only an HTTP status of
/// exactly 200 counts as success; any other status aborts the run.
pub fn status_accepted(status: u16) -> (r: bool)
    ensures
        r <==> status == 200,
{
    status == 200
}

} // verus!
