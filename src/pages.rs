use vstd::prelude::*;

verus! {

/// The JSON body served with status 500.
pub fn internal_error() -> (r: &'static str)
    ensures
        r@ == "{\"status\": \"internal error\"}"@,
{
    "{\"status\": \"internal error\"}"
}

/// The JSON body served with status 404, also for an unknown match label.
pub fn not_found() -> (r: &'static str)
    ensures
        r@ == "{\"status\": \"not found\"}"@,
{
    "{\"status\": \"not found\"}"
}

/// The text answered to `OPTIONS /`.
pub fn option() -> (r: &'static str)
    ensures
        r@ == "test"@,
{
    "test"
}

/// The text answered to `GET /`, which tells that the service is up.
pub fn default_get() -> (r: &'static str)
    ensures
        r@ == "default get"@,
{
    "default get"
}

} // verus!
