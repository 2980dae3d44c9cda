//! Settings the services read from their environment.
use vstd::prelude::*;

verus! {

/// Settings of the public API, each absent when its variable is unset.
pub struct Config {
    pub events_lambda_arn: Option<String>,
    pub api_token: Option<String>,
}

/// A setting's value, or `default` when the variable is unset.
pub fn value_or_default(found: Option<String>, default: &str) -> (r: String)
    ensures
        r@ == (match found {
            Some(v) => v@,
            None => default@,
        }),
{
    match found {
        Some(v) => v,
        None => String::from_str(default),
    }
}

} // verus!
