//! What is reported when a step fails without stopping the run.
use vstd::prelude::*;

verus! {

/// The message to report for `result`: its error, if it failed.
pub fn log_on_err<T>(result: &Result<T, String>) -> (r: Option<String>)
    ensures
        match result {
            Ok(_) => r is None,
            Err(e) => r matches Some(m) && m@ == e@,
        },
{
    match result {
        Ok(_) => None,
        Err(e) => Some(e.clone()),
    }
}

} // verus!
