//! Every failure is reported as one message string.

use vstd::prelude::*;
use vstd::string::to_string_from_display_ensures;

verus! {

/// The message of an error, as its `Display` writes it.
pub fn estr<E: std::fmt::Display>(e: E) -> (r: String)
    ensures
        to_string_from_display_ensures::<E>(&e, r),
{
    e.to_string()
}

/// The outcome of a query with its error turned into a message. A failure
/// stays a failure: no default value takes its place.
pub fn reported<T, E: std::fmt::Display>(q: Result<T, E>) -> (r: Result<T, String>)
    ensures
        r is Ok <==> q is Ok,
        q is Ok ==> r == Ok::<T, String>(q->Ok_0),
        q is Err ==> to_string_from_display_ensures::<E>(&q->Err_0, r->Err_0),
{
    match q {
        Ok(v) => Ok(v),
        Err(e) => Err(estr(e)),
    }
}

} // verus!
