//! Clearing away files that may already be gone.

use vstd::prelude::*;

verus! {

/// `std::io::Error`, taken as it is: nothing of its inside is known here.
#[verifier::external_type_specification]
#[verifier::external_body]
pub struct ExIoError(std::io::Error);

/// Whether the kind of an I/O error is `NotFound`.
pub uninterp spec fn reports_not_found(e: std::io::Error) -> bool;

/// `std::io::Error::kind`, compared with `ErrorKind::NotFound`. Not proved:
/// that the answer is the one that `reports_not_found` stands for.
#[verifier::external_body]
fn is_not_found(e: &std::io::Error) -> (not_found: bool)
    ensures
        not_found == reports_not_found(*e),
{
    match e.kind() {
        std::io::ErrorKind::NotFound => true,
        _ => false,
    }
}

/// The default value where `not_found` is set, the error otherwise.
pub fn default_if_not_found<OK: Default>(not_found: bool, e: std::io::Error) -> (result: Result<
    OK,
    std::io::Error,
>)
    ensures
        not_found ==> result is Ok && call_ensures(OK::default, (), result->Ok_0),
        !not_found ==> result == Err::<OK, std::io::Error>(e),
{
    if not_found {
        Ok(OK::default())
    } else {
        Err(e)
    }
}

/// Turns the failure to find a file into a success with the default value,
/// and hands every other error on as it is.
pub fn ignore_file_not_found<OK: Default>(e: std::io::Error) -> (result: Result<
    OK,
    std::io::Error,
>)
    ensures
        reports_not_found(e) ==> result is Ok && call_ensures(OK::default, (), result->Ok_0),
        !reports_not_found(e) ==> result == Err::<OK, std::io::Error>(e),
{
    let not_found = is_not_found(&e);
    default_if_not_found(not_found, e)
}

} // verus!
