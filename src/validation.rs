//! The checks a request passes before it reaches the store or the provider.
use vstd::prelude::*;
use vstd::string::StringExecFns;
use crate::error::AppError;
use crate::models::{NewMovie, SearchParams};
use crate::text::{is_blank, is_blank_spec};

verus! {

/// The message naming the first required field of `req` that is blank, in
/// the order title, external id, submitter; `None` where none is.
pub open spec fn first_blank_field_message(req: NewMovie) -> Option<Seq<char>> {
    if is_blank_spec(req.title@) {
        Some("title cannot be empty"@)
    } else if is_blank_spec(req.imdb_id@) {
        Some("imdb_id cannot be empty"@)
    } else if is_blank_spec(req.added_by@) {
        Some("added_by cannot be empty"@)
    } else {
        None
    }
}

/// `r` is a bad-request error with the message `msg`.
pub open spec fn is_bad_request_with(r: Result<(), AppError>, msg: Seq<char>) -> bool {
    match r {
        Err(AppError::BadRequest(m)) => m@ == msg,
        _ => false,
    }
}

/// Checks that the required fields of a new-record request are not blank.
/// Optional fields are not looked at.
pub fn validate_new_movie(payload: &NewMovie) -> (r: Result<(), AppError>)
    ensures
        r is Ok <==> first_blank_field_message(*payload) is None,
        first_blank_field_message(*payload) is Some ==> is_bad_request_with(
            r,
            first_blank_field_message(*payload)->0,
        ),
{
    if is_blank(payload.title.as_str()) {
        return Err(AppError::BadRequest(String::from_str("title cannot be empty")));
    }
    if is_blank(payload.imdb_id.as_str()) {
        return Err(AppError::BadRequest(String::from_str("imdb_id cannot be empty")));
    }
    if is_blank(payload.added_by.as_str()) {
        return Err(AppError::BadRequest(String::from_str("added_by cannot be empty")));
    }
    Ok(())
}

/// The message a blank search query is refused with.
pub open spec fn empty_query_message() -> Seq<char> {
    "query parameter cannot be empty"@
}

/// Checks that a search has a query that is not blank; this comes before
/// any call to the provider.
pub fn validate_search_params(params: &SearchParams) -> (r: Result<(), AppError>)
    ensures
        r is Ok <==> !is_blank_spec(params.query@),
        is_blank_spec(params.query@) ==> is_bad_request_with(r, empty_query_message()),
{
    if is_blank(params.query.as_str()) {
        return Err(AppError::BadRequest(String::from_str("query parameter cannot be empty")));
    }
    Ok(())
}

} // verus!
