//! The uniform JSON response envelope used by every handler.

use vstd::prelude::*;

verus! {

/// Pagination block attached to list responses.
#[derive(Debug, Clone, PartialEq)]
pub struct PaginationData {
    pub total: i64,
}

/// The envelope every endpoint answers with: a status flag, a message,
/// and optionally an error text, a data value and pagination data.
#[derive(Debug, Clone, PartialEq)]
pub struct ResponseBuilder<T> {
    pub status: bool,
    pub message: String,
    pub error: Option<String>,
    pub data: Option<T>,
    pub pagination: Option<PaginationData>,
}

#[allow(non_snake_case)]
impl<T> ResponseBuilder<T> {
    /// Envelope for a successful call: flag set, caller's message and data,
    /// an empty error text and no pagination.
    pub fn SuccessResponse(msg: String, data: Option<T>) -> (r: Self)
        ensures
            r.status == true,
            r.message == msg,
            r.error matches Some(e) && e@ == ""@,
            r.data == data,
            r.pagination is None,
    {
        ResponseBuilder {
            status: true,
            message: msg,
            error: Some("".to_owned()),
            data,
            pagination: None,
        }
    }

    /// Envelope for a failed call: flag cleared, the fixed failure message
    /// and the caller's error text, no data and no pagination.
    pub fn FailedResponse(err: String) -> (r: Self)
        ensures
            r.status == false,
            r.message@ == "Failed to process"@,
            r.error == Some(err),
            r.data is None,
            r.pagination is None,
    {
        ResponseBuilder {
            status: false,
            message: "Failed to process".to_owned(),
            error: Some(err),
            data: None,
            pagination: None,
        }
    }

    /// Envelope for a request that carried an unusable record id.
    pub fn InValidIdResponse() -> (r: Self)
        ensures
            r.status == false,
            r.message@ == "Failed to process"@,
            r.error matches Some(e) && e@ == "Invalid id provided !"@,
            r.data is None,
            r.pagination is None,
    {
        ResponseBuilder {
            status: false,
            message: "Failed to process".to_owned(),
            error: Some("Invalid id provided !".to_owned()),
            data: None,
            pagination: None,
        }
    }

    /// Envelope for a successful list call carrying a total row count.
    pub fn SuccessResponseWithPagination(msg: String, data: Option<T>, total: i64) -> (r: Self)
        ensures
            r.status == true,
            r.message == msg,
            r.error matches Some(e) && e@ == ""@,
            r.data == data,
            r.pagination == Some(PaginationData { total }),
    {
        ResponseBuilder {
            status: true,
            message: msg,
            error: Some("".to_owned()),
            data,
            pagination: Some(PaginationData { total }),
        }
    }
}

} // verus!
