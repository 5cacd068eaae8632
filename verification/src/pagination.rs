//! Pagination parameters, parsed from a request's query-string pairs.

use vstd::prelude::*;
use crate::errors::{ParseFailure, ServiceError};
use crate::text::{parse_u32, parse_u32_spec, str_eq};

verus! {

/// A listing window: how many rows to skip, and how many to return at most
/// (no limit when absent).
#[derive(Clone, Copy, Debug, PartialEq, Eq, Structural)]
pub struct Pagination {
    pub offset: i32,
    pub limit: Option<i32>,
}

impl Default for Pagination {
    /// The window used when a request carries no parameters: skip nothing,
    /// no limit.
    fn default() -> (r: Self)
        ensures
            r.offset == 0,
            r.limit is None,
    {
        Pagination { offset: 0, limit: None }
    }
}

/// The value under the first pair carrying `key`, if any.
pub open spec fn lookup_param(params: Seq<(String, String)>, key: Seq<char>) -> Option<Seq<char>>
    decreases params.len(),
{
    if params.len() == 0 {
        None
    } else if params[0].0@ == key {
        Some(params[0].1@)
    } else {
        lookup_param(params.drop_first(), key)
    }
}

/// What parsing the query-string pairs yields: both `offset` and `limit`
/// must be present, each must be an unsigned 32-bit decimal number — the
/// first parse failure, offset before limit, becomes the error's context —
/// and the values are stored as signed 32-bit columns expect them.
pub open spec fn spec_parse_from_map(params: Seq<(String, String)>) -> Result<
    Pagination,
    ServiceError,
> {
    match (lookup_param(params, "offset"@), lookup_param(params, "limit"@)) {
        (Some(o), Some(l)) => match parse_u32_spec(o) {
            Err(c) => Err(ServiceError::ParseError(c)),
            Ok(ov) => match parse_u32_spec(l) {
                Err(c) => Err(ServiceError::ParseError(c)),
                Ok(lv) => Ok(Pagination { offset: ov as i32, limit: Some(lv as i32) }),
            },
        },
        _ => Err(ServiceError::MissingParams),
    }
}

/// Find the value under `key` among the query-string pairs.
#[verifier::loop_isolation(false)]
fn find_param<'a>(params: &'a Vec<(String, String)>, key: &str) -> (r: Option<&'a String>)
    ensures
        match r {
            Some(v) => lookup_param(params@, key@) == Some(v@),
            None => lookup_param(params@, key@) is None,
        },
{
    let n = params.len();
    let mut i: usize = 0;
    assert(params@.skip(0) =~= params@);
    while i < n
        invariant
            i <= n,
            lookup_param(params@, key@) == lookup_param(params@.skip(i as int), key@),
        decreases n - i,
    {
        if str_eq(params[i].0.as_str(), key) {
            assert(params@.skip(i as int)[0] == params@[i as int]);
            return Some(&params[i].1);
        }
        proof {
            assert(params@.skip(i as int).drop_first() =~= params@.skip(i as int + 1));
        }
        i = i + 1;
    }
    None
}

impl Pagination {
    /// Parse the listing window out of the request's query-string pairs.
    pub fn parse_from_map(params: &Vec<(String, String)>) -> (r: Result<Pagination, ServiceError>)
        ensures
            r == spec_parse_from_map(params@),
    {
        let offset_text = match find_param(params, "offset") {
            Some(v) => v,
            None => {
                return Err(ServiceError::MissingParams);
            },
        };
        let limit_text = match find_param(params, "limit") {
            Some(v) => v,
            None => {
                return Err(ServiceError::MissingParams);
            },
        };
        let offset = match parse_u32(offset_text.as_str()) {
            Ok(v) => v,
            Err(c) => {
                return Err(ServiceError::ParseError(c));
            },
        };
        let limit = match parse_u32(limit_text.as_str()) {
            Ok(v) => v,
            Err(c) => {
                return Err(ServiceError::ParseError(c));
            },
        };
        Ok(
            Pagination {
                offset: #[verifier::truncate] (offset as i32),
                limit: Some(#[verifier::truncate] (limit as i32)),
            },
        )
    }
}

/// The window a listing request uses: the defaults when the request carries
/// no parameters at all, else exactly what parsing them yields.
pub fn resolve_pagination(params: &Vec<(String, String)>) -> (r: Result<Pagination, ServiceError>)
    ensures
        params@.len() == 0 ==> r == Ok::<Pagination, ServiceError>(
            Pagination { offset: 0, limit: None },
        ),
        params@.len() > 0 ==> r == spec_parse_from_map(params@),
{
    if params.len() == 0 {
        Ok(Pagination::default())
    } else {
        Pagination::parse_from_map(params)
    }
}

} // verus!
