//! A page asked for by count: how many questions to skip and how many to
//! give.
use crate::decimal::{parse_u32, parse_unsigned};
use crate::errors::{Error, ErrorView};
use crate::infrastructure::params::QueryParams;
use vstd::prelude::*;

verus! {

/// How many questions a page holds where the request names no limit.
pub const DEFAULT_LIMIT: u32 = 10;

/// The page that a request asks for. A request without parameters asks for
/// none, and both fields are `None`.
#[derive(Debug, Clone, Copy, PartialEq, Eq, Structural)]
pub struct Pagination {
    /// How many questions are skipped.
    pub offset: Option<u32>,
    /// How many questions the page holds at most.
    pub limit: Option<u32>,
}

impl Default for Pagination {
    fn default() -> (r: Self)
        ensures
            r == (Pagination { offset: None, limit: None }),
    {
        Pagination { offset: None, limit: None }
    }
}

/// The offset and the limit that the parameters ask for, or why they ask for
/// none. Both `offset` and `limit` have to be there; the offset is read
/// first; and an offset above the limit is refused.
pub open spec fn requested_page(params: Map<Seq<char>, Seq<char>>) -> Result<(int, int), ErrorView> {
    if !(params.contains_key("offset"@) && params.contains_key("limit"@)) {
        Err(ErrorView::MissingParameters)
    } else {
        match parse_unsigned(params["offset"@], u32::MAX as int) {
            Err(e) => Err(ErrorView::ParseError(e)),
            Ok(offset) => match parse_unsigned(params["limit"@], u32::MAX as int) {
                Err(e) => Err(ErrorView::ParseError(e)),
                Ok(limit) => if offset > limit {
                    Err(ErrorView::StartGreaterThanEnd)
                } else {
                    Ok((offset, limit))
                },
            },
        }
    }
}

/// Reads the page that the parameters of a request ask for. The numbers are
/// passed on as they are written, not held against the number of questions.
pub fn extract_pagination(params: QueryParams) -> (r: Result<Pagination, Error>)
    ensures
        match requested_page(params@) {
            Ok((offset, limit)) => r == Ok::<Pagination, Error>(
                Pagination { offset: Some(offset as u32), limit: Some(limit as u32) },
            ) && 0 <= offset <= limit <= u32::MAX,
            Err(e) => r matches Err(x) && x@ == e,
        },
        !(params@.contains_key("offset"@) && params@.contains_key("limit"@)) ==> r matches Err(
            Error::MissingParameters,
        ),
        r matches Ok(p) ==> p.offset is Some && p.limit is Some && p.offset->0 <= p.limit->0,
{
    let offset_text = match params.get("offset") {
        Some(text) => text,
        None => {
            return Err(Error::MissingParameters);
        },
    };
    let limit_text = match params.get("limit") {
        Some(text) => text,
        None => {
            return Err(Error::MissingParameters);
        },
    };
    let offset: u32 = match parse_u32(offset_text.as_str()) {
        Ok(n) => n,
        Err(e) => {
            return Err(Error::ParseError(e));
        },
    };
    let limit: u32 = match parse_u32(limit_text.as_str()) {
        Ok(n) => n,
        Err(e) => {
            return Err(Error::ParseError(e));
        },
    };
    if offset > limit {
        return Err(Error::StartGreaterThanEnd);
    }
    Ok(Pagination { offset: Some(offset), limit: Some(limit) })
}

/// Parameters that lack `offset` or `limit` ask for no page, whatever else
/// they hold.
pub proof fn lemma_missing_count_is_refused(params: Map<Seq<char>, Seq<char>>)
    requires
        !params.contains_key("offset"@) || !params.contains_key("limit"@),
    ensures
        requested_page(params) == Err::<(int, int), ErrorView>(ErrorView::MissingParameters),
{
}

/// The page that a request asks for, or why it asks for none. A request
/// without any parameter asks for no page and is no failure; any other
/// request has to name its page.
pub open spec fn asked_page(params: Map<Seq<char>, Seq<char>>) -> Result<Pagination, ErrorView> {
    if params == Map::<Seq<char>, Seq<char>>::empty() {
        Ok(Pagination { offset: None, limit: None })
    } else {
        match requested_page(params) {
            Ok((offset, limit)) => Ok(
                Pagination { offset: Some(offset as u32), limit: Some(limit as u32) },
            ),
            Err(e) => Err(e),
        }
    }
}

/// The page that a request asks for: none where it has no parameter, else
/// the one that its parameters name.
pub fn requested_pagination(params: QueryParams) -> (r: Result<Pagination, Error>)
    ensures
        match asked_page(params@) {
            Ok(page) => r == Ok::<Pagination, Error>(page),
            Err(e) => r matches Err(x) && x@ == e,
        },
{
    if params.is_empty() {
        Ok(Pagination::default())
    } else {
        extract_pagination(params)
    }
}

/// The limit and the offset that a store cuts a page with, in this order. A
/// limit that is not named is `DEFAULT_LIMIT`, an offset that is not named
/// is zero.
pub open spec fn window_of(limit: Option<u32>, offset: Option<u32>) -> (int, int) {
    (
        match limit {
            Some(n) => n as int,
            None => DEFAULT_LIMIT as int,
        },
        match offset {
            Some(n) => n as int,
            None => 0,
        },
    )
}

/// The limit and the offset that a store cuts a page with, wide enough for
/// a query to take any of them.
pub fn page_window(limit: Option<u32>, offset: Option<u32>) -> (r: (i64, i64))
    ensures
        r.0 == window_of(limit, offset).0,
        r.1 == window_of(limit, offset).1,
{
    let limit: u32 = match limit {
        Some(n) => n,
        None => DEFAULT_LIMIT,
    };
    let offset: u32 = match offset {
        Some(n) => n,
        None => 0,
    };
    (limit as i64, offset as i64)
}

} // verus!
