//! A page asked for by position: the index where it starts and the index
//! where it ends, both held against the number of questions.
use crate::decimal::{lemma_parse_unsigned_in_range, parse_unsigned, parse_usize, ParseFailure};
use crate::errors::{Error, ErrorView};
use crate::infrastructure::params::QueryParams;
use vstd::prelude::*;

verus! {

/// The part of a list from `start` up to, not including, `end`.
#[derive(Debug, Clone, Copy, PartialEq, Eq, Structural)]
pub struct Pagination {
    /// The index where the page starts.
    pub start: usize,
    /// The index where the page ends.
    pub end: usize,
}

/// `x`, or `max` where `x` is above it.
pub open spec fn capped(max: int, x: int) -> int {
    if x > max {
        max
    } else {
        x
    }
}

/// The function that holds a number down to `max`.
pub fn cap_number(max: usize) -> (f: impl Fn(usize) -> usize)
    ensures
        forall|x: usize| call_requires(f, (x,)),
        forall|x: usize, y: usize| call_ensures(f, (x,), y) ==> y == capped(max as int, x as int),
{
    move |x: usize| -> (y: usize)
        ensures
            y == capped(max as int, x as int),
        {
            if x > max {
                max
            } else {
                x
            }
        }
}

/// The bounds that the parameters ask for in a list of `total_length`
/// entries, or why they ask for none. Both `start` and `end` have to be
/// there; the start is read first; a start above the end is refused, whatever
/// the length; and a bound above the length is held down to it.
pub open spec fn requested_bounds(params: Map<Seq<char>, Seq<char>>, total_length: int) -> Result<
    (int, int),
    ErrorView,
> {
    if !(params.contains_key("start"@) && params.contains_key("end"@)) {
        Err(ErrorView::MissingParameters)
    } else {
        match parse_unsigned(params["start"@], usize::MAX as int) {
            Err(e) => Err(ErrorView::ParseError(e)),
            Ok(start) => match parse_unsigned(params["end"@], usize::MAX as int) {
                Err(e) => Err(ErrorView::ParseError(e)),
                Ok(end) => if start > end {
                    Err(ErrorView::StartGreaterThanEnd)
                } else {
                    Ok((capped(total_length, start), capped(total_length, end)))
                },
            },
        }
    }
}

/// Reads the bounds that the parameters of a request ask for, in a list of
/// `total_length` entries.
pub fn extract_pagination(params: QueryParams, total_length: usize) -> (r: Result<
    Pagination,
    Error,
>)
    ensures
        match requested_bounds(params@, total_length as int) {
            Ok((start, end)) => r == Ok::<Pagination, Error>(
                Pagination { start: start as usize, end: end as usize },
            ) && 0 <= start <= end <= total_length,
            Err(e) => r matches Err(x) && x@ == e,
        },
        !(params@.contains_key("start"@) && params@.contains_key("end"@)) ==> r matches Err(
            Error::MissingParameters,
        ),
        r matches Ok(p) ==> p.start <= p.end <= total_length,
{
    let start_text = match params.get("start") {
        Some(text) => text,
        None => {
            return Err(Error::MissingParameters);
        },
    };
    let end_text = match params.get("end") {
        Some(text) => text,
        None => {
            return Err(Error::MissingParameters);
        },
    };
    let start: usize = match parse_usize(start_text.as_str()) {
        Ok(n) => n,
        Err(e) => {
            return Err(Error::ParseError(e));
        },
    };
    let end: usize = match parse_usize(end_text.as_str()) {
        Ok(n) => n,
        Err(e) => {
            return Err(Error::ParseError(e));
        },
    };
    if start > end {
        return Err(Error::StartGreaterThanEnd);
    }
    let cap = cap_number(total_length);
    Ok(Pagination { start: cap(start), end: cap(end) })
}

/// Whatever the length of the list: where both bounds are numbers, a start
/// above the end is refused, and any other pair gives bounds that lie in the
/// list, in order, each the number asked for or the length where the number
/// is above it.
pub proof fn lemma_bounds_lie_in_the_list(
    params: Map<Seq<char>, Seq<char>>,
    total_length: int,
    start: int,
    end: int,
)
    requires
        0 <= total_length,
        params.contains_key("start"@),
        params.contains_key("end"@),
        parse_unsigned(params["start"@], usize::MAX as int) == Ok::<int, ParseFailure>(start),
        parse_unsigned(params["end"@], usize::MAX as int) == Ok::<int, ParseFailure>(end),
    ensures
        start > end ==> requested_bounds(params, total_length) == Err::<(int, int), ErrorView>(
            ErrorView::StartGreaterThanEnd,
        ),
        start <= end ==> requested_bounds(params, total_length) == Ok::<(int, int), ErrorView>(
            (capped(total_length, start), capped(total_length, end)),
        ),
        start <= end ==> 0 <= capped(total_length, start) <= capped(total_length, end)
            <= total_length,
{
    lemma_parse_unsigned_in_range(params["start"@], usize::MAX as int);
}

/// Parameters that lack `start` or `end` ask for no bounds, whatever else
/// they hold.
pub proof fn lemma_missing_bound_is_refused(params: Map<Seq<char>, Seq<char>>, total_length: int)
    requires
        !params.contains_key("start"@) || !params.contains_key("end"@),
    ensures
        requested_bounds(params, total_length) == Err::<(int, int), ErrorView>(
            ErrorView::MissingParameters,
        ),
{
}

} // verus!
