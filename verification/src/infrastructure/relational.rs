//! What a store that keeps its data in a relational database decides from
//! what the database reports. The queries themselves are sent elsewhere;
//! the rules are here, so that such a store answers as `Store` does. The
//! numbers that its query for a page is sent with are those of
//! `pagination::page_window`.
use crate::domain::answer::Answer;
use crate::domain::question::Question;
use crate::errors::Error;
use vstd::prelude::*;

verus! {

/// What the outcome of a query means: what the database gave, or, where the
/// query failed, a failure of the store that says nothing of the cause. The
/// text of the cause is for the log and is not passed on.
pub fn stored<T>(outcome: Result<T, String>) -> (r: Result<T, Error>)
    ensures
        match outcome {
            Ok(value) => r == Ok::<T, Error>(value),
            Err(_) => r matches Err(Error::DatabaseQueryError),
        },
{
    match outcome {
        Ok(value) => Ok(value),
        Err(_) => Err(Error::DatabaseQueryError),
    }
}

/// What a deletion that touched `rows_affected` rows means: with no row
/// touched, the question was not there.
pub fn deletion(rows_affected: u64) -> (r: Result<bool, Error>)
    ensures
        rows_affected == 0 ==> r matches Err(Error::QuestionNotFound),
        rows_affected > 0 ==> r == Ok::<bool, Error>(true),
{
    if rows_affected == 0 {
        Err(Error::QuestionNotFound)
    } else {
        Ok(true)
    }
}

/// What an update that gave back `row` means: with no row given back, the
/// question was not there.
pub fn replacement(row: Option<Question>) -> (r: Result<Question, Error>)
    ensures
        match row {
            Some(question) => r == Ok::<Question, Error>(question),
            None => r matches Err(Error::QuestionNotFound),
        },
{
    match row {
        Some(question) => Ok(question),
        None => Err(Error::QuestionNotFound),
    }
}

/// What an insertion of an answer that gave back `row` means: with no row
/// given back, the question of the answer was not there.
pub fn placement(row: Option<Answer>) -> (r: Result<Answer, Error>)
    ensures
        match row {
            Some(answer) => r == Ok::<Answer, Error>(answer),
            None => r matches Err(Error::QuestionNotFound),
        },
{
    match row {
        Some(answer) => Ok(answer),
        None => Err(Error::QuestionNotFound),
    }
}

} // verus!
