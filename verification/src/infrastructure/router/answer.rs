//! The handler for answers.
use crate::domain::answer::{AnswerDraft, AnswerDraftView};
use crate::domain::question::QuestionId;
use crate::errors::{outcome, Error, ErrorView};
use crate::infrastructure::params::QueryParams;
use crate::infrastructure::reply::{Reply, ReplyView};
use crate::infrastructure::store::{Store, StoreView};
use vstd::prelude::*;

verus! {

/// The draft of an answer to the question `path_id` that a form holds. The
/// form has to hold a `content`.
pub open spec fn asked_answer(path_id: int, params: Map<Seq<char>, Seq<char>>) -> Result<
    AnswerDraftView,
    ErrorView,
> {
    if !params.contains_key("content"@) {
        Err(ErrorView::MissingParameters)
    } else {
        Ok(AnswerDraftView { content: params["content"@], question_id: path_id })
    }
}

/// The store after a request to answer the question `path_id`, and what the
/// request is answered. Where the form holds no draft, the store is not
/// asked.
pub open spec fn answering(path_id: int, store: StoreView, params: Map<Seq<char>, Seq<char>>) -> (
    StoreView,
    Result<ReplyView, ErrorView>,
) {
    match asked_answer(path_id, params) {
        Err(e) => (store, Err(e)),
        Ok(draft) => {
            let (after, created) = store.add_answer(draft);
            (
                after,
                match created {
                    Ok(answer) => Ok(ReplyView::created_answer(answer)),
                    Err(e) => Err(e),
                },
            )
        },
    }
}

/// Reads the draft of an answer to the question `question_id` from a form.
pub fn answer_draft(question_id: i32, params: QueryParams) -> (r: Result<AnswerDraft, Error>)
    ensures
        !params@.contains_key("content"@) ==> r matches Err(Error::MissingParameters),
        outcome(r) == asked_answer(question_id as int, params@),
{
    match params.get("content") {
        Some(text) => Ok(AnswerDraft { content: text.clone(), question_id: QuestionId(question_id) }),
        None => Err(Error::MissingParameters),
    }
}

/// Answers a request to add an answer to the question `question_id`.
pub fn add_answer(question_id: i32, store: &mut Store, params: QueryParams) -> (r: Result<
    Reply,
    Error,
>)
    ensures
        final(store)@ == answering(question_id as int, old(store)@, params@).0,
        outcome(r) == answering(question_id as int, old(store)@, params@).1,
        !old(store)@.has_question(question_id as int) ==> r is Err && final(store)@ == old(
            store,
        )@,
{
    let draft = answer_draft(question_id, params)?;
    let answer = store.add_answer(draft)?;
    Ok(Reply::created_answer(answer))
}

} // verus!
