//! The handlers for questions. Each one checks what the request brings,
//! hands it to the store, and says what the client is answered. A check that
//! fails ends the request before the store is touched.
//!
//! The checks and the replies are functions of their own, so that a store
//! that is reached in another way is put behind the same ones.
use crate::domain::question::{Question, QuestionDraft, QuestionDraftView, QuestionId, QuestionView};
use crate::errors::{outcome, Error, ErrorView, InvalidId};
use crate::infrastructure::bounds::requested_bounds;
use crate::infrastructure::moderation::{moderate, ModerationReply, ModerationReplyView};
use crate::infrastructure::pagination::{asked_page, requested_pagination};
use crate::infrastructure::params::QueryParams;
use crate::infrastructure::reply::{Body, Reply, ReplyView};
use crate::infrastructure::response::BadWordsResponseView;
use crate::infrastructure::store::{Store, StoreView};
use vstd::prelude::*;

verus! {

/// What a request for the list of questions is answered. Without any
/// parameter it gets the page that the store gives where nothing is asked
/// for. With parameters, they have to ask for a page. Once the page is
/// known, the request cannot fail.
pub open spec fn listing(params: Map<Seq<char>, Seq<char>>, store: StoreView) -> Result<
    ReplyView,
    ErrorView,
> {
    match asked_page(params) {
        Err(e) => Err(e),
        Ok(page) => Ok(ReplyView::questions(store.get_questions(page.limit, page.offset))),
    }
}

/// What a request for the list of questions between two positions is
/// answered. Without any parameter it gets the whole list.
pub open spec fn listing_by_bounds(params: Map<Seq<char>, Seq<char>>, store: StoreView) -> Result<
    ReplyView,
    ErrorView,
> {
    if params == Map::<Seq<char>, Seq<char>>::empty() {
        Ok(ReplyView::questions(store.questions))
    } else {
        match requested_bounds(params, store.questions.len() as int) {
            Err(e) => Err(e),
            Ok((start, end)) => Ok(ReplyView::questions(store.questions.subrange(start, end))),
        }
    }
}

/// The store after a request to create a question, and what the request is
/// answered. Where moderation failed, the store stays as it was; else the
/// question is stored with the censored content.
pub open spec fn creating(
    store: StoreView,
    draft: QuestionDraftView,
    moderation: ModerationReplyView,
) -> (StoreView, Result<ReplyView, ErrorView>) {
    match moderation.content() {
        Err(e) => (store, Err(e)),
        Ok(content) => {
            let (after, created) = store.add_question(draft.with_content(content));
            (
                after,
                match created {
                    Ok(question) => Ok(ReplyView::created_question(question)),
                    Err(e) => Err(e),
                },
            )
        },
    }
}

/// The store after a request to create a question under an identity of the
/// client's choice, and what the request is answered: as for every
/// creation, the reply holds what was created.
pub open spec fn creating_with_id(store: StoreView, question: QuestionView) -> (
    StoreView,
    Result<ReplyView, ErrorView>,
) {
    let (after, created) = store.insert_question(question);
    (
        after,
        match created {
            Ok(stored) => Ok(ReplyView::created_question(stored)),
            Err(e) => Err(e),
        },
    )
}

/// The store after a request to replace a question, and what the request is
/// answered. The identity in the path has to be the identity of the
/// question; where it is not, the store stays as it was.
pub open spec fn updating(path_id: int, store: StoreView, question: QuestionView) -> (
    StoreView,
    Result<ReplyView, ErrorView>,
) {
    if path_id != question.id {
        (store, Err(ErrorView::InvalidId))
    } else {
        let (after, updated) = store.update_question(question);
        (
            after,
            match updated {
                Ok(_) => Ok(ReplyView::updated()),
                Err(e) => Err(e),
            },
        )
    }
}

/// The store after a request to delete a question, and what the request is
/// answered.
pub open spec fn deleting(path_id: int, store: StoreView) -> (
    StoreView,
    Result<ReplyView, ErrorView>,
) {
    let (after, deleted) = store.delete_question(path_id);
    (
        after,
        match deleted {
            Ok(_) => Ok(ReplyView::deleted()),
            Err(e) => Err(e),
        },
    )
}

/// The identity in the path of a request has to be the identity of the
/// question that the request brings.
pub fn check_identity(question_id: i32, question: &Question) -> (r: Result<(), Error>)
    ensures
        question_id == question.id.0 ==> r is Ok,
        question_id != question.id.0 ==> r matches Err(Error::InvalidId(_)),
{
    if question_id != question.id.0 {
        Err(Error::InvalidId(InvalidId))
    } else {
        Ok(())
    }
}

/// Answers a request for the list of questions, asked for by count.
pub fn get_questions(params: QueryParams, store: &Store) -> (r: Result<Reply, Error>)
    ensures
        outcome(r) == listing(params@, store@),
        r is Ok <==> asked_page(params@) is Ok,
        r matches Ok(reply) ==> (reply.body matches Body::Questions(list) && list@.len()
            <= store@.questions.len()),
{
    let pagination = requested_pagination(params)?;
    let list = store.get_questions(pagination.limit, pagination.offset)?;
    Ok(Reply::questions(list))
}

/// Answers a request for the list of questions, asked for by position.
pub fn get_questions_by_bounds(params: QueryParams, store: &Store) -> (r: Result<Reply, Error>)
    ensures
        outcome(r) == listing_by_bounds(params@, store@),
{
    let total: usize = store.question_count();
    if params.is_empty() {
        let list = store.questions_between(0, total);
        assert(store@.questions.subrange(0, total as int) =~= store@.questions);
        Ok(Reply::questions(list))
    } else {
        let pagination = crate::infrastructure::bounds::extract_pagination(params, total)?;
        Ok(Reply::questions(store.questions_between(pagination.start, pagination.end)))
    }
}

/// Answers a request to create a question, once the moderation service was
/// asked about its content.
pub fn add_question(store: &mut Store, question_draft: QuestionDraft, moderation: ModerationReply) -> (r:
    Result<Reply, Error>)
    ensures
        final(store)@ == creating(old(store)@, question_draft@, moderation@).0,
        outcome(r) == creating(old(store)@, question_draft@, moderation@).1,
        moderation@.content() is Err ==> final(store)@ == old(store)@,
        r matches Ok(reply) ==> (reply.body matches Body::Question(q) && moderation@.content()
            == Ok::<Seq<char>, ErrorView>(q.content@)),
{
    let moderated = moderate(question_draft, moderation)?;
    let question = store.add_question(moderated)?;
    Ok(Reply::created_question(question))
}

/// Answers a request to create a question under the identity that it
/// brings.
pub fn add_question_with_id(store: &mut Store, question: Question) -> (r: Result<Reply, Error>)
    ensures
        final(store)@ == creating_with_id(old(store)@, question@).0,
        outcome(r) == creating_with_id(old(store)@, question@).1,
{
    let stored = store.insert_question(question)?;
    Ok(Reply::created_question(stored))
}

/// Answers a request to replace the question `question_id`.
pub fn update_question(question_id: i32, store: &mut Store, question: Question) -> (r: Result<
    Reply,
    Error,
>)
    ensures
        final(store)@ == updating(question_id as int, old(store)@, question@).0,
        outcome(r) == updating(question_id as int, old(store)@, question@).1,
        question_id != question.id.0 ==> (r matches Err(Error::InvalidId(_))) && final(store)@
            == old(store)@,
{
    check_identity(question_id, &question)?;
    let _ = store.update_question(question)?;
    Ok(Reply::updated())
}

/// Answers a request to delete the question `question_id`.
pub fn delete_question(question_id: i32, store: &mut Store) -> (r: Result<Reply, Error>)
    ensures
        final(store)@ == deleting(question_id as int, old(store)@).0,
        outcome(r) == deleting(question_id as int, old(store)@).1,
{
    let _ = store.delete_question(QuestionId(question_id))?;
    Ok(Reply::deleted())
}

/// Where the moderation service has checked the content and an identity is
/// left, the question that is stored, and the one that the reply holds, has
/// the censored content, whatever the client sent.
pub proof fn lemma_censored_content_is_stored(
    store: StoreView,
    draft: QuestionDraftView,
    verdict: BadWordsResponseView,
)
    requires
        store.next_question_id < crate::infrastructure::store::IDENTITY_END,
    ensures
        ({
            let (after, r) = creating(store, draft, ModerationReplyView::Checked(verdict));
            &&& after.questions.len() == store.questions.len() + 1
            &&& after.questions.last().content == verdict.censored_content
            &&& after.questions.last().title == draft.title
            &&& after.questions.last().tags == draft.tags
            &&& r == Ok::<ReplyView, ErrorView>(
                ReplyView::created_question(after.questions.last()),
            )
        }),
{
}

} // verus!
