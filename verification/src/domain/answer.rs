//! Answers, their identities, and the drafts they are made from.
use crate::domain::question::QuestionId;
use vstd::prelude::*;
use vstd::string::*;

verus! {

/// The identity of an answer. The store assigns it.
#[derive(Debug, Clone, Copy, PartialEq, Eq, Hash, Structural)]
pub struct AnswerId(pub i32);

#[derive(Debug)]
pub struct Answer {
    pub id: AnswerId,
    pub content: String,
    /// The question that this answer is given to.
    pub question_id: QuestionId,
}

/// An answer that has no identity yet.
#[derive(Debug)]
pub struct AnswerDraft {
    pub content: String,
    pub question_id: QuestionId,
}

pub struct AnswerView {
    pub id: int,
    pub content: Seq<char>,
    pub question_id: int,
}

pub struct AnswerDraftView {
    pub content: Seq<char>,
    pub question_id: int,
}

impl View for Answer {
    type V = AnswerView;

    open spec fn view(&self) -> AnswerView {
        AnswerView {
            id: self.id.0 as int,
            content: self.content@,
            question_id: self.question_id.0 as int,
        }
    }
}

impl View for AnswerDraft {
    type V = AnswerDraftView;

    open spec fn view(&self) -> AnswerDraftView {
        AnswerDraftView { content: self.content@, question_id: self.question_id.0 as int }
    }
}

impl AnswerDraftView {
    /// The answer that this draft becomes under the identity `id`.
    pub open spec fn with_id(self, id: int) -> AnswerView {
        AnswerView { id, content: self.content, question_id: self.question_id }
    }
}

/// The views of the answers of a list, in its order.
pub open spec fn views_of(list: Seq<Answer>) -> Seq<AnswerView> {
    Seq::new(list.len(), |i: int| list[i]@)
}

impl Clone for Answer {
    fn clone(&self) -> (r: Self)
        ensures
            r@ == self@,
    {
        Answer { id: self.id, content: self.content.clone(), question_id: self.question_id }
    }
}

impl Clone for AnswerDraft {
    fn clone(&self) -> (r: Self)
        ensures
            r@ == self@,
    {
        AnswerDraft { content: self.content.clone(), question_id: self.question_id }
    }
}

} // verus!
