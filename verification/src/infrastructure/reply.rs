//! What a handler answers where the request succeeds.
use crate::domain::answer::{Answer, AnswerView};
use crate::domain::question::{views_of, Question, QuestionView};
use crate::status;
use vstd::prelude::*;
use vstd::string::*;

verus! {

/// The body of a reply. The transport writes a question, an answer and a
/// list as JSON, and a text as it is.
#[derive(Debug)]
pub enum Body {
    Empty,
    Text(String),
    Question(Question),
    Answer(Answer),
    Questions(Vec<Question>),
}

#[derive(Debug)]
pub struct Reply {
    pub status: u16,
    pub body: Body,
}

pub enum BodyView {
    Empty,
    Text(Seq<char>),
    Question(QuestionView),
    Answer(AnswerView),
    Questions(Seq<QuestionView>),
}

pub struct ReplyView {
    pub status: int,
    pub body: BodyView,
}

impl View for Body {
    type V = BodyView;

    open spec fn view(&self) -> BodyView {
        match self {
            Body::Empty => BodyView::Empty,
            Body::Text(text) => BodyView::Text(text@),
            Body::Question(question) => BodyView::Question(question@),
            Body::Answer(answer) => BodyView::Answer(answer@),
            Body::Questions(list) => BodyView::Questions(views_of(list@)),
        }
    }
}

impl View for Reply {
    type V = ReplyView;

    open spec fn view(&self) -> ReplyView {
        ReplyView { status: self.status as int, body: self.body@ }
    }
}

impl ReplyView {
    /// A list of questions is answered with status 200.
    pub open spec fn questions(page: Seq<QuestionView>) -> ReplyView {
        ReplyView { status: status::OK as int, body: BodyView::Questions(page) }
    }

    /// A created question is answered with status 201 and the question.
    pub open spec fn created_question(question: QuestionView) -> ReplyView {
        ReplyView { status: status::CREATED as int, body: BodyView::Question(question) }
    }

    /// A created answer is answered with status 201 and the answer.
    pub open spec fn created_answer(answer: AnswerView) -> ReplyView {
        ReplyView { status: status::CREATED as int, body: BodyView::Answer(answer) }
    }

    /// A replaced question is answered with status 202.
    pub open spec fn updated() -> ReplyView {
        ReplyView { status: status::ACCEPTED as int, body: BodyView::Text("Question updated"@) }
    }

    /// A deleted question is answered with status 204 and nothing else.
    pub open spec fn deleted() -> ReplyView {
        ReplyView { status: status::NO_CONTENT as int, body: BodyView::Empty }
    }
}

impl Reply {
    pub fn questions(list: Vec<Question>) -> (r: Reply)
        ensures
            r@ == ReplyView::questions(views_of(list@)),
            r.body == Body::Questions(list),
    {
        Reply { status: status::OK, body: Body::Questions(list) }
    }

    pub fn created_question(question: Question) -> (r: Reply)
        ensures
            r@ == ReplyView::created_question(question@),
            r.body == Body::Question(question),
    {
        Reply { status: status::CREATED, body: Body::Question(question) }
    }

    pub fn created_answer(answer: Answer) -> (r: Reply)
        ensures
            r@ == ReplyView::created_answer(answer@),
            r.body == Body::Answer(answer),
    {
        Reply { status: status::CREATED, body: Body::Answer(answer) }
    }

    pub fn updated() -> (r: Reply)
        ensures
            r@ == ReplyView::updated(),
    {
        Reply { status: status::ACCEPTED, body: Body::Text(String::from_str("Question updated")) }
    }

    pub fn deleted() -> (r: Reply)
        ensures
            r@ == ReplyView::deleted(),
    {
        Reply { status: status::NO_CONTENT, body: Body::Empty }
    }
}

} // verus!
