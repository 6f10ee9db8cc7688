//! Questions, their identities, and the drafts they are made from.
use crate::decimal::{
    append_signed_decimal, lemma_signed_decimal_is_read_back, parse_i32, parse_signed,
    signed_decimal, ParseFailure,
};
use crate::errors::InvalidId;
use vstd::prelude::*;
use vstd::string::*;

verus! {

/// The identity of a question. The store assigns it.
#[derive(Debug, Clone, Copy, PartialEq, Eq, Hash, Structural)]
pub struct QuestionId(pub i32);

#[derive(Debug)]
pub struct Question {
    pub id: QuestionId,
    pub title: String,
    pub content: String,
    pub tags: Option<Vec<String>>,
}

/// A question that has no identity yet, as a client sends it.
#[derive(Debug)]
pub struct QuestionDraft {
    pub title: String,
    pub content: String,
    pub tags: Option<Vec<String>>,
}

pub struct QuestionView {
    pub id: int,
    pub title: Seq<char>,
    pub content: Seq<char>,
    pub tags: Option<Seq<Seq<char>>>,
}

pub struct QuestionDraftView {
    pub title: Seq<char>,
    pub content: Seq<char>,
    pub tags: Option<Seq<Seq<char>>>,
}

impl View for Question {
    type V = QuestionView;

    open spec fn view(&self) -> QuestionView {
        QuestionView {
            id: self.id.0 as int,
            title: self.title@,
            content: self.content@,
            tags: self.tags.deep_view(),
        }
    }
}

impl View for QuestionDraft {
    type V = QuestionDraftView;

    open spec fn view(&self) -> QuestionDraftView {
        QuestionDraftView {
            title: self.title@,
            content: self.content@,
            tags: self.tags.deep_view(),
        }
    }
}

impl QuestionDraftView {
    /// The question that this draft becomes under the identity `id`.
    pub open spec fn with_id(self, id: int) -> QuestionView {
        QuestionView { id, title: self.title, content: self.content, tags: self.tags }
    }

    /// This draft with another content.
    pub open spec fn with_content(self, content: Seq<char>) -> QuestionDraftView {
        QuestionDraftView { title: self.title, content, tags: self.tags }
    }
}

impl QuestionView {
    /// The question in one line, with its tags written as `tags`.
    pub open spec fn line(self, tags: Seq<char>) -> Seq<char> {
        "Question: "@ + signed_decimal(self.id) + ", "@ + self.title + ", "@ + self.content + ", "@
            + tags
    }
}

/// The views of the questions of a list, in its order.
pub open spec fn views_of(list: Seq<Question>) -> Seq<QuestionView> {
    Seq::new(list.len(), |i: int| list[i]@)
}

/// The text that `Debug` formatting gives for the tags of a question.
pub uninterp spec fn debug_text(tags: Option<Seq<Seq<char>>>) -> Seq<char>;

/// Formats the tags with `format!` and `{:?}`, that is with the `Debug`
/// implementation that std has for `Option<Vec<String>>`. The text depends
/// on the tags alone; the contract gives it its name and claims nothing
/// else of it.
#[verifier::external_body]
fn format_tags(tags: &Option<Vec<String>>) -> (r: String)
    ensures
        r@ == debug_text(tags.deep_view()),
{
    format!("{:?}", tags)
}

/// A copy of a list of tags.
pub fn clone_tags(tags: &Option<Vec<String>>) -> (r: Option<Vec<String>>)
    ensures
        r.deep_view() == tags.deep_view(),
{
    match tags {
        Some(list) => {
            let mut out: Vec<String> = Vec::new();
            let mut i: usize = 0;
            while i < list.len()
                invariant
                    i <= list.len(),
                    out.len() == i,
                    forall|j: int| 0 <= j < i ==> out@[j]@ == list@[j]@,
                decreases list.len() - i,
            {
                out.push(list[i].clone());
                i += 1;
            }
            Some(out)
        },
        None => None,
    }
}

impl QuestionId {
    /// Reads an identity from a path segment or a parameter.
    pub fn from_str(id: &str) -> (r: Result<QuestionId, InvalidId>)
        ensures
            match parse_signed(id@, i32::MAX as int) {
                Ok(v) => r == Ok::<QuestionId, InvalidId>(QuestionId(v as i32)),
                Err(_) => r == Err::<QuestionId, InvalidId>(InvalidId),
            },
    {
        match parse_i32(id) {
            Ok(v) => Ok(QuestionId(v)),
            Err(_) => Err(InvalidId),
        }
    }

    pub fn to_string(&self) -> (r: String)
        ensures
            r@ == signed_decimal(self.0 as int),
    {
        let mut out = String::new();
        append_signed_decimal(&mut out, self.0 as i64);
        out
    }
}

/// An identity that was written as text is read back as itself.
pub proof fn lemma_question_id_is_read_back(id: QuestionId)
    ensures
        parse_signed(signed_decimal(id.0 as int), i32::MAX as int) == Ok::<int, ParseFailure>(
            id.0 as int,
        ),
{
    lemma_signed_decimal_is_read_back(id.0 as int, i32::MAX as int);
}

impl Clone for Question {
    fn clone(&self) -> (r: Self)
        ensures
            r@ == self@,
    {
        Question {
            id: self.id,
            title: self.title.clone(),
            content: self.content.clone(),
            tags: clone_tags(&self.tags),
        }
    }
}

impl Clone for QuestionDraft {
    fn clone(&self) -> (r: Self)
        ensures
            r@ == self@,
    {
        QuestionDraft {
            title: self.title.clone(),
            content: self.content.clone(),
            tags: clone_tags(&self.tags),
        }
    }
}

impl Question {
    pub fn new(id: QuestionId, title: String, content: String, tags: Option<Vec<String>>) -> (r:
        Self)
        ensures
            r.id == id,
            r.title == title,
            r.content == content,
            r.tags == tags,
    {
        Question { id, title, content, tags }
    }

    /// The question in one line, with the text `tags` for its tags.
    pub fn line(&self, tags: &str) -> (r: String)
        ensures
            r@ == self@.line(tags@),
    {
        let mut out = String::from_str("Question: ");
        append_signed_decimal(&mut out, self.id.0 as i64);
        out.append(", ");
        out.append(self.title.as_str());
        out.append(", ");
        out.append(self.content.as_str());
        out.append(", ");
        out.append(tags);
        out
    }

    /// The question in one line: identity, title, content, and the tags as
    /// `Debug` formatting writes them.
    pub fn to_string(&self) -> (r: String)
        ensures
            r@ == self@.line(debug_text(self@.tags)),
    {
        let tags = format_tags(&self.tags);
        self.line(tags.as_str())
    }
}

} // verus!
