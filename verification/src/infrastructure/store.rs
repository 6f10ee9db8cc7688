//! The store: the questions in the order in which they came, the answers
//! given to them, and the identities that it gives out.
//!
//! The store gives out identities by counting upwards, past every identity
//! that a question has ever had in it. So a new question never gets the
//! identity of another one, be that one stored, replaced or deleted.
use crate::domain::answer::{Answer, AnswerDraft, AnswerDraftView, AnswerId, AnswerView};
use crate::domain::question::{
    Question, QuestionDraft, QuestionDraftView, QuestionId, QuestionView,
};
use crate::errors::{outcome, Error, ErrorView};
use crate::infrastructure::bounds::capped;
use crate::infrastructure::pagination::{page_window, window_of, DEFAULT_LIMIT};
use vstd::prelude::*;

verus! {

/// The first number that is no identity any more: one above the largest.
pub const IDENTITY_END: u32 = 0x8000_0000;

pub struct Store {
    questions: Vec<Question>,
    answers: Vec<Answer>,
    next_question_id: u32,
    next_answer_id: u32,
}

/// What a store holds.
pub struct StoreView {
    /// The questions, oldest first.
    pub questions: Seq<QuestionView>,
    /// The answers, oldest first.
    pub answers: Seq<AnswerView>,
    /// The identity that the next question gets.
    pub next_question_id: int,
    /// The identity that the next answer gets.
    pub next_answer_id: int,
}

impl StoreView {
    /// No two questions and no two answers share an identity, and every
    /// identity in use, that of the question of an answer too, lies below
    /// the next one to be given out.
    pub open spec fn wf(self) -> bool {
        &&& 1 <= self.next_question_id <= IDENTITY_END
        &&& 1 <= self.next_answer_id <= IDENTITY_END
        &&& forall|i: int|
            0 <= i < self.questions.len() ==> (#[trigger] self.questions[i]).id
                < self.next_question_id
        &&& forall|i: int, j: int|
            0 <= i < j < self.questions.len() ==> (#[trigger] self.questions[i]).id != (
            #[trigger] self.questions[j]).id
        &&& forall|i: int|
            0 <= i < self.answers.len() ==> (#[trigger] self.answers[i]).id < self.next_answer_id
        &&& forall|i: int, j: int|
            0 <= i < j < self.answers.len() ==> (#[trigger] self.answers[i]).id != (
            #[trigger] self.answers[j]).id
        &&& forall|i: int|
            0 <= i < self.answers.len() ==> (#[trigger] self.answers[i]).question_id
                < self.next_question_id
    }

    pub open spec fn has_question(self, id: int) -> bool {
        exists|i: int| 0 <= i < self.questions.len() && (#[trigger] self.questions[i]).id == id
    }

    /// Where the question `id` stands, for a store that has it.
    pub open spec fn position(self, id: int) -> int {
        choose|i: int| 0 <= i < self.questions.len() && (#[trigger] self.questions[i]).id == id
    }

    /// The page of at most `limit` questions after the first `offset`: the
    /// questions from the position `offset` up to the position `offset +
    /// limit`, each position held down to the length of the list. A limit
    /// that is not named is `DEFAULT_LIMIT`, an offset that is not named is
    /// zero. Every limit and every offset gives a page, be it empty.
    pub open spec fn get_questions(self, limit: Option<u32>, offset: Option<u32>) -> Seq<
        QuestionView,
    > {
        let (limit, offset) = window_of(limit, offset);
        let len: int = self.questions.len() as int;
        self.questions.subrange(capped(len, offset), capped(len, offset + limit))
    }

    /// The store after a draft was handed in, and the question made of it.
    /// The question gets the next identity and stands last. Where no
    /// identity is left, nothing changes.
    pub open spec fn add_question(self, draft: QuestionDraftView) -> (
        StoreView,
        Result<QuestionView, ErrorView>,
    ) {
        if self.next_question_id >= IDENTITY_END {
            (self, Err(ErrorView::DatabaseQueryError))
        } else {
            let question = draft.with_id(self.next_question_id);
            (
                StoreView {
                    questions: self.questions.push(question),
                    next_question_id: self.next_question_id + 1,
                    ..self
                },
                Ok(question),
            )
        }
    }

    /// The store after a question was handed in under an identity of the
    /// client's choice. An identity in use is refused.
    pub open spec fn insert_question(self, question: QuestionView) -> (
        StoreView,
        Result<QuestionView, ErrorView>,
    ) {
        if self.has_question(question.id) {
            (self, Err(ErrorView::QuestionAlreadyExists))
        } else {
            (
                StoreView {
                    questions: self.questions.push(question),
                    next_question_id: if question.id >= self.next_question_id {
                        question.id + 1
                    } else {
                        self.next_question_id
                    },
                    ..self
                },
                Ok(question),
            )
        }
    }

    /// The store after the question with the identity of `question` was
    /// replaced by it, where it stood.
    pub open spec fn update_question(self, question: QuestionView) -> (
        StoreView,
        Result<QuestionView, ErrorView>,
    ) {
        if !self.has_question(question.id) {
            (self, Err(ErrorView::QuestionNotFound))
        } else {
            (
                StoreView {
                    questions: self.questions.update(self.position(question.id), question),
                    ..self
                },
                Ok(question),
            )
        }
    }

    /// The store after the question `id` was taken out. The others keep
    /// their order.
    pub open spec fn delete_question(self, id: int) -> (StoreView, Result<bool, ErrorView>) {
        if !self.has_question(id) {
            (self, Err(ErrorView::QuestionNotFound))
        } else {
            (StoreView { questions: self.questions.remove(self.position(id)), ..self }, Ok(true))
        }
    }

    /// The store after the draft of an answer was handed in, and the answer
    /// made of it. The question has to be there; then the answer gets the
    /// next identity and stands last.
    pub open spec fn add_answer(self, draft: AnswerDraftView) -> (
        StoreView,
        Result<AnswerView, ErrorView>,
    ) {
        if !self.has_question(draft.question_id) {
            (self, Err(ErrorView::QuestionNotFound))
        } else if self.next_answer_id >= IDENTITY_END {
            (self, Err(ErrorView::DatabaseQueryError))
        } else {
            let answer = draft.with_id(self.next_answer_id);
            (
                StoreView {
                    answers: self.answers.push(answer),
                    next_answer_id: self.next_answer_id + 1,
                    ..self
                },
                Ok(answer),
            )
        }
    }
}

impl View for Store {
    type V = StoreView;

    closed spec fn view(&self) -> StoreView {
        StoreView {
            questions: crate::domain::question::views_of(self.questions@),
            answers: crate::domain::answer::views_of(self.answers@),
            next_question_id: self.next_question_id as int,
            next_answer_id: self.next_answer_id as int,
        }
    }
}

impl Store {
    /// A store is well formed as long as it lives: see `StoreView::wf`.
    #[verifier::type_invariant]
    spec fn well_formed_always(&self) -> bool {
        self@.wf()
    }

    /// States what holds of every store, for proofs about code that uses
    /// one. Nothing is done when the program runs.
    pub fn well_formed(&self)
        ensures
            self@.wf(),
    {
        proof {
            use_type_invariant(self);
        }
    }

    /// A store that holds nothing and has given out no identity.
    pub fn new() -> (r: Self)
        ensures
            r@ == StoreView::empty(),
    {
        let r = Store {
            questions: Vec::new(),
            answers: Vec::new(),
            next_question_id: 1,
            next_answer_id: 1,
        };
        assert(r@.questions =~= Seq::empty());
        assert(r@.answers =~= Seq::empty());
        r
    }

    /// Takes the list of questions out, to be changed and put back. Until
    /// then the store holds no question, and is well formed as it is.
    fn take_questions(&mut self) -> (list: Vec<Question>)
        ensures
            list@ == old(self).questions@,
            final(self).questions@ == Seq::<Question>::empty(),
            final(self).answers == old(self).answers,
            final(self).next_question_id == old(self).next_question_id,
            final(self).next_answer_id == old(self).next_answer_id,
    {
        proof {
            use_type_invariant(&*self);
        }
        let mut list: Vec<Question> = Vec::new();
        proof {
            // The store that is left: as it was, without its questions.
            let left = StoreView { questions: Seq::empty(), ..self@ };
            assert(crate::domain::question::views_of(list@) =~= left.questions);
            assert(left.wf());
        }
        core::mem::swap(&mut self.questions, &mut list);
        list
    }

    /// Puts a list of questions in the place of the one that the store
    /// holds.
    fn put_questions(&mut self, list: Vec<Question>)
        requires
            (StoreView { questions: crate::domain::question::views_of(list@), ..old(self)@ }).wf(),
        ensures
            final(self)@ == (StoreView {
                questions: crate::domain::question::views_of(list@),
                ..old(self)@
            }),
    {
        let mut list = list;
        core::mem::swap(&mut self.questions, &mut list);
    }

    /// Where the question `id` stands.
    fn find_question(&self, id: i32) -> (r: Option<usize>)
        ensures
            r is Some <==> self@.has_question(id as int),
            r matches Some(i) ==> i < self.questions@.len() && i == self@.position(id as int)
                && self.questions@[i as int].id.0 == id,
    {
        proof {
            use_type_invariant(self);
        }
        let mut i: usize = 0;
        while i < self.questions.len()
            invariant
                self@.wf(),
                i <= self.questions@.len(),
                forall|j: int| 0 <= j < i ==> self.questions@[j].id.0 != id,
            decreases self.questions@.len() - i,
        {
            if self.questions[i].id.0 == id {
                proof {
                    lemma_position(self@, i as int);
                }
                return Some(i);
            }
            i += 1;
        }
        proof {
            if self@.has_question(id as int) {
                // The loop has passed the place where the question stands.
                let p = self@.position(id as int);
                assert(self.questions@[p].id.0 == id);
            }
        }
        None
    }

    /// The page of at most `limit` questions after the first `offset`, in
    /// the order in which the questions came.
    pub fn get_questions(&self, limit: Option<u32>, offset: Option<u32>) -> (r: Result<
        Vec<Question>,
        Error,
    >)
        ensures
            r matches Ok(list) && crate::domain::question::views_of(list@)
                == self@.get_questions(limit, offset),
            r matches Ok(list) && list@.len() <= window_of(limit, offset).0 && list@.len()
                <= self@.questions.len(),
    {
        let (limit, offset) = page_window(limit, offset);
        let len: usize = self.questions.len();
        let first: u64 = offset as u64;
        let past: u64 = first + limit as u64;
        let start: usize = if first >= len as u64 {
            len
        } else {
            first as usize
        };
        let end: usize = if past >= len as u64 {
            len
        } else {
            past as usize
        };
        let list = self.questions_between(start, end);
        assert(crate::domain::question::views_of(list@).len() == list@.len());
        Ok(list)
    }

    /// The questions from the position `start` up to, not including, the
    /// position `end`.
    pub fn questions_between(&self, start: usize, end: usize) -> (list: Vec<Question>)
        requires
            start <= end <= self@.questions.len(),
        ensures
            crate::domain::question::views_of(list@) == self@.questions.subrange(
                start as int,
                end as int,
            ),
    {
        let mut list: Vec<Question> = Vec::new();
        let mut i: usize = start;
        while i < end
            invariant
                start <= i <= end <= self.questions@.len(),
                list@.len() == i - start,
                forall|j: int| 0 <= j < i - start ==> list@[j]@ == self.questions@[start + j]@,
            decreases end - i,
        {
            list.push(self.questions[i].clone());
            i += 1;
        }
        list
    }

    /// Makes a question of the draft, under an identity that no question
    /// has had before.
    pub fn add_question(&mut self, question: QuestionDraft) -> (r: Result<Question, Error>)
        ensures
            final(self)@ == old(self)@.add_question(question@).0,
            outcome(r) == old(self)@.add_question(question@).1,
            r matches Ok(q) ==> !old(self)@.has_question(q.id.0 as int) && q.id.0
                == old(self)@.next_question_id,
    {
        proof {
            use_type_invariant(&*self);
            lemma_add_question_keeps_wf(self@, question@);
        }
        if self.next_question_id >= IDENTITY_END {
            return Err(Error::DatabaseQueryError);
        }
        let id: i32 = self.next_question_id as i32;
        let created = Question {
            id: QuestionId(id),
            title: question.title,
            content: question.content,
            tags: question.tags,
        };
        let stored = created.clone();
        let mut list = self.take_questions();
        self.next_question_id = self.next_question_id + 1;
        list.push(stored);
        proof {
            assert(crate::domain::question::views_of(list@) =~= old(self)@.questions.push(
                created@,
            ));
        }
        self.put_questions(list);
        Ok(created)
    }

    /// Takes in a question under the identity that it brings. An identity
    /// in use is refused.
    pub fn insert_question(&mut self, question: Question) -> (r: Result<Question, Error>)
        ensures
            final(self)@ == old(self)@.insert_question(question@).0,
            outcome(r) == old(self)@.insert_question(question@).1,
    {
        proof {
            use_type_invariant(&*self);
            lemma_insert_question_keeps_wf(self@, question@);
        }
        if self.find_question(question.id.0).is_some() {
            return Err(Error::QuestionAlreadyExists);
        }
        let stored = question.clone();
        let mut list = self.take_questions();
        if question.id.0 >= 0 && question.id.0 as u32 >= self.next_question_id {
            self.next_question_id = question.id.0 as u32 + 1;
        }
        list.push(stored);
        proof {
            assert(crate::domain::question::views_of(list@) =~= old(self)@.questions.push(
                question@,
            ));
        }
        self.put_questions(list);
        Ok(question)
    }

    /// Puts `question` in the place of the question that has its identity.
    pub fn update_question(&mut self, question: Question) -> (r: Result<Question, Error>)
        ensures
            final(self)@ == old(self)@.update_question(question@).0,
            outcome(r) == old(self)@.update_question(question@).1,
    {
        proof {
            use_type_invariant(&*self);
            lemma_update_question_keeps_wf(self@, question@);
        }
        match self.find_question(question.id.0) {
            None => Err(Error::QuestionNotFound),
            Some(i) => {
                let stored = question.clone();
                let mut list = self.take_questions();
                list[i] = stored;
                proof {
                    assert(crate::domain::question::views_of(list@) =~= old(
                        self,
                    )@.questions.update(i as int, question@));
                }
                self.put_questions(list);
                Ok(question)
            },
        }
    }

    /// Takes the question `id` out of the store.
    pub fn delete_question(&mut self, id: QuestionId) -> (r: Result<bool, Error>)
        ensures
            final(self)@ == old(self)@.delete_question(id.0 as int).0,
            outcome(r) == old(self)@.delete_question(id.0 as int).1,
    {
        proof {
            use_type_invariant(&*self);
            lemma_delete_question_keeps_wf(self@, id.0 as int);
        }
        match self.find_question(id.0) {
            None => Err(Error::QuestionNotFound),
            Some(i) => {
                let mut list = self.take_questions();
                let _ = list.remove(i);
                proof {
                    assert(crate::domain::question::views_of(list@) =~= old(
                        self,
                    )@.questions.remove(i as int));
                }
                self.put_questions(list);
                Ok(true)
            },
        }
    }

    /// Makes an answer of the draft, for a question that the store has.
    pub fn add_answer(&mut self, answer: AnswerDraft) -> (r: Result<Answer, Error>)
        ensures
            final(self)@ == old(self)@.add_answer(answer@).0,
            outcome(r) == old(self)@.add_answer(answer@).1,
            !old(self)@.has_question(answer.question_id.0 as int) ==> (r matches Err(
                Error::QuestionNotFound,
            )) && final(self)@ == old(self)@,
    {
        proof {
            use_type_invariant(&*self);
            lemma_add_answer_keeps_wf(self@, answer@);
        }
        if self.find_question(answer.question_id.0).is_none() {
            return Err(Error::QuestionNotFound);
        }
        if self.next_answer_id >= IDENTITY_END {
            return Err(Error::DatabaseQueryError);
        }
        let id: i32 = self.next_answer_id as i32;
        let created = Answer {
            id: AnswerId(id),
            content: answer.content,
            question_id: answer.question_id,
        };
        let stored = created.clone();
        let mut list: Vec<Answer> = Vec::new();
        core::mem::swap(&mut self.answers, &mut list);
        self.next_answer_id = self.next_answer_id + 1;
        list.push(stored);
        proof {
            assert(crate::domain::answer::views_of(list@) =~= old(self)@.answers.push(created@));
        }
        core::mem::swap(&mut self.answers, &mut list);
        Ok(created)
    }

    /// How many questions the store holds.
    pub fn question_count(&self) -> (r: usize)
        ensures
            r == self@.questions.len(),
    {
        self.questions.len()
    }
}

/// In a store in which no two questions share an identity, a question
/// stands where `position` says.
pub proof fn lemma_position(s: StoreView, i: int)
    requires
        s.wf(),
        0 <= i < s.questions.len(),
    ensures
        s.has_question(s.questions[i].id),
        s.position(s.questions[i].id) == i,
{
}

/// A new question leaves the store well formed, and no identity that was
/// given out is given out again: the next identity only moves up.
pub proof fn lemma_add_question_keeps_wf(s: StoreView, draft: QuestionDraftView)
    requires
        s.wf(),
    ensures
        s.add_question(draft).0.wf(),
        s.add_question(draft).0.next_question_id >= s.next_question_id,
        s.add_question(draft).1 matches Ok(q) ==> !s.has_question(q.id),
{
}

/// A question that brings its identity leaves the store well formed.
pub proof fn lemma_insert_question_keeps_wf(s: StoreView, question: QuestionView)
    requires
        s.wf(),
        question.id <= i32::MAX,
    ensures
        s.insert_question(question).0.wf(),
        s.insert_question(question).0.next_question_id >= s.next_question_id,
{
}

/// A replaced question leaves the store well formed.
pub proof fn lemma_update_question_keeps_wf(s: StoreView, question: QuestionView)
    requires
        s.wf(),
    ensures
        s.update_question(question).0.wf(),
        s.update_question(question).0.next_question_id == s.next_question_id,
{
}

/// A deleted question leaves the store well formed, and is gone.
pub proof fn lemma_delete_question_keeps_wf(s: StoreView, id: int)
    requires
        s.wf(),
    ensures
        s.delete_question(id).0.wf(),
        s.delete_question(id).0.next_question_id == s.next_question_id,
        !s.delete_question(id).0.has_question(id),
{
}

/// A new answer leaves the store well formed.
pub proof fn lemma_add_answer_keeps_wf(s: StoreView, draft: AnswerDraftView)
    requires
        s.wf(),
    ensures
        s.add_answer(draft).0.wf(),
        s.add_answer(draft).0.next_answer_id >= s.next_answer_id,
        s.add_answer(draft).0.questions == s.questions,
{
}

/// One change to a store.
pub enum Change {
    AddQuestion(QuestionDraftView),
    InsertQuestion(QuestionView),
    UpdateQuestion(QuestionView),
    DeleteQuestion(int),
    AddAnswer(AnswerDraftView),
}

impl Change {
    /// A question that brings its identity brings one that an `i32` holds.
    pub open spec fn valid(self) -> bool {
        self matches Change::InsertQuestion(question) ==> question.id <= i32::MAX
    }
}

impl StoreView {
    /// A store that holds nothing and has given out no identity.
    pub open spec fn empty() -> StoreView {
        StoreView {
            questions: Seq::empty(),
            answers: Seq::empty(),
            next_question_id: 1,
            next_answer_id: 1,
        }
    }

    /// The store after one change, whether the change succeeded or not.
    pub open spec fn after(self, change: Change) -> StoreView {
        match change {
            Change::AddQuestion(draft) => self.add_question(draft).0,
            Change::InsertQuestion(question) => self.insert_question(question).0,
            Change::UpdateQuestion(question) => self.update_question(question).0,
            Change::DeleteQuestion(id) => self.delete_question(id).0,
            Change::AddAnswer(draft) => self.add_answer(draft).0,
        }
    }

    /// The store after a history of changes, the oldest first.
    pub open spec fn after_all(self, history: Seq<Change>) -> StoreView
        decreases history.len(),
    {
        if history.len() == 0 {
            self
        } else {
            self.after_all(history.drop_last()).after(history.last())
        }
    }
}

/// Whatever is done to a store, it stays well formed, and the next identity
/// only moves up.
pub proof fn lemma_history_keeps_wf(s: StoreView, history: Seq<Change>)
    requires
        s.wf(),
        forall|i: int| 0 <= i < history.len() ==> (#[trigger] history[i]).valid(),
    ensures
        s.after_all(history).wf(),
        s.after_all(history).next_question_id >= s.next_question_id,
    decreases history.len(),
{
    if history.len() > 0 {
        let before = s.after_all(history.drop_last());
        lemma_history_keeps_wf(s, history.drop_last());
        assert(history.last().valid());
        match history.last() {
            Change::AddQuestion(draft) => lemma_add_question_keeps_wf(before, draft),
            Change::InsertQuestion(question) => lemma_insert_question_keeps_wf(before, question),
            Change::UpdateQuestion(question) => lemma_update_question_keeps_wf(before, question),
            Change::DeleteQuestion(id) => lemma_delete_question_keeps_wf(before, id),
            Change::AddAnswer(draft) => lemma_add_answer_keeps_wf(before, draft),
        }
    }
}

/// An identity that the store gives to a new question was never in use
/// before: no store at any earlier point of the history held a question
/// with it, not even one that was deleted since.
pub proof fn lemma_identity_was_never_used(
    history: Seq<Change>,
    earlier: int,
    draft: QuestionDraftView,
)
    requires
        0 <= earlier <= history.len(),
        forall|i: int| 0 <= i < history.len() ==> (#[trigger] history[i]).valid(),
    ensures
        StoreView::empty().after_all(history).add_question(draft).1 matches Ok(question)
            ==> !StoreView::empty().after_all(history.take(earlier)).has_question(question.id),
{
    let now = StoreView::empty().after_all(history);
    let then = StoreView::empty().after_all(history.take(earlier));
    // The earlier store is well formed, and the later one comes of it.
    lemma_history_keeps_wf(StoreView::empty(), history.take(earlier));
    lemma_history_splits(StoreView::empty(), history, earlier);
    lemma_history_keeps_wf(then, history.skip(earlier));
    // So what the earlier store held lies below the next identity of both.
    if then.has_question(now.next_question_id) {
        let p = then.position(now.next_question_id);
        assert(then.questions[p].id < then.next_question_id);
    }
}

/// A history may be gone through in two parts.
pub proof fn lemma_history_splits(s: StoreView, history: Seq<Change>, k: int)
    requires
        0 <= k <= history.len(),
    ensures
        s.after_all(history) == s.after_all(history.take(k)).after_all(history.skip(k)),
    decreases history.len(),
{
    if k == history.len() {
        assert(history.take(k) =~= history);
    } else {
        let front = history.drop_last();
        lemma_history_splits(s, front, k);
        assert(front.take(k) =~= history.take(k));
        assert(front.skip(k) =~= history.skip(k).drop_last());
    }
}

/// Deleting a question that is not there fails as not found and changes
/// nothing, so deleting it once more fails in the same way.
pub proof fn lemma_delete_missing_twice(s: StoreView, id: int)
    requires
        !s.has_question(id),
    ensures
        s.delete_question(id) == (s, Err::<bool, ErrorView>(ErrorView::QuestionNotFound)),
        s.delete_question(id).0.delete_question(id) == (
            s,
            Err::<bool, ErrorView>(ErrorView::QuestionNotFound),
        ),
{
}

/// Whatever the first deletion of a question did, the second one fails as
/// not found.
pub proof fn lemma_delete_twice(s: StoreView, id: int)
    requires
        s.wf(),
    ensures
        s.delete_question(id).0.delete_question(id).1 == Err::<bool, ErrorView>(
            ErrorView::QuestionNotFound,
        ),
{
    lemma_delete_question_keeps_wf(s, id);
}

/// A question made of a draft has the draft's title, content and tags and
/// an identity that the store has not given out before. It stands last, so
/// a page holds it exactly where the page reaches the end of the list: the
/// page without parameters holds it where the store held fewer than
/// `DEFAULT_LIMIT` questions.
pub proof fn lemma_created_question_is_listed(
    s: StoreView,
    draft: QuestionDraftView,
    limit: Option<u32>,
    offset: Option<u32>,
)
    requires
        s.wf(),
        s.next_question_id < IDENTITY_END,
    ensures
        s.add_question(draft).1 == Ok::<QuestionView, ErrorView>(
            draft.with_id(s.next_question_id),
        ),
        !s.has_question(s.next_question_id),
        forall|i: int|
            0 <= i < s.questions.len() ==> (#[trigger] s.questions[i]).id < s.next_question_id,
        s.add_question(draft).0.get_questions(limit, offset).contains(
            draft.with_id(s.next_question_id),
        ) <==> {
            let first: int = match offset {
                Some(n) => n as int,
                None => 0,
            };
            let count: int = match limit {
                Some(n) => n as int,
                None => DEFAULT_LIMIT as int,
            };
            first <= s.questions.len() < first + count
        },
{
    let question = draft.with_id(s.next_question_id);
    let t = s.add_question(draft).0;
    lemma_add_question_keeps_wf(s, draft);
    let first: int = match offset {
        Some(n) => n as int,
        None => 0,
    };
    let count: int = match limit {
        Some(n) => n as int,
        None => DEFAULT_LIMIT as int,
    };
    let len = s.questions.len() as int;
    let page = t.get_questions(limit, offset);
    if first <= len < first + count {
        assert(page[len - first] == question);
    } else if page.contains(question) {
        // The page would hold it at a place before the last, where a
        // question with another identity stands.
        let k = choose|k: int| 0 <= k < page.len() && page[k] == question;
        assert(t.questions[first + k].id != t.questions[len].id);
    }
}

/// An answer to a question that is not there is refused as not found, and
/// the store stays as it was.
pub proof fn lemma_answer_needs_its_question(s: StoreView, draft: AnswerDraftView)
    requires
        !s.has_question(draft.question_id),
    ensures
        s.add_answer(draft) == (s, Err::<AnswerView, ErrorView>(ErrorView::QuestionNotFound)),
{
}

/// Every limit and every offset give a page: the questions of the window
/// in the order of the store, at most `limit` of them, none twice and none
/// left out between two.
pub proof fn lemma_page_is_a_window(s: StoreView, limit: Option<u32>, offset: Option<u32>)
    ensures
        ({
            let (count, first) = window_of(limit, offset);
            let page = s.get_questions(limit, offset);
            &&& page.len() <= count
            &&& page.len() <= s.questions.len()
            &&& first + page.len() <= s.questions.len() || page.len() == 0
            &&& forall|k: int| 0 <= k < page.len() ==> page[k] == s.questions[first + k]
            &&& first + count >= s.questions.len() && first <= s.questions.len() ==> page.len()
                == s.questions.len() - first
        }),
{
}

/// A store without questions gives the empty page, whatever is asked for.
pub proof fn lemma_page_of_nothing_is_empty(s: StoreView, limit: Option<u32>, offset: Option<u32>)
    requires
        s.questions.len() == 0,
    ensures
        s.get_questions(limit, offset) == Seq::<QuestionView>::empty(),
{
}

/// A page that starts at or after the end of the list is empty, and is no
/// failure.
pub proof fn lemma_page_at_the_end_is_empty(s: StoreView, limit: Option<u32>, offset: u32)
    requires
        offset >= s.questions.len(),
    ensures
        s.get_questions(limit, Some(offset)) == Seq::<QuestionView>::empty(),
{
}

} // verus!
