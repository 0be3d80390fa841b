//! The store interfaces the orchestration layer depends on, and their
//! in-memory implementation.

use vstd::prelude::*;
use crate::error::DbError;
use crate::ident::{digits_value, is_canonical};
use crate::models::{Answer, AnswerDetail, Question, QuestionDetail};
use crate::laws::decimal_text_is_not_empty;
use crate::state::{StoreState, answer_key, owner_key, question_key};
use crate::store::MemoryStore;

verus! {

/// Create, list and delete questions. A backend may fail with a storage
/// failure, and then leaves what it holds unchanged.
pub trait QuestionsDao {
    /// What the store holds.
    spec fn model(&self) -> StoreState;

    /// Stores a question; the store assigns its identifier and stamp.
    fn create_question(&mut self, question: Question) -> (r: Result<QuestionDetail, DbError>)
        requires
            old(self).model().wf(),
        ensures
            final(self).model().wf(),
            r is Ok ==> {
                let d = r->Ok_0;
                &&& final(self).model() == old(self).model().with_question(d)
                &&& final(self).model().has_question(question_key(d))
                &&& d.title == question.title
                &&& d.description == question.description
                &&& is_canonical(d.question_uuid@)
                &&& question_key(d) == old(self).model().next
                &&& d.created_at@.len() > 0
            },
            r is Err ==> r->Err_0 is StorageFailure && final(self).model() == old(self).model(),
    ;

    /// Deletes a question and its answers; deleting an absent one succeeds.
    fn delete_question(&mut self, question_uuid: String) -> (r: Result<(), DbError>)
        requires
            old(self).model().wf(),
        ensures
            final(self).model().wf(),
            !is_canonical(question_uuid@) ==> (r matches Err(DbError::InvalidIdentifier(s)) && s@
                == question_uuid@),
            is_canonical(question_uuid@) ==> (r is Ok || r matches Err(DbError::StorageFailure(_))),
            r is Ok ==> final(self).model() == old(self).model().without_question(
                digits_value(question_uuid@),
            ),
            r is Err ==> final(self).model() == old(self).model(),
    ;

    /// All stored questions.
    fn get_questions(&self) -> (r: Result<Vec<QuestionDetail>, DbError>)
        requires
            self.model().wf(),
        ensures
            r is Ok ==> r->Ok_0@ == self.model().questions,
            r is Err ==> r->Err_0 is StorageFailure,
    ;
}

/// Create, list and delete answers, each owned by a question. A backend may
/// fail with a storage failure, and then leaves what it holds unchanged.
pub trait AnswersDao {
    /// What the store holds.
    spec fn model(&self) -> StoreState;

    /// Stores an answer to the question that `answer.question_uuid` names;
    /// a question that is not stored is refused and nothing is stored.
    fn create_answer(&mut self, answer: Answer) -> (r: Result<AnswerDetail, DbError>)
        requires
            old(self).model().wf(),
        ensures
            final(self).model().wf(),
            !is_canonical(answer.question_uuid@) ==> (r matches Err(DbError::InvalidIdentifier(s))
                && s@ == answer.question_uuid@),
            is_canonical(answer.question_uuid@) && !old(self).model().has_question(
                digits_value(answer.question_uuid@),
            ) ==> (r matches Err(DbError::ConstraintViolation(_)) || r matches Err(
                DbError::StorageFailure(_),
            )),
            is_canonical(answer.question_uuid@) && old(self).model().has_question(
                digits_value(answer.question_uuid@),
            ) ==> (r is Ok || r matches Err(DbError::StorageFailure(_))),
            r is Ok ==> {
                let d = r->Ok_0;
                &&& final(self).model() == old(self).model().with_answer(d)
                &&& d.content == answer.content
                &&& is_canonical(d.answer_uuid@)
                &&& is_canonical(d.question_uuid@)
                &&& owner_key(d) == digits_value(answer.question_uuid@)
                &&& answer_key(d) == old(self).model().next
                &&& d.created_at@.len() > 0
            },
            r is Err ==> final(self).model() == old(self).model(),
    ;

    /// Deletes an answer; deleting an absent one succeeds.
    fn delete_answer(&mut self, answer_uuid: String) -> (r: Result<(), DbError>)
        requires
            old(self).model().wf(),
        ensures
            final(self).model().wf(),
            !is_canonical(answer_uuid@) ==> (r matches Err(DbError::InvalidIdentifier(s)) && s@
                == answer_uuid@),
            is_canonical(answer_uuid@) ==> (r is Ok || r matches Err(DbError::StorageFailure(_))),
            r is Ok ==> final(self).model() == old(self).model().without_answer(
                digits_value(answer_uuid@),
            ),
            r is Err ==> final(self).model() == old(self).model(),
    ;

    /// The answers to a question, in the order they were stored; none, and
    /// no error, for a question that is not stored.
    fn get_answers(&self, question_uuid: String) -> (r: Result<Vec<AnswerDetail>, DbError>)
        requires
            self.model().wf(),
        ensures
            !is_canonical(question_uuid@) ==> (r matches Err(DbError::InvalidIdentifier(s)) && s@
                == question_uuid@),
            is_canonical(question_uuid@) ==> (r is Ok || r matches Err(DbError::StorageFailure(_))),
            r is Ok ==> r->Ok_0@ == self.model().answers_of(digits_value(question_uuid@)),
    ;
}

impl QuestionsDao for MemoryStore {
    open spec fn model(&self) -> StoreState {
        self@
    }

    fn create_question(&mut self, question: Question) -> (r: Result<QuestionDetail, DbError>) {
        let r = self.add_question(question);
        proof {
            decimal_text_is_not_empty(old(self)@.next);
        }
        r
    }

    fn delete_question(&mut self, question_uuid: String) -> (r: Result<(), DbError>) {
        self.remove_question(question_uuid.as_str())
    }

    fn get_questions(&self) -> (r: Result<Vec<QuestionDetail>, DbError>) {
        Ok(self.all_questions())
    }
}

impl AnswersDao for MemoryStore {
    open spec fn model(&self) -> StoreState {
        self@
    }

    fn create_answer(&mut self, answer: Answer) -> (r: Result<AnswerDetail, DbError>) {
        let r = self.add_answer(answer);
        proof {
            decimal_text_is_not_empty(old(self)@.next);
        }
        r
    }

    fn delete_answer(&mut self, answer_uuid: String) -> (r: Result<(), DbError>) {
        self.remove_answer(answer_uuid.as_str())
    }

    fn get_answers(&self, question_uuid: String) -> (r: Result<Vec<AnswerDetail>, DbError>) {
        self.answers_for(question_uuid.as_str())
    }
}

} // verus!
