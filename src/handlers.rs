//! Orchestration between the boundary and the stores: payload validation,
//! one store call per request, and the collapse of store errors into the
//! two boundary classes.

use vstd::prelude::*;
use crate::dao::{AnswersDao, QuestionsDao};
use crate::error::{HandlerError, INTERNAL_ERROR_MESSAGE};
use crate::laws::{delete_absent_question_changes_nothing, unknown_question_has_no_answers};
use crate::state::owner_key;
use crate::ident::{digits_value, is_canonical};
use crate::models::{Answer, AnswerDetail, AnswerId, Question, QuestionDetail, QuestionId};

verus! {

pub open spec fn question_payload_ok(q: Question) -> bool {
    q.title@.len() > 0 && q.description@.len() > 0
}

pub open spec fn answer_payload_ok(a: Answer) -> bool {
    a.content@.len() > 0
}

/// Refuses a question payload with an empty title or description.
pub fn check_question(question: &Question) -> (r: Result<(), HandlerError>)
    ensures
        r is Ok <==> question_payload_ok(*question),
        r is Err ==> r->Err_0 is BadRequest,
{
    if question.title.as_str().unicode_len() == 0 {
        return Err(HandlerError::BadRequest("title must not be empty".to_string()));
    }
    if question.description.as_str().unicode_len() == 0 {
        return Err(HandlerError::BadRequest("description must not be empty".to_string()));
    }
    Ok(())
}

/// Refuses an answer payload with empty content.
pub fn check_answer(answer: &Answer) -> (r: Result<(), HandlerError>)
    ensures
        r is Ok <==> answer_payload_ok(*answer),
        r is Err ==> r->Err_0 is BadRequest,
{
    if answer.content.as_str().unicode_len() == 0 {
        return Err(HandlerError::BadRequest("content must not be empty".to_string()));
    }
    Ok(())
}

/// `r` is the fixed internal error of the boundary.
pub open spec fn is_internal(r: HandlerError) -> bool {
    r is InternalError && r->InternalError_0@ == INTERNAL_ERROR_MESSAGE@
}

/// Validates the payload, then stores the question.
pub fn create_question<D: QuestionsDao>(question: Question, dao: &mut D) -> (r: Result<
    QuestionDetail,
    HandlerError,
>)
    requires
        old(dao).model().wf(),
    ensures
        final(dao).model().wf(),
        !question_payload_ok(question) ==> (r matches Err(HandlerError::BadRequest(_)) && *final(dao)
            == *old(dao)),
        question_payload_ok(question) && r is Err ==> is_internal(r->Err_0) && final(dao).model()
            == old(dao).model(),
        r is Ok ==> {
            let d = r->Ok_0;
            &&& final(dao).model() == old(dao).model().with_question(d)
            &&& d.title == question.title
            &&& d.description == question.description
            &&& is_canonical(d.question_uuid@)
            &&& d.created_at@.len() > 0
        },
{
    check_question(&question)?;
    match dao.create_question(question) {
        Ok(d) => Ok(d),
        Err(e) => Err(HandlerError::from_store(e)),
    }
}

/// All stored questions.
pub fn read_questions<D: QuestionsDao>(dao: &D) -> (r: Result<Vec<QuestionDetail>, HandlerError>)
    requires
        dao.model().wf(),
    ensures
        r is Ok ==> r->Ok_0@ == dao.model().questions,
        r is Err ==> is_internal(r->Err_0),
{
    match dao.get_questions() {
        Ok(v) => Ok(v),
        Err(e) => Err(HandlerError::from_store(e)),
    }
}

/// Deletes a question and its answers; an absent question is no error.
pub fn delete_question<D: QuestionsDao>(question_uuid: QuestionId, dao: &mut D) -> (r: Result<
    (),
    HandlerError,
>)
    requires
        old(dao).model().wf(),
    ensures
        final(dao).model().wf(),
        !is_canonical(question_uuid.question_uuid@) ==> (r matches Err(HandlerError::BadRequest(s))
            && s@ == question_uuid.question_uuid@),
        is_canonical(question_uuid.question_uuid@) ==> (r is Ok || (r is Err && is_internal(
            r->Err_0,
        ))),
        r is Ok ==> final(dao).model() == old(dao).model().without_question(
            digits_value(question_uuid.question_uuid@),
        ),
        r is Ok && !old(dao).model().has_question(digits_value(question_uuid.question_uuid@))
            ==> final(dao).model() == old(dao).model(),
        r is Err ==> final(dao).model() == old(dao).model(),
{
    let r = match dao.delete_question(question_uuid.question_uuid) {
        Ok(()) => Ok(()),
        Err(e) => Err(HandlerError::from_store(e)),
    };
    proof {
        let k = digits_value(question_uuid.question_uuid@);
        if r is Ok && !old(dao).model().has_question(k) {
            delete_absent_question_changes_nothing(old(dao).model(), k);
        }
    }
    r
}

/// Validates the payload, then stores the answer; an answer to a question
/// that is not stored is refused and nothing is stored.
pub fn create_answer<D: AnswersDao>(answer: Answer, dao: &mut D) -> (r: Result<
    AnswerDetail,
    HandlerError,
>)
    requires
        old(dao).model().wf(),
    ensures
        final(dao).model().wf(),
        !answer_payload_ok(answer) ==> (r matches Err(HandlerError::BadRequest(_)) && *final(dao)
            == *old(dao)),
        answer_payload_ok(answer) && !is_canonical(answer.question_uuid@) ==> (r matches Err(
            HandlerError::BadRequest(s),
        ) && s@ == answer.question_uuid@),
        answer_payload_ok(answer) && is_canonical(answer.question_uuid@) && !old(
            dao,
        ).model().has_question(digits_value(answer.question_uuid@)) ==> r is Err && is_internal(
            r->Err_0,
        ),
        answer_payload_ok(answer) && is_canonical(answer.question_uuid@) && r is Err ==> is_internal(
            r->Err_0,
        ),
        r is Err ==> final(dao).model() == old(dao).model(),
        r is Ok ==> {
            let d = r->Ok_0;
            &&& final(dao).model() == old(dao).model().with_answer(d)
            &&& d.content == answer.content
            &&& is_canonical(d.answer_uuid@)
            &&& owner_key(d) == digits_value(answer.question_uuid@)
            &&& d.created_at@.len() > 0
        },
{
    check_answer(&answer)?;
    match dao.create_answer(answer) {
        Ok(d) => Ok(d),
        Err(e) => Err(HandlerError::from_store(e)),
    }
}

/// The answers to a question; a valid identifier of no question lists
/// nothing.
pub fn read_answers<D: AnswersDao>(question_uuid: QuestionId, dao: &D) -> (r: Result<
    Vec<AnswerDetail>,
    HandlerError,
>)
    requires
        dao.model().wf(),
    ensures
        !is_canonical(question_uuid.question_uuid@) ==> (r matches Err(HandlerError::BadRequest(s))
            && s@ == question_uuid.question_uuid@),
        is_canonical(question_uuid.question_uuid@) ==> (r is Ok || (r is Err && is_internal(
            r->Err_0,
        ))),
        r is Ok ==> r->Ok_0@ == dao.model().answers_of(digits_value(question_uuid.question_uuid@)),
        r is Ok && !dao.model().has_question(digits_value(question_uuid.question_uuid@))
            ==> r->Ok_0@.len() == 0,
{
    let r = match dao.get_answers(question_uuid.question_uuid) {
        Ok(v) => Ok(v),
        Err(e) => Err(HandlerError::from_store(e)),
    };
    proof {
        let k = digits_value(question_uuid.question_uuid@);
        if !dao.model().has_question(k) {
            unknown_question_has_no_answers(dao.model(), k);
        }
    }
    r
}

/// Deletes an answer; an absent answer is no error.
pub fn delete_answer<D: AnswersDao>(answer_uuid: AnswerId, dao: &mut D) -> (r: Result<
    (),
    HandlerError,
>)
    requires
        old(dao).model().wf(),
    ensures
        final(dao).model().wf(),
        !is_canonical(answer_uuid.answer_uuid@) ==> (r matches Err(HandlerError::BadRequest(s))
            && s@ == answer_uuid.answer_uuid@),
        is_canonical(answer_uuid.answer_uuid@) ==> (r is Ok || (r is Err && is_internal(
            r->Err_0,
        ))),
        r is Ok ==> final(dao).model() == old(dao).model().without_answer(
            digits_value(answer_uuid.answer_uuid@),
        ),
        r is Err ==> final(dao).model() == old(dao).model(),
{
    match dao.delete_answer(answer_uuid.answer_uuid) {
        Ok(()) => Ok(()),
        Err(e) => Err(HandlerError::from_store(e)),
    }
}

} // verus!
