//! Properties of the store model that hold across operations.

use vstd::prelude::*;
use crate::error::{DbError, HandlerError, shown_as};
use crate::models::{AnswerDetail, Question, QuestionDetail};
use crate::state::{
    StoreState, answer_not_under, answer_under, owner_key, question_key, question_not_keyed,
};
use crate::store::decimal_text;

verus! {

broadcast use Seq::lemma_filter_push;

proof fn lemma_filter_keeps_all<A>(s: Seq<A>, p: spec_fn(A) -> bool)
    requires
        forall|i: int| 0 <= i < s.len() ==> p(#[trigger] s[i]),
    ensures
        s.filter(p) == s,
    decreases s.len(),
{
    if s.len() == 0 {
        reveal(Seq::filter);
    } else {
        let init = s.drop_last();
        assert forall|i: int| 0 <= i < init.len() implies p(#[trigger] init[i]) by {
            assert(init[i] == s[i]);
        }
        lemma_filter_keeps_all(init, p);
        assert(s == init.push(s.last()));
        assert(p(s[s.len() - 1]));
    }
}

proof fn lemma_filter_keeps_none<A>(s: Seq<A>, p: spec_fn(A) -> bool)
    requires
        forall|i: int| 0 <= i < s.len() ==> !p(#[trigger] s[i]),
    ensures
        s.filter(p) == Seq::<A>::empty(),
    decreases s.len(),
{
    if s.len() == 0 {
        reveal(Seq::filter);
    } else {
        let init = s.drop_last();
        assert forall|i: int| 0 <= i < init.len() implies !p(#[trigger] init[i]) by {
            assert(init[i] == s[i]);
        }
        lemma_filter_keeps_none(init, p);
        assert(s == init.push(s.last()));
        assert(!p(s[s.len() - 1]));
    }
}

proof fn lemma_filter_twice<A>(s: Seq<A>, p: spec_fn(A) -> bool)
    ensures
        s.filter(p).filter(p) == s.filter(p),
{
    broadcast use vstd::seq_lib::group_filter_ensures;

    lemma_filter_keeps_all(s.filter(p), p);
}

/// In a well-formed store no answer belongs to a question that is not
/// stored: listing the answers of an unknown question gives nothing.
pub proof fn unknown_question_has_no_answers(st: StoreState, k: int)
    requires
        st.wf(),
        !st.has_question(k),
    ensures
        st.answers_of(k) == Seq::<AnswerDetail>::empty(),
{
    assert forall|i: int| 0 <= i < st.answers.len() implies !answer_under(k)(
        #[trigger] st.answers[i],
    ) by {
        assert(st.has_question(owner_key(st.answers[i])));
    }
    lemma_filter_keeps_none(st.answers, answer_under(k));
}

/// Deleting a question that is not stored changes nothing.
pub proof fn delete_absent_question_changes_nothing(st: StoreState, k: int)
    requires
        st.wf(),
        !st.has_question(k),
    ensures
        st.without_question(k) == st,
{
    assert forall|i: int| 0 <= i < st.questions.len() implies question_not_keyed(k)(
        #[trigger] st.questions[i],
    ) by {
        if question_key(st.questions[i]) == k {
            assert(st.has_question(k));
        }
    }
    lemma_filter_keeps_all(st.questions, question_not_keyed(k));
    assert forall|i: int| 0 <= i < st.answers.len() implies answer_not_under(k)(
        #[trigger] st.answers[i],
    ) by {
        assert(st.has_question(owner_key(st.answers[i])));
    }
    lemma_filter_keeps_all(st.answers, answer_not_under(k));
}

/// Deleting a question twice leaves the store as deleting it once.
pub proof fn delete_question_is_idempotent(st: StoreState, k: int)
    ensures
        st.without_question(k).without_question(k) == st.without_question(k),
{
    lemma_filter_twice(st.questions, question_not_keyed(k));
    lemma_filter_twice(st.answers, answer_not_under(k));
}

/// Once a question is deleted, none of its answers remain.
pub proof fn deleted_question_has_no_answers(st: StoreState, k: int)
    ensures
        st.without_question(k).answers_of(k) == Seq::<AnswerDetail>::empty(),
{
    broadcast use vstd::seq_lib::group_filter_ensures;

    let rest = st.without_question(k).answers;
    assert forall|i: int| 0 <= i < rest.len() implies !answer_under(k)(#[trigger] rest[i]) by {
        assert(answer_not_under(k)(rest[i]));
    }
    lemma_filter_keeps_none(rest, answer_under(k));
}

/// A numeral is never empty.
pub proof fn decimal_text_is_not_empty(n: nat)
    ensures
        decimal_text(n).len() > 0,
{
    reveal_with_fuel(decimal_text, 2);
}

/// Creating a question in a store without questions and then listing them
/// gives exactly that question, with the title and description it was
/// created with and a non-empty creation stamp.
pub proof fn first_question_is_listed(st: StoreState, q: Question, d: QuestionDetail)
    requires
        st.questions.len() == 0,
        d.title == q.title,
        d.description == q.description,
        d.created_at@ == decimal_text(st.next),
    ensures
        st.with_question(d).questions == seq![d],
        st.with_question(d).questions[0].title == q.title,
        st.with_question(d).questions[0].description == q.description,
        st.with_question(d).questions[0].created_at@.len() > 0,
{
    decimal_text_is_not_empty(st.next);
    assert(st.with_question(d).questions =~= seq![d]);
}

/// An answer created against a newly created question is the one answer
/// listed for that question.
pub proof fn answer_is_listed_under_new_question(
    st: StoreState,
    qd: QuestionDetail,
    ad: AnswerDetail,
)
    requires
        st.wf(),
        question_key(qd) == st.next,
        owner_key(ad) == question_key(qd),
    ensures
        st.with_question(qd).with_answer(ad).answers_of(question_key(qd)) == seq![ad],
{
    let k = question_key(qd);
    assert forall|i: int| 0 <= i < st.answers.len() implies !answer_under(k)(
        #[trigger] st.answers[i],
    ) by {
        assert(st.has_question(owner_key(st.answers[i])));
        let j = choose|j: int|
            0 <= j < st.questions.len() && question_key(#[trigger] st.questions[j]) == owner_key(
                st.answers[i],
            );
        assert(0 <= question_key(st.questions[j]) < st.next);
    }
    lemma_filter_keeps_none(st.answers, answer_under(k));
    assert(st.with_question(qd).with_answer(ad).answers == st.answers.push(ad));
    assert(Seq::<AnswerDetail>::empty().push(ad) =~= seq![ad]);
}

/// A constraint violation from the store reaches the boundary as an
/// internal error, and a storage failure's cause is not shown there.
pub proof fn store_failures_are_internal(e: DbError, h: HandlerError)
    requires
        e is ConstraintViolation || e is StorageFailure,
        shown_as(e, h),
    ensures
        h is InternalError,
        e is StorageFailure ==> h->InternalError_0@ == crate::error::INTERNAL_ERROR_MESSAGE@,
{
}

} // verus!
