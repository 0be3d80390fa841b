//! The mathematical model of the stored records and the effect of each
//! store operation on it.

use vstd::prelude::*;
use crate::ident::{digits_value, is_canonical};
use crate::models::{AnswerDetail, QuestionDetail};

verus! {

/// The value of a question's identifier.
pub open spec fn question_key(q: QuestionDetail) -> int {
    digits_value(q.question_uuid@)
}

/// The value of an answer's own identifier.
pub open spec fn answer_key(a: AnswerDetail) -> int {
    digits_value(a.answer_uuid@)
}

/// The value of the identifier of the question that an answer belongs to.
pub open spec fn owner_key(a: AnswerDetail) -> int {
    digits_value(a.question_uuid@)
}

pub open spec fn answer_under(k: int) -> spec_fn(AnswerDetail) -> bool {
    |a: AnswerDetail| owner_key(a) == k
}

pub open spec fn answer_not_under(k: int) -> spec_fn(AnswerDetail) -> bool {
    |a: AnswerDetail| owner_key(a) != k
}

pub open spec fn answer_not_keyed(k: int) -> spec_fn(AnswerDetail) -> bool {
    |a: AnswerDetail| answer_key(a) != k
}

pub open spec fn question_not_keyed(k: int) -> spec_fn(QuestionDetail) -> bool {
    |q: QuestionDetail| question_key(q) != k
}

pub open spec fn question_key_of() -> spec_fn(QuestionDetail) -> int {
    |q: QuestionDetail| question_key(q)
}

pub open spec fn answer_key_of() -> spec_fn(AnswerDetail) -> int {
    |a: AnswerDetail| answer_key(a)
}

/// No two elements of `s` have the same key.
pub open spec fn keys_distinct<A>(s: Seq<A>, key: spec_fn(A) -> int) -> bool {
    forall|i: int, j: int| 0 <= i < j < s.len() ==> key(#[trigger] s[i]) != key(#[trigger] s[j])
}

/// Keeping some elements keeps their keys distinct.
pub proof fn lemma_filter_keys_distinct<A>(s: Seq<A>, p: spec_fn(A) -> bool, key: spec_fn(A) -> int)
    requires
        keys_distinct(s, key),
    ensures
        keys_distinct(s.filter(p), key),
    decreases s.len(),
{
    broadcast use Seq::lemma_filter_push, Seq::lemma_filter_contains_rev;

    if s.len() > 0 {
        let init = s.drop_last();
        let last = s.last();
        assert(s == init.push(last));
        assert forall|i: int, j: int| 0 <= i < j < init.len() implies key(#[trigger] init[i]) != key(
            #[trigger] init[j],
        ) by {
            assert(init[i] == s[i] && init[j] == s[j]);
        }
        lemma_filter_keys_distinct(init, p, key);
        if p(last) {
            let fi = init.filter(p);
            let fs = fi.push(last);
            assert forall|i: int, j: int| 0 <= i < j < fs.len() implies key(#[trigger] fs[i]) != key(
                #[trigger] fs[j],
            ) by {
                if j == fs.len() - 1 {
                    assert(fs[i] == fi[i]);
                    assert(fi.contains(fi[i]));
                    assert(init.contains(fi[i]));
                    let k = choose|k: int| 0 <= k < init.len() && init[k] == fi[i];
                    assert(s[k] == init[k]);
                    assert(key(s[k]) != key(s[s.len() - 1]));
                } else {
                    assert(fs[i] == fi[i] && fs[j] == fi[j]);
                }
            }
        }
    } else {
        reveal(Seq::filter);
    }
}

/// The stored records, and the next identifier value the store hands out.
pub struct StoreState {
    pub questions: Seq<QuestionDetail>,
    pub answers: Seq<AnswerDetail>,
    pub next: nat,
}

impl StoreState {
    pub open spec fn has_question(self, k: int) -> bool {
        exists|j: int| 0 <= j < self.questions.len() && question_key(#[trigger] self.questions[j]) == k
    }

    /// Identifiers are canonical, unique, and below `next`, so that the next
    /// one handed out is new; every answer belongs to a stored question.
    pub open spec fn wf(self) -> bool {
        &&& forall|i: int|
            #![trigger self.questions[i]]
            0 <= i < self.questions.len() ==> {
                &&& is_canonical(self.questions[i].question_uuid@)
                &&& 0 <= question_key(self.questions[i]) < self.next
            }
        &&& forall|i: int|
            #![trigger self.answers[i]]
            0 <= i < self.answers.len() ==> {
                &&& is_canonical(self.answers[i].answer_uuid@)
                &&& is_canonical(self.answers[i].question_uuid@)
                &&& 0 <= answer_key(self.answers[i]) < self.next
                &&& self.has_question(owner_key(self.answers[i]))
            }
        &&& keys_distinct(self.questions, question_key_of())
        &&& keys_distinct(self.answers, answer_key_of())
    }

    /// The answers that belong to the question with key `k`, in the order
    /// they were stored.
    pub open spec fn answers_of(self, k: int) -> Seq<AnswerDetail> {
        self.answers.filter(answer_under(k))
    }

    pub open spec fn with_question(self, q: QuestionDetail) -> StoreState {
        StoreState { questions: self.questions.push(q), answers: self.answers, next: self.next + 1 }
    }

    pub open spec fn with_answer(self, a: AnswerDetail) -> StoreState {
        StoreState { questions: self.questions, answers: self.answers.push(a), next: self.next + 1 }
    }

    /// Removes the question with key `k` and, by cascade, its answers.
    pub open spec fn without_question(self, k: int) -> StoreState {
        StoreState {
            questions: self.questions.filter(question_not_keyed(k)),
            answers: self.answers.filter(answer_not_under(k)),
            next: self.next,
        }
    }

    pub open spec fn without_answer(self, k: int) -> StoreState {
        StoreState {
            questions: self.questions,
            answers: self.answers.filter(answer_not_keyed(k)),
            next: self.next,
        }
    }
}

/// Removing a question and its answers keeps the store well formed.
pub proof fn lemma_without_question_wf(st: StoreState, k: int)
    requires
        st.wf(),
    ensures
        st.without_question(k).wf(),
{
    broadcast use vstd::seq_lib::group_filter_ensures, Seq::lemma_filter_contains_rev;

    let r = st.without_question(k);
    lemma_filter_keys_distinct(st.questions, question_not_keyed(k), question_key_of());
    lemma_filter_keys_distinct(st.answers, answer_not_under(k), answer_key_of());
    assert forall|i: int| #![trigger r.answers[i]] #![trigger r.questions[i]] 0 <= i < r.questions.len() implies {
        &&& is_canonical(r.questions[i].question_uuid@)
        &&& 0 <= question_key(r.questions[i]) < r.next
    } by {
        assert(r.questions.contains(r.questions[i]));
    }
    assert forall|i: int| #![trigger r.answers[i]] #![trigger r.questions[i]] 0 <= i < r.answers.len() implies {
        &&& is_canonical(r.answers[i].answer_uuid@)
        &&& is_canonical(r.answers[i].question_uuid@)
        &&& 0 <= answer_key(r.answers[i]) < r.next
        &&& r.has_question(owner_key(r.answers[i]))
    } by {
        let a = r.answers[i];
        assert(r.answers.contains(a));
        assert(answer_not_under(k)(a));
        let j = choose|j: int| 0 <= j < st.answers.len() && st.answers[j] == a;
        assert(st.has_question(owner_key(st.answers[j])));
        let jq = choose|jq: int|
            0 <= jq < st.questions.len() && question_key(#[trigger] st.questions[jq]) == owner_key(a);
        assert(question_not_keyed(k)(st.questions[jq]));
        assert(r.questions.contains(st.questions[jq]));
    }
}

/// Removing an answer keeps the store well formed.
pub proof fn lemma_without_answer_wf(st: StoreState, k: int)
    requires
        st.wf(),
    ensures
        st.without_answer(k).wf(),
{
    broadcast use vstd::seq_lib::group_filter_ensures, Seq::lemma_filter_contains_rev;

    let r = st.without_answer(k);
    lemma_filter_keys_distinct(st.answers, answer_not_keyed(k), answer_key_of());
    assert forall|i: int| #![trigger r.answers[i]] #![trigger r.questions[i]] 0 <= i < r.answers.len() implies {
        &&& is_canonical(r.answers[i].answer_uuid@)
        &&& is_canonical(r.answers[i].question_uuid@)
        &&& 0 <= answer_key(r.answers[i]) < r.next
        &&& r.has_question(owner_key(r.answers[i]))
    } by {
        assert(r.answers.contains(r.answers[i]));
        let j = choose|j: int| 0 <= j < st.answers.len() && st.answers[j] == r.answers[i];
        assert(st.has_question(owner_key(st.answers[j])));
        assert(r.questions == st.questions);
    }
}

} // verus!
