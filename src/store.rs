//! An in-memory store of questions and answers. It assigns identifiers and
//! creation stamps, enforces that an answer names a stored question, and
//! removes a question's answers with it.

use vstd::prelude::*;
use crate::error::DbError;
use crate::ident::{CanonicalId, digits_value, is_canonical, is_canonical_lower};
use crate::models::{Answer, AnswerDetail, Question, QuestionDetail};
use crate::state::{
    StoreState, answer_key, answer_not_keyed, lemma_without_answer_wf, lemma_without_question_wf,
    owner_key, answer_not_under, answer_under, question_key, question_not_keyed,
};

verus! {

broadcast use Seq::lemma_filter_push;

pub open spec fn digit_char(d: nat) -> char {
    seq!['0', '1', '2', '3', '4', '5', '6', '7', '8', '9'][d as int]
}

/// The decimal numeral of `n`, without leading zeros.
pub open spec fn decimal_text(n: nat) -> Seq<char>
    decreases n,
{
    if n < 10 {
        seq![digit_char(n)]
    } else {
        decimal_text(n / 10).push(digit_char(n % 10))
    }
}

fn digit_text(d: u64) -> (r: &'static str)
    requires
        d < 10,
    ensures
        r@ == seq![digit_char(d as nat)],
{
    proof {
        reveal_strlit("0");
        reveal_strlit("1");
        reveal_strlit("2");
        reveal_strlit("3");
        reveal_strlit("4");
        reveal_strlit("5");
        reveal_strlit("6");
        reveal_strlit("7");
        reveal_strlit("8");
        reveal_strlit("9");
    }
    match d {
        0 => "0",
        1 => "1",
        2 => "2",
        3 => "3",
        4 => "4",
        5 => "5",
        6 => "6",
        7 => "7",
        8 => "8",
        _ => "9",
    }
}

/// The decimal numeral of `n`.
fn decimal(n: u64) -> (r: String)
    ensures
        r@ == decimal_text(n as nat),
    decreases n,
{
    if n < 10 {
        String::from_str(digit_text(n))
    } else {
        let mut s = decimal(n / 10);
        s.append(digit_text(n % 10));
        s
    }
}

/// The value of a canonical identifier text.
fn key_of_text(s: &String) -> (r: u128)
    requires
        is_canonical(s@),
    ensures
        r as int == digits_value(s@),
{
    match CanonicalId::parse(s.as_str()) {
        Ok(id) => id.value,
        Err(_) => 0,
    }
}

/// Questions and answers held in memory.
pub struct MemoryStore {
    questions: Vec<QuestionDetail>,
    answers: Vec<AnswerDetail>,
    next: u64,
}

impl View for MemoryStore {
    type V = StoreState;

    closed spec fn view(&self) -> StoreState {
        StoreState { questions: self.questions@, answers: self.answers@, next: self.next as nat }
    }
}

impl MemoryStore {
    /// An empty store.
    pub fn new() -> (r: MemoryStore)
        ensures
            r@.wf(),
            r@.questions.len() == 0,
            r@.answers.len() == 0,
            r@.next == 1,
    {
        MemoryStore { questions: Vec::new(), answers: Vec::new(), next: 1 }
    }

    fn find_question(&self, k: u128) -> (r: bool)
        requires
            self@.wf(),
        ensures
            r == self@.has_question(k as int),
    {
        let mut i: usize = 0;
        while i < self.questions.len()
            invariant
                self@.wf(),
                i <= self.questions@.len(),
                forall|j: int| 0 <= j < i ==> question_key(#[trigger] self.questions@[j]) != k,
            decreases self.questions.len() - i,
        {
            assert(self@.questions[i as int] == self.questions@[i as int]);
            let qk = key_of_text(&self.questions[i].question_uuid);
            if qk == k {
                assert(question_key(self.questions@[i as int]) == k);
                return true;
            }
            i = i + 1;
        }
        false
    }

    fn questions_without(&self, k: u128) -> (r: Vec<QuestionDetail>)
        requires
            self@.wf(),
        ensures
            r@ == self@.questions.filter(question_not_keyed(k as int)),
    {
        let ghost all = self.questions@;
        let mut kept: Vec<QuestionDetail> = Vec::new();
        let mut i: usize = 0;
        while i < self.questions.len()
            invariant
                self@.wf(),
                all == self.questions@,
                i <= all.len(),
                kept@ == all.subrange(0, i as int).filter(question_not_keyed(k as int)),
            decreases self.questions.len() - i,
        {
            assert(self@.questions[i as int] == self.questions@[i as int]);
            let qk = key_of_text(&self.questions[i].question_uuid);
            if qk != k {
                kept.push(self.questions[i].duplicate());
            }
            assert(all.subrange(0, i + 1) == all.subrange(0, i as int).push(all[i as int]));
            i = i + 1;
        }
        assert(all.subrange(0, all.len() as int) == all);
        kept
    }

    fn answers_without_owner(&self, k: u128) -> (r: Vec<AnswerDetail>)
        requires
            self@.wf(),
        ensures
            r@ == self@.answers.filter(answer_not_under(k as int)),
    {
        let ghost all = self.answers@;
        let mut kept: Vec<AnswerDetail> = Vec::new();
        let mut i: usize = 0;
        while i < self.answers.len()
            invariant
                self@.wf(),
                all == self.answers@,
                i <= all.len(),
                kept@ == all.subrange(0, i as int).filter(answer_not_under(k as int)),
            decreases self.answers.len() - i,
        {
            assert(self@.answers[i as int] == self.answers@[i as int]);
            let ok = key_of_text(&self.answers[i].question_uuid);
            if ok != k {
                kept.push(self.answers[i].duplicate());
            }
            assert(all.subrange(0, i + 1) == all.subrange(0, i as int).push(all[i as int]));
            i = i + 1;
        }
        assert(all.subrange(0, all.len() as int) == all);
        kept
    }

    fn answers_without_key(&self, k: u128) -> (r: Vec<AnswerDetail>)
        requires
            self@.wf(),
        ensures
            r@ == self@.answers.filter(answer_not_keyed(k as int)),
    {
        let ghost all = self.answers@;
        let mut kept: Vec<AnswerDetail> = Vec::new();
        let mut i: usize = 0;
        while i < self.answers.len()
            invariant
                self@.wf(),
                all == self.answers@,
                i <= all.len(),
                kept@ == all.subrange(0, i as int).filter(answer_not_keyed(k as int)),
            decreases self.answers.len() - i,
        {
            assert(self@.answers[i as int] == self.answers@[i as int]);
            let ak = key_of_text(&self.answers[i].answer_uuid);
            if ak != k {
                kept.push(self.answers[i].duplicate());
            }
            assert(all.subrange(0, i + 1) == all.subrange(0, i as int).push(all[i as int]));
            i = i + 1;
        }
        assert(all.subrange(0, all.len() as int) == all);
        kept
    }

    fn answers_with_owner(&self, k: u128) -> (r: Vec<AnswerDetail>)
        requires
            self@.wf(),
        ensures
            r@ == self@.answers_of(k as int),
    {
        let ghost all = self.answers@;
        let mut kept: Vec<AnswerDetail> = Vec::new();
        let mut i: usize = 0;
        while i < self.answers.len()
            invariant
                self@.wf(),
                all == self.answers@,
                i <= all.len(),
                kept@ == all.subrange(0, i as int).filter(answer_under(k as int)),
            decreases self.answers.len() - i,
        {
            assert(self@.answers[i as int] == self.answers@[i as int]);
            let ok = key_of_text(&self.answers[i].question_uuid);
            if ok == k {
                kept.push(self.answers[i].duplicate());
            }
            assert(all.subrange(0, i + 1) == all.subrange(0, i as int).push(all[i as int]));
            i = i + 1;
        }
        assert(all.subrange(0, all.len() as int) == all);
        kept
    }

    /// Stores a new question under a fresh identifier. Fails only when the
    /// identifier values are used up.
    pub fn add_question(&mut self, question: Question) -> (r: Result<QuestionDetail, DbError>)
        requires
            old(self)@.wf(),
        ensures
            final(self)@.wf(),
            old(self)@.next < u64::MAX ==> r is Ok,
            r is Ok ==> {
                let d = r->Ok_0;
                &&& final(self)@ == old(self)@.with_question(d)
                &&& final(self)@.has_question(question_key(d))
                &&& d.title == question.title
                &&& d.description == question.description
                &&& is_canonical_lower(d.question_uuid@)
                &&& question_key(d) == old(self)@.next
                &&& d.created_at@ == decimal_text(old(self)@.next)
            },
            r is Err ==> r->Err_0 is StorageFailure && final(self)@ == old(self)@,
    {
        if self.next == u64::MAX {
            return Err(DbError::StorageFailure("identifier values are used up".to_string()));
        }
        let id = CanonicalId { value: self.next as u128 };
        let d = QuestionDetail {
            question_uuid: id.to_text(),
            title: question.title,
            description: question.description,
            created_at: decimal(self.next),
        };
        let ghost before = self@;
        self.questions.push(d.duplicate());
        self.next = self.next + 1;
        proof {
            let after = self@;
            assert(after == before.with_question(d));
            assert(after.questions[before.questions.len() as int] == d);
            assert forall|i: int| 0 <= i < after.answers.len() implies after.has_question(
                owner_key(#[trigger] after.answers[i]),
            ) by {
                assert(before.answers[i] == after.answers[i]);
                assert(before.has_question(owner_key(before.answers[i])));
                let j = choose|j: int|
                    0 <= j < before.questions.len() && question_key(#[trigger] before.questions[j])
                        == owner_key(before.answers[i]);
                assert(after.questions[j] == before.questions[j]);
            }
            assert forall|i: int| 0 <= i < after.questions.len() implies {
                &&& is_canonical(#[trigger] after.questions[i].question_uuid@)
                &&& 0 <= question_key(after.questions[i]) < after.next
            } by {
                if i < before.questions.len() {
                    assert(after.questions[i] == before.questions[i]);
                }
            }
            assert forall|i: int| 0 <= i < after.answers.len() implies {
                &&& is_canonical(#[trigger] after.answers[i].answer_uuid@)
                &&& is_canonical(after.answers[i].question_uuid@)
                &&& 0 <= answer_key(after.answers[i]) < after.next
            } by {
                assert(after.answers[i] == before.answers[i]);
            }
        }
        Ok(d)
    }

    /// All stored questions, in the order they were stored.
    pub fn all_questions(&self) -> (r: Vec<QuestionDetail>)
        ensures
            r@ == self@.questions,
    {
        let mut out: Vec<QuestionDetail> = Vec::new();
        let mut i: usize = 0;
        while i < self.questions.len()
            invariant
                i <= self.questions@.len(),
                out@ == self.questions@.subrange(0, i as int),
            decreases self.questions.len() - i,
        {
            out.push(self.questions[i].duplicate());
            assert(self.questions@.subrange(0, i + 1) == self.questions@.subrange(0, i as int).push(
                self.questions@[i as int],
            ));
            i = i + 1;
        }
        assert(self.questions@.subrange(0, self.questions@.len() as int) == self.questions@);
        out
    }

    /// Removes the question named by `question_uuid` and its answers. A
    /// valid identifier that names no question removes nothing and succeeds.
    pub fn remove_question(&mut self, question_uuid: &str) -> (r: Result<(), DbError>)
        requires
            old(self)@.wf(),
        ensures
            final(self)@.wf(),
            !is_canonical(question_uuid@) ==> {
                &&& r matches Err(DbError::InvalidIdentifier(s)) && s@ == question_uuid@
                &&& final(self)@ == old(self)@
            },
            is_canonical(question_uuid@) ==> {
                &&& r is Ok
                &&& final(self)@ == old(self)@.without_question(digits_value(question_uuid@))
            },
    {
        let id = match CanonicalId::parse(question_uuid) {
            Ok(id) => id,
            Err(e) => return Err(DbError::InvalidIdentifier(e.raw)),
        };
        let ghost before = self@;
        let questions = self.questions_without(id.value);
        let answers = self.answers_without_owner(id.value);
        self.questions = questions;
        self.answers = answers;
        proof {
            assert(self@ == before.without_question(id.value as int));
            lemma_without_question_wf(before, id.value as int);
        }
        Ok(())
    }

    /// Stores a new answer to the question named by `answer.question_uuid`.
    pub fn add_answer(&mut self, answer: Answer) -> (r: Result<AnswerDetail, DbError>)
        requires
            old(self)@.wf(),
        ensures
            final(self)@.wf(),
            r is Err ==> final(self)@ == old(self)@,
            !is_canonical(answer.question_uuid@) ==> (r matches Err(DbError::InvalidIdentifier(s))
                && s@ == answer.question_uuid@),
            is_canonical(answer.question_uuid@) && !old(self)@.has_question(
                digits_value(answer.question_uuid@),
            ) ==> r is Err && r->Err_0 is ConstraintViolation,
            is_canonical(answer.question_uuid@) && old(self)@.has_question(
                digits_value(answer.question_uuid@),
            ) ==> (r is Ok <==> old(self)@.next < u64::MAX) && (r is Err ==> r->Err_0 is StorageFailure),
            r is Ok ==> {
                let d = r->Ok_0;
                &&& final(self)@ == old(self)@.with_answer(d)
                &&& d.content == answer.content
                &&& is_canonical_lower(d.answer_uuid@)
                &&& is_canonical_lower(d.question_uuid@)
                &&& owner_key(d) == digits_value(answer.question_uuid@)
                &&& answer_key(d) == old(self)@.next
                &&& d.created_at@ == decimal_text(old(self)@.next)
            },
    {
        let id = match CanonicalId::parse(answer.question_uuid.as_str()) {
            Ok(id) => id,
            Err(e) => return Err(DbError::InvalidIdentifier(e.raw)),
        };
        if !self.find_question(id.value) {
            return Err(DbError::ConstraintViolation(answer.question_uuid));
        }
        if self.next == u64::MAX {
            return Err(DbError::StorageFailure("identifier values are used up".to_string()));
        }
        let own = CanonicalId { value: self.next as u128 };
        let d = AnswerDetail {
            answer_uuid: own.to_text(),
            question_uuid: id.to_text(),
            content: answer.content,
            created_at: decimal(self.next),
        };
        let ghost before = self@;
        self.answers.push(d.duplicate());
        self.next = self.next + 1;
        proof {
            let after = self@;
            assert(after == before.with_answer(d));
            assert forall|i: int| 0 <= i < after.questions.len() implies {
                &&& is_canonical(#[trigger] after.questions[i].question_uuid@)
                &&& 0 <= question_key(after.questions[i]) < after.next
            } by {
                assert(after.questions[i] == before.questions[i]);
            }
            assert forall|i: int| 0 <= i < after.answers.len() implies {
                &&& is_canonical(#[trigger] after.answers[i].answer_uuid@)
                &&& is_canonical(after.answers[i].question_uuid@)
                &&& 0 <= answer_key(after.answers[i]) < after.next
                &&& after.has_question(owner_key(after.answers[i]))
            } by {
                if i < before.answers.len() {
                    assert(after.answers[i] == before.answers[i]);
                }
            }
        }
        Ok(d)
    }

    /// The answers to the question named by `question_uuid`. A valid
    /// identifier that names no question has none.
    pub fn answers_for(&self, question_uuid: &str) -> (r: Result<Vec<AnswerDetail>, DbError>)
        requires
            self@.wf(),
        ensures
            !is_canonical(question_uuid@) ==> (r matches Err(DbError::InvalidIdentifier(s)) && s@
                == question_uuid@),
            is_canonical(question_uuid@) ==> r is Ok && r->Ok_0@ == self@.answers_of(
                digits_value(question_uuid@),
            ),
    {
        let id = match CanonicalId::parse(question_uuid) {
            Ok(id) => id,
            Err(e) => return Err(DbError::InvalidIdentifier(e.raw)),
        };
        Ok(self.answers_with_owner(id.value))
    }

    /// Removes the answer named by `answer_uuid`. A valid identifier that
    /// names no answer removes nothing and succeeds.
    pub fn remove_answer(&mut self, answer_uuid: &str) -> (r: Result<(), DbError>)
        requires
            old(self)@.wf(),
        ensures
            final(self)@.wf(),
            !is_canonical(answer_uuid@) ==> {
                &&& r matches Err(DbError::InvalidIdentifier(s)) && s@ == answer_uuid@
                &&& final(self)@ == old(self)@
            },
            is_canonical(answer_uuid@) ==> {
                &&& r is Ok
                &&& final(self)@ == old(self)@.without_answer(digits_value(answer_uuid@))
            },
    {
        let id = match CanonicalId::parse(answer_uuid) {
            Ok(id) => id,
            Err(e) => return Err(DbError::InvalidIdentifier(e.raw)),
        };
        let ghost before = self@;
        let answers = self.answers_without_key(id.value);
        self.answers = answers;
        proof {
            assert(self@ == before.without_answer(id.value as int));
            lemma_without_answer_wf(before, id.value as int);
        }
        Ok(())
    }
}

} // verus!
