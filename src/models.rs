//! Request payloads and the read-only projections returned by the stores.

use vstd::prelude::*;

verus! {

/// Payload to create a question.
#[derive(Clone, Debug, PartialEq, Eq)]
pub struct Question {
    pub title: String,
    pub description: String,
}

/// A persisted question.
#[derive(Clone, Debug, PartialEq, Eq)]
pub struct QuestionDetail {
    pub question_uuid: String,
    pub title: String,
    pub description: String,
    pub created_at: String,
}

/// Payload naming a question.
#[derive(Clone, Debug, PartialEq, Eq)]
pub struct QuestionId {
    pub question_uuid: String,
}

/// Payload to create an answer to a question.
#[derive(Clone, Debug, PartialEq, Eq)]
pub struct Answer {
    pub question_uuid: String,
    pub content: String,
}

/// A persisted answer.
#[derive(Clone, Debug, PartialEq, Eq)]
pub struct AnswerDetail {
    pub answer_uuid: String,
    pub question_uuid: String,
    pub content: String,
    pub created_at: String,
}

/// Payload naming an answer.
#[derive(Clone, Debug, PartialEq, Eq)]
pub struct AnswerId {
    pub answer_uuid: String,
}

impl QuestionDetail {
    /// A field-by-field copy.
    pub fn duplicate(&self) -> (r: QuestionDetail)
        ensures
            r == *self,
    {
        QuestionDetail {
            question_uuid: self.question_uuid.clone(),
            title: self.title.clone(),
            description: self.description.clone(),
            created_at: self.created_at.clone(),
        }
    }
}

impl AnswerDetail {
    /// A field-by-field copy.
    pub fn duplicate(&self) -> (r: AnswerDetail)
        ensures
            r == *self,
    {
        AnswerDetail {
            answer_uuid: self.answer_uuid.clone(),
            question_uuid: self.question_uuid.clone(),
            content: self.content.clone(),
            created_at: self.created_at.clone(),
        }
    }
}

} // verus!
