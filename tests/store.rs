use qa_store::dao::{AnswersDao, QuestionsDao};
use qa_store::error::{DbError, HandlerError};
use qa_store::handlers;
use qa_store::models::{Answer, AnswerId, Question, QuestionId};
use qa_store::store::MemoryStore;

const ABSENT: &str = "11111111-1111-1111-1111-111111111111";

fn question(title: &str, description: &str) -> Question {
    Question { title: title.to_string(), description: description.to_string() }
}

fn answer(question_uuid: &str, content: &str) -> Answer {
    Answer { question_uuid: question_uuid.to_string(), content: content.to_string() }
}

#[test]
fn create_then_list_questions() {
    let mut store = MemoryStore::new();
    let created = store.create_question(question("T", "D")).unwrap();
    let listed = store.get_questions().unwrap();
    assert_eq!(listed.len(), 1);
    assert_eq!(listed[0].title, "T");
    assert_eq!(listed[0].description, "D");
    assert!(!listed[0].created_at.is_empty());
    assert_eq!(listed[0], created);
}

#[test]
fn identifiers_and_stamps_are_assigned_in_order() {
    let mut store = MemoryStore::new();
    let q = store.create_question(question("T", "D")).unwrap();
    assert_eq!(q.question_uuid, "00000000-0000-0000-0000-000000000001");
    assert_eq!(q.created_at, "1");
    let a = store.create_answer(answer(&q.question_uuid, "A")).unwrap();
    assert_eq!(a.answer_uuid, "00000000-0000-0000-0000-000000000002");
    assert_eq!(a.created_at, "2");
}

#[test]
fn answer_to_missing_question_is_constraint_violation() {
    let mut store = MemoryStore::new();
    let r = store.create_answer(answer(ABSENT, "A1"));
    assert!(matches!(r, Err(DbError::ConstraintViolation(_))));
    assert!(store.get_answers(ABSENT.to_string()).unwrap().is_empty());
    let h = handlers::create_answer(answer(ABSENT, "A1"), &mut store);
    assert!(matches!(h, Err(HandlerError::InternalError(_))));
}

#[test]
fn deleting_absent_question_succeeds_repeatedly() {
    let mut store = MemoryStore::new();
    let q = store.create_question(question("T", "D")).unwrap();
    assert_eq!(store.delete_question(ABSENT.to_string()), Ok(()));
    assert_eq!(store.delete_question(ABSENT.to_string()), Ok(()));
    let listed = store.get_questions().unwrap();
    assert_eq!(listed, vec![q]);
}

#[test]
fn answer_is_listed_under_its_question() {
    let mut store = MemoryStore::new();
    let q = store.create_question(question("T", "D")).unwrap();
    let a = store.create_answer(answer(&q.question_uuid, "A1")).unwrap();
    assert_eq!(a.question_uuid, q.question_uuid);
    let listed = store.get_answers(q.question_uuid.clone()).unwrap();
    assert_eq!(listed.len(), 1);
    assert_eq!(listed[0].content, "A1");
}

#[test]
fn upper_case_reference_finds_question() {
    let mut store = MemoryStore::new();
    let other = store.create_question(question("O", "P")).unwrap();
    let q = store.create_question(question("T", "D")).unwrap();
    store.create_answer(answer(&other.question_uuid, "elsewhere")).unwrap();
    let a = store.create_answer(answer(&q.question_uuid.to_uppercase(), "A1")).unwrap();
    assert_eq!(a.question_uuid, q.question_uuid);
    let listed = store.get_answers(q.question_uuid.to_uppercase()).unwrap();
    assert_eq!(listed, vec![a]);
}

#[test]
fn deleting_question_removes_its_answers() {
    let mut store = MemoryStore::new();
    let q = store.create_question(question("T", "D")).unwrap();
    let keep = store.create_question(question("K", "L")).unwrap();
    store.create_answer(answer(&q.question_uuid, "A1")).unwrap();
    store.create_answer(answer(&q.question_uuid, "A2")).unwrap();
    let kept = store.create_answer(answer(&keep.question_uuid, "B")).unwrap();
    store.delete_question(q.question_uuid.clone()).unwrap();
    assert!(store.get_answers(q.question_uuid.clone()).unwrap().is_empty());
    assert_eq!(store.get_answers(keep.question_uuid.clone()).unwrap(), vec![kept]);
    assert_eq!(store.get_questions().unwrap(), vec![keep]);
}

#[test]
fn listing_answers_of_unknown_question_is_empty() {
    let store = MemoryStore::new();
    assert_eq!(store.get_answers(ABSENT.to_string()), Ok(vec![]));
}

#[test]
fn delete_answer_removes_only_that_answer() {
    let mut store = MemoryStore::new();
    let q = store.create_question(question("T", "D")).unwrap();
    let a1 = store.create_answer(answer(&q.question_uuid, "A1")).unwrap();
    let a2 = store.create_answer(answer(&q.question_uuid, "A2")).unwrap();
    store.delete_answer(a1.answer_uuid.clone()).unwrap();
    assert_eq!(store.delete_answer(a1.answer_uuid.clone()), Ok(()));
    assert_eq!(store.get_answers(q.question_uuid.clone()).unwrap(), vec![a2]);
}

#[test]
fn malformed_identifiers_are_rejected_by_every_operation() {
    let mut store = MemoryStore::new();
    let q = store.create_question(question("T", "D")).unwrap();
    let bad = "not-a-uuid".to_string();
    assert_eq!(
        store.delete_question(bad.clone()),
        Err(DbError::InvalidIdentifier(bad.clone()))
    );
    assert_eq!(store.delete_answer(bad.clone()), Err(DbError::InvalidIdentifier(bad.clone())));
    assert_eq!(store.get_answers(bad.clone()), Err(DbError::InvalidIdentifier(bad.clone())));
    assert_eq!(
        store.create_answer(answer(&bad, "A")),
        Err(DbError::InvalidIdentifier(bad.clone()))
    );
    assert_eq!(store.get_questions().unwrap(), vec![q]);
}

#[test]
fn handlers_reject_empty_payload_fields() {
    let mut store = MemoryStore::new();
    assert!(matches!(
        handlers::create_question(question("", "D"), &mut store),
        Err(HandlerError::BadRequest(_))
    ));
    assert!(matches!(
        handlers::create_question(question("T", ""), &mut store),
        Err(HandlerError::BadRequest(_))
    ));
    assert!(handlers::read_questions(&store).unwrap().is_empty());
    let q = handlers::create_question(question("T", "D"), &mut store).unwrap();
    assert!(matches!(
        handlers::create_answer(answer(&q.question_uuid, ""), &mut store),
        Err(HandlerError::BadRequest(_))
    ));
    let a = handlers::create_answer(answer(&q.question_uuid, "A"), &mut store).unwrap();
    let id = QuestionId { question_uuid: q.question_uuid.clone() };
    assert_eq!(handlers::read_answers(id.clone(), &store).unwrap(), vec![a.clone()]);
    handlers::delete_answer(AnswerId { answer_uuid: a.answer_uuid.clone() }, &mut store).unwrap();
    assert!(handlers::read_answers(id.clone(), &store).unwrap().is_empty());
    handlers::delete_question(id, &mut store).unwrap();
    assert!(handlers::read_questions(&store).unwrap().is_empty());
}

#[test]
fn handlers_map_bad_identifiers_to_bad_request() {
    let mut store = MemoryStore::new();
    let bad = QuestionId { question_uuid: "xyz".to_string() };
    assert_eq!(
        handlers::delete_question(bad.clone(), &mut store),
        Err(HandlerError::BadRequest("xyz".to_string()))
    );
    assert_eq!(
        handlers::read_answers(bad, &store),
        Err(HandlerError::BadRequest("xyz".to_string()))
    );
    assert_eq!(
        handlers::delete_answer(AnswerId { answer_uuid: "".to_string() }, &mut store),
        Err(HandlerError::BadRequest("".to_string()))
    );
    assert_eq!(
        handlers::create_answer(answer("xyz", "A"), &mut store),
        Err(HandlerError::BadRequest("xyz".to_string()))
    );
}

#[test]
fn stamps_are_decimal_numerals() {
    let mut store = MemoryStore::new();
    let mut last = None;
    for _ in 0..12 {
        last = Some(store.create_question(question("T", "D")).unwrap());
    }
    let q = last.unwrap();
    assert_eq!(q.created_at, "12");
    assert_eq!(q.question_uuid, "00000000-0000-0000-0000-00000000000c");
    assert_eq!(store.get_questions().unwrap().len(), 12);
}
