use qa_web_app::domain::answer::{Answer, AnswerId};
use qa_web_app::domain::question::{Question, QuestionDraft, QuestionId};
use qa_web_app::errors::{return_error, Error};
use qa_web_app::infrastructure::moderation::{expects_verdict, moderate, ModerationReply};
use qa_web_app::infrastructure::params::QueryParams;
use qa_web_app::infrastructure::reply::{Body, Reply};
use qa_web_app::infrastructure::response::{
    create_api_layer_error, APIResponse, BadWord, BadWordsResponse,
};
use qa_web_app::infrastructure::router::answer::{add_answer, answer_draft};
use qa_web_app::infrastructure::router::question::{
    add_question, add_question_with_id, check_identity, delete_question, get_questions,
    get_questions_by_bounds, update_question,
};
use qa_web_app::infrastructure::store::Store;

fn params_of(pairs: &[(&str, &str)]) -> QueryParams {
    let mut params = QueryParams::new();
    for (name, value) in pairs {
        params.insert(name.to_string(), value.to_string());
    }
    params
}

fn draft(title: &str, content: &str) -> QuestionDraft {
    QuestionDraft { title: title.to_string(), content: content.to_string(), tags: None }
}

fn clean(content: &str) -> ModerationReply {
    ModerationReply::Checked(BadWordsResponse {
        content: content.to_string(),
        bad_words_total: 0,
        bad_words_list: vec![],
        censored_content: content.to_string(),
    })
}

fn store_with(n: usize) -> Store {
    let mut store = Store::new();
    for i in 0..n {
        let content = format!("content {}", i + 1);
        add_question(&mut store, draft(&format!("title {}", i + 1), &content), clean(&content))
            .unwrap();
    }
    store
}

fn listed(reply: Reply) -> Vec<Question> {
    assert_eq!(reply.status, 200);
    match reply.body {
        Body::Questions(list) => list,
        other => panic!("no list: {:?}", other),
    }
}

fn ids(list: &[Question]) -> Vec<i32> {
    list.iter().map(|q| q.id.0).collect()
}

#[test]
fn listing_an_empty_store_is_an_empty_list_with_status_200() {
    let store = Store::new();
    let reply = get_questions(QueryParams::new(), &store).unwrap();
    assert_eq!(reply.status, 200);
    assert!(matches!(reply.body, Body::Questions(ref list) if list.is_empty()));
    let reply = get_questions_by_bounds(QueryParams::new(), &store).unwrap();
    assert_eq!(reply.status, 200);
    assert!(matches!(reply.body, Body::Questions(ref list) if list.is_empty()));
}

#[test]
fn listing_without_parameters_gives_the_default_page() {
    let store = store_with(12);
    let list = listed(get_questions(QueryParams::new(), &store).unwrap());
    assert_eq!(ids(&list), vec![1, 2, 3, 4, 5, 6, 7, 8, 9, 10]);
}

#[test]
fn listing_with_offset_and_limit() {
    let store = store_with(12);
    let list = listed(get_questions(params_of(&[("offset", "2"), ("limit", "3")]), &store).unwrap());
    assert_eq!(ids(&list), vec![3, 4, 5]);
    let list =
        listed(get_questions(params_of(&[("offset", "12"), ("limit", "12")]), &store).unwrap());
    assert!(list.is_empty());
}

#[test]
fn listing_with_bad_parameters_fails_before_the_store_is_asked() {
    let store = store_with(2);
    let r = get_questions(params_of(&[("offset", "2")]), &store);
    assert!(matches!(r, Err(Error::MissingParameters)));
    let r = get_questions(params_of(&[("offset", "5"), ("limit", "2")]), &store);
    assert!(matches!(r, Err(Error::StartGreaterThanEnd)));
    let r = get_questions(params_of(&[("offset", "x"), ("limit", "2")]), &store);
    assert!(matches!(r, Err(Error::ParseError(_))));
}

#[test]
fn listing_with_a_large_limit_or_offset_is_a_page() {
    let store = store_with(2);
    let list = listed(
        get_questions(params_of(&[("offset", "0"), ("limit", "3000000000")]), &store).unwrap(),
    );
    assert_eq!(ids(&list), vec![1, 2]);
    let list = listed(
        get_questions(params_of(&[("offset", "1"), ("limit", "4294967295")]), &store).unwrap(),
    );
    assert_eq!(ids(&list), vec![2]);
    let list = listed(
        get_questions(params_of(&[("offset", "4294967295"), ("limit", "4294967295")]), &store)
            .unwrap(),
    );
    assert!(list.is_empty());
}

#[test]
fn listing_an_empty_store_is_empty_for_any_limit_and_offset() {
    let store = Store::new();
    for (offset, limit) in [("0", "0"), ("0", "10"), ("5", "10"), ("0", "3000000000"),
        ("3000000000", "4294967295"), ("4294967295", "4294967295")]
    {
        let reply = get_questions(params_of(&[("offset", offset), ("limit", limit)]), &store)
            .unwrap();
        assert_eq!(reply.status, 200);
        assert!(matches!(reply.body, Body::Questions(ref list) if list.is_empty()));
    }
}

#[test]
fn identity_in_the_path_has_to_be_the_identity_of_the_question() {
    let question = Question::new(QuestionId(7), "t".to_string(), "c".to_string(), None);
    assert!(matches!(check_identity(7, &question), Ok(())));
    assert!(matches!(check_identity(5, &question), Err(Error::InvalidId(_))));
    assert!(matches!(check_identity(-7, &question), Err(Error::InvalidId(_))));
}

#[test]
fn answer_draft_is_read_from_the_form() {
    let draft = answer_draft(4, params_of(&[("content", "x"), ("other", "y")])).unwrap();
    assert_eq!(draft.content, "x");
    assert_eq!(draft.question_id, QuestionId(4));
    let draft = answer_draft(-1, params_of(&[("content", "")])).unwrap();
    assert_eq!(draft.content, "");
    assert_eq!(draft.question_id, QuestionId(-1));
    assert!(matches!(answer_draft(4, params_of(&[("text", "x")])), Err(Error::MissingParameters)));
    assert!(matches!(answer_draft(4, QueryParams::new()), Err(Error::MissingParameters)));
}

#[test]
fn replies_have_their_status_and_body() {
    let question = Question::new(QuestionId(7), "t".to_string(), "c".to_string(), None);
    let reply = Reply::questions(vec![question.clone()]);
    assert_eq!(reply.status, 200);
    assert!(matches!(reply.body, Body::Questions(ref list) if list.len() == 1 && list[0].id.0 == 7));
    let reply = Reply::questions(vec![]);
    assert_eq!(reply.status, 200);
    assert!(matches!(reply.body, Body::Questions(ref list) if list.is_empty()));
    let reply = Reply::created_question(question);
    assert_eq!(reply.status, 201);
    assert!(matches!(reply.body, Body::Question(ref q) if q.id.0 == 7 && q.title == "t"));
    let answer = Answer { id: AnswerId(3), content: "x".to_string(), question_id: QuestionId(7) };
    let reply = Reply::created_answer(answer);
    assert_eq!(reply.status, 201);
    assert!(matches!(reply.body, Body::Answer(ref a) if a.id == AnswerId(3) && a.content == "x"));
    let reply = Reply::updated();
    assert_eq!(reply.status, 202);
    assert!(matches!(reply.body, Body::Text(ref text) if text == "Question updated"));
    let reply = Reply::deleted();
    assert_eq!(reply.status, 204);
    assert!(matches!(reply.body, Body::Empty));
}

#[test]
fn listing_by_bounds() {
    let store = store_with(12);
    let list = listed(get_questions_by_bounds(QueryParams::new(), &store).unwrap());
    assert_eq!(list.len(), 12);
    let list = listed(
        get_questions_by_bounds(params_of(&[("start", "1"), ("end", "4")]), &store).unwrap(),
    );
    assert_eq!(ids(&list), vec![2, 3, 4]);
    let list = listed(
        get_questions_by_bounds(params_of(&[("start", "10"), ("end", "400")]), &store).unwrap(),
    );
    assert_eq!(ids(&list), vec![11, 12]);
    let list = listed(
        get_questions_by_bounds(params_of(&[("start", "50"), ("end", "60")]), &store).unwrap(),
    );
    assert!(list.is_empty());
    let r = get_questions_by_bounds(params_of(&[("start", "5"), ("end", "4")]), &store);
    assert!(matches!(r, Err(Error::StartGreaterThanEnd)));
    let r = get_questions_by_bounds(params_of(&[("end", "4")]), &store);
    assert!(matches!(r, Err(Error::MissingParameters)));
}

#[test]
fn the_censored_content_is_what_is_stored() {
    let mut store = Store::new();
    let verdict = BadWordsResponse {
        content: "a bad c".to_string(),
        bad_words_total: 1,
        bad_words_list: vec![BadWord {
            original: "bad".to_string(),
            word: "bad".to_string(),
            deviations: 0,
            info: 2,
            replaced_len: 3,
        }],
        censored_content: "a *** c".to_string(),
    };
    let reply =
        add_question(&mut store, draft("T", "a bad c"), ModerationReply::Checked(verdict)).unwrap();
    assert_eq!(reply.status, 201);
    match reply.body {
        Body::Question(question) => {
            assert_eq!(question.id, QuestionId(1));
            assert_eq!(question.title, "T");
            assert_eq!(question.content, "a *** c");
        }
        other => panic!("no question: {:?}", other),
    }
    let list = listed(get_questions(QueryParams::new(), &store).unwrap());
    assert_eq!(list.len(), 1);
    assert_eq!(list[0].content, "a *** c");
}

#[test]
fn created_question_keeps_title_and_tags() {
    let mut store = Store::new();
    let draft = QuestionDraft {
        title: "T".to_string(),
        content: "C".to_string(),
        tags: Some(vec!["a".to_string()]),
    };
    add_question(&mut store, draft, clean("C")).unwrap();
    let list = listed(get_questions(QueryParams::new(), &store).unwrap());
    assert_eq!(list.len(), 1);
    assert_eq!(list[0].id, QuestionId(1));
    assert_eq!(list[0].title, "T");
    assert_eq!(list[0].content, "C");
    assert_eq!(list[0].tags, Some(vec!["a".to_string()]));
}

#[test]
fn a_refusal_with_a_client_status_is_a_client_error() {
    let mut store = Store::new();
    let reply = ModerationReply::Refused {
        status: 401,
        body: APIResponse { message: "Invalid authentication credentials".to_string() },
    };
    let r = add_question(&mut store, draft("T", "C"), reply);
    match r {
        Err(Error::ClientError(e)) => {
            assert_eq!(e.status, 401);
            assert_eq!(e.message, "Invalid authentication credentials");
        }
        other => panic!("no client error: {:?}", other),
    }
    assert_eq!(store.question_count(), 0);
}

#[test]
fn a_refusal_with_any_other_status_is_a_server_error() {
    for status in [500u16, 503, 302, 100, 599] {
        let mut store = Store::new();
        let reply = ModerationReply::Refused {
            status,
            body: APIResponse { message: "down".to_string() },
        };
        let r = add_question(&mut store, draft("T", "C"), reply);
        match r {
            Err(Error::ServerError(e)) => {
                assert_eq!(e.status, status);
                assert_eq!(e.message, "down");
            }
            other => panic!("no server error: {:?}", other),
        }
        assert_eq!(store.question_count(), 0);
    }
}

#[test]
fn no_answer_from_moderation_is_an_external_error() {
    let mut store = Store::new();
    let r = add_question(
        &mut store,
        draft("T", "C"),
        ModerationReply::Unreachable("connection refused".to_string()),
    );
    assert!(matches!(r, Err(Error::ExternalAPIError(ref m)) if m == "connection refused"));
    let r = add_question(
        &mut store,
        draft("T", "C"),
        ModerationReply::Unreadable("expected value at line 1".to_string()),
    );
    assert!(matches!(r, Err(Error::ExternalAPIError(ref m)) if m == "expected value at line 1"));
    assert_eq!(store.question_count(), 0);
    let reply = return_error(r.as_ref().err());
    assert_eq!(reply.status, 502);
    assert_eq!(reply.message, "External API error");
}

#[test]
fn moderate_replaces_only_the_content() {
    let draft = QuestionDraft {
        title: "T".to_string(),
        content: "x".to_string(),
        tags: Some(vec!["a".to_string(), "b".to_string()]),
    };
    let moderated = moderate(draft, clean("y")).unwrap();
    assert_eq!(moderated.title, "T");
    assert_eq!(moderated.content, "y");
    assert_eq!(moderated.tags, Some(vec!["a".to_string(), "b".to_string()]));
}

#[test]
fn verdict_is_expected_with_a_success_status_only() {
    assert!(expects_verdict(200));
    assert!(expects_verdict(299));
    assert!(!expects_verdict(199));
    assert!(!expects_verdict(300));
    assert!(!expects_verdict(404));
    assert!(!expects_verdict(500));
}

#[test]
fn api_layer_error_holds_status_and_message() {
    let e = create_api_layer_error(429, APIResponse { message: "slow down".to_string() });
    assert_eq!(e.status, 429);
    assert_eq!(e.message, "slow down");
}

#[test]
fn update_with_another_identity_in_the_path_is_invalid() {
    let mut store = store_with(7);
    let question = Question::new(QuestionId(7), "new".to_string(), "new".to_string(), None);
    let r = update_question(5, &mut store, question);
    assert!(matches!(r, Err(Error::InvalidId(_))));
    let list = listed(get_questions(QueryParams::new(), &store).unwrap());
    assert_eq!(list[4].title, "title 5");
    assert_eq!(list[6].title, "title 7");
    let reply = return_error(r.as_ref().err());
    assert_eq!(reply.status, 422);
}

#[test]
fn update_with_another_identity_is_invalid_even_where_neither_is_stored() {
    let mut store = Store::new();
    let question = Question::new(QuestionId(7), "new".to_string(), "new".to_string(), None);
    let r = update_question(5, &mut store, question);
    assert!(matches!(r, Err(Error::InvalidId(_))));
}

#[test]
fn update_is_accepted() {
    let mut store = store_with(2);
    let question = Question::new(QuestionId(2), "new".to_string(), "text".to_string(), None);
    let reply = update_question(2, &mut store, question).unwrap();
    assert_eq!(reply.status, 202);
    assert!(matches!(reply.body, Body::Text(ref text) if text == "Question updated"));
    let list = listed(get_questions(QueryParams::new(), &store).unwrap());
    assert_eq!(list[1].title, "new");
    assert_eq!(list[1].content, "text");
}

#[test]
fn updating_a_missing_question_through_the_handler_is_not_found() {
    let mut store = store_with(2);
    let question = Question::new(QuestionId(3), "new".to_string(), "text".to_string(), None);
    let r = update_question(3, &mut store, question);
    assert!(matches!(r, Err(Error::QuestionNotFound)));
}

#[test]
fn delete_answers_with_no_content() {
    let mut store = store_with(2);
    let reply = delete_question(1, &mut store).unwrap();
    assert_eq!(reply.status, 204);
    assert!(matches!(reply.body, Body::Empty));
    assert_eq!(ids(&listed(get_questions(QueryParams::new(), &store).unwrap())), vec![2]);
}

#[test]
fn delete_of_a_missing_question_is_not_found_every_time() {
    let mut store = store_with(2);
    for _ in 0..2 {
        let r = delete_question(3, &mut store);
        assert!(matches!(r, Err(Error::QuestionNotFound)));
        let reply = return_error(r.as_ref().err());
        assert_eq!(reply.status, 404);
        assert_eq!(reply.message, "Question not found");
    }
}

#[test]
fn answer_is_created() {
    let mut store = store_with(2);
    let reply = add_answer(2, &mut store, params_of(&[("content", "x")])).unwrap();
    assert_eq!(reply.status, 201);
    match reply.body {
        Body::Answer(answer) => {
            assert_eq!(answer.id.0, 1);
            assert_eq!(answer.content, "x");
            assert_eq!(answer.question_id, QuestionId(2));
        }
        other => panic!("no answer: {:?}", other),
    }
}

#[test]
fn answer_to_a_missing_question_is_not_found() {
    let mut store = store_with(2);
    let r = add_answer(3, &mut store, params_of(&[("content", "x")]));
    assert!(matches!(r, Err(Error::QuestionNotFound)));
    let reply = add_answer(1, &mut store, params_of(&[("content", "x")])).unwrap();
    assert!(matches!(reply.body, Body::Answer(ref answer) if answer.id.0 == 1));
}

#[test]
fn answer_without_content_is_missing_parameters() {
    let mut store = store_with(1);
    let r = add_answer(1, &mut store, params_of(&[("text", "x")]));
    assert!(matches!(r, Err(Error::MissingParameters)));
    let r = add_answer(9, &mut store, QueryParams::new());
    assert!(matches!(r, Err(Error::MissingParameters)));
}

#[test]
fn question_with_its_own_identity() {
    let mut store = Store::new();
    let question = Question::new(QuestionId(5), "t".to_string(), "c".to_string(), None);
    let reply = add_question_with_id(&mut store, question.clone()).unwrap();
    assert_eq!(reply.status, 201);
    assert!(matches!(reply.body, Body::Question(ref stored) if stored.id == QuestionId(5)
        && stored.title == "t" && stored.content == "c" && stored.tags.is_none()));
    let r = add_question_with_id(&mut store, question);
    assert!(matches!(r, Err(Error::QuestionAlreadyExists)));
    let reply = return_error(r.as_ref().err());
    assert_eq!(reply.status, 409);
}
