use league_fan_assets::client::client_trait::{Action, AssetsTask, ClientTrait, Event, State};
use league_fan_assets::client::fetch_client::{Header, Method, Request};
use league_fan_assets::client::r2_client::{
    after_refusal, after_reply, begin_attempt, frame_upload_request, json_text, MissingVariable,
    R2Client, UploadRequest, TOKEN_VARIABLE, WORKER_URL_VARIABLE,
};
use league_fan_assets::error::LfaError;

const PRIMARY: &str = "https://mirror/x/default/assets/a.png";
const FALLBACK: &str = "https://mirror/x/default-fallback/assets/a.png";

fn backend() -> R2Client {
    R2Client::new("https://worker.example".to_string(), "s3cr3t".to_string())
}

fn task(fallback: Option<&str>) -> AssetsTask {
    AssetsTask::new(PRIMARY.to_string(), fallback.map(str::to_string), "/assets/a.png".to_string())
}

fn headers() -> Vec<Header> {
    vec![
        Header { name: "Content-Type".to_string(), value: "application/json".to_string() },
        Header { name: "Authorization".to_string(), value: "Bearer s3cr3t".to_string() },
    ]
}

fn upload_of(url: &str) -> Request {
    Request {
        method: Method::Post,
        url: "https://worker.example/fetchSave".to_string(),
        headers: headers(),
        body: Some(format!(
            "{{\"downloadUrl\":\"{}\",\"imgId\":\"assets/a.png\",\"force\":false}}",
            url
        )),
    }
}

/// Carries a task out against a proxy that answers as scripted: for each
/// request in turn a status and a text. Gives the outcome and the addresses
/// that the proxy was asked to fetch.
fn run(task: &AssetsTask, script: &[(u16, &str)]) -> (Result<(), LfaError>, Vec<Request>) {
    let backend = backend();
    let mut sent = Vec::new();
    let mut state = State::Start;
    let mut event = Event::Begin;
    let mut text = String::new();
    for _ in 0..32 {
        let (next, action) = backend.do_task(task, state, event);
        state = next;
        event = match action {
            Action::Send(request) => {
                let (status, body) = script[sent.len()];
                sent.push(request);
                text = body.to_string();
                Event::Replied(Ok(status))
            }
            Action::ReadText => Event::Text(Ok(text.clone())),
            Action::Finish(outcome) => {
                assert!(state.is_terminal());
                assert_eq!(state == State::Success, outcome.is_ok());
                return (outcome, sent);
            }
            other => panic!("the upload backend asked for {:?}", other),
        };
    }
    panic!("the task did not end");
}

#[test]
fn upload_request_names_key_and_source() {
    let request = backend().upload_file(PRIMARY, "assets/a.png").unwrap();
    assert_eq!(request, upload_of(PRIMARY));
    assert_eq!(
        request.body.as_deref(),
        Some("{\"downloadUrl\":\"https://mirror/x/default/assets/a.png\",\"imgId\":\"assets/a.png\",\"force\":false}")
    );
}

#[test]
fn upload_request_body_is_what_serde_json_reads_back() {
    let request = backend().upload_file("https://m/a \"b\"\\c\n.png", "clé/ü\t.png").unwrap();
    let body = request.body.unwrap();
    assert_eq!(
        body,
        "{\"downloadUrl\":\"https://m/a \\\"b\\\"\\\\c\\n.png\",\"imgId\":\"clé/ü\\t.png\",\"force\":false}"
    );
    let value: serde_json::Value = serde_json::from_str(&body).unwrap();
    assert_eq!(value["downloadUrl"].as_str(), Some("https://m/a \"b\"\\c\n.png"));
    assert_eq!(value["imgId"].as_str(), Some("clé/ü\t.png"));
    assert_eq!(value["force"].as_bool(), Some(false));
    assert_eq!(value.as_object().map(|o| o.len()), Some(3));
}

#[test]
fn delete_request_has_no_source() {
    let request = backend().delete_file("test_not_exist.png").unwrap();
    assert_eq!(request.method, Method::Post);
    assert_eq!(request.url, "https://worker.example/delete");
    assert_eq!(request.headers, headers());
    assert_eq!(
        request.body.as_deref(),
        Some("{\"downloadUrl\":null,\"imgId\":\"test_not_exist.png\",\"force\":false}")
    );
}

#[test]
fn upload_request_to_json_keeps_force() {
    let request = UploadRequest {
        download_url: Some("u".to_string()),
        img_id: "k".to_string(),
        force: true,
    };
    assert_eq!(
        request.to_json(),
        Ok("{\"downloadUrl\":\"u\",\"imgId\":\"k\",\"force\":true}".to_string())
    );
    assert_eq!(
        UploadRequest::default().to_json(),
        Ok("{\"downloadUrl\":null,\"imgId\":\"\",\"force\":false}".to_string())
    );
}

#[test]
fn frame_writes_members_in_order() {
    assert_eq!(
        frame_upload_request(&Some("<url>".to_string()), "<id>", false),
        "{\"downloadUrl\":<url>,\"imgId\":<id>,\"force\":false}"
    );
    assert_eq!(
        frame_upload_request(&None, "", true),
        "{\"downloadUrl\":null,\"imgId\":,\"force\":true}"
    );
}

#[test]
fn backend_needs_both_variables() {
    assert_eq!(WORKER_URL_VARIABLE, "R2_WORKER_URL");
    assert_eq!(TOKEN_VARIABLE, "R2_TOKEN");
    let made = R2Client::try_from_env(Some("w".to_string()), Some("t".to_string())).unwrap();
    assert_eq!(made.worker_url, "w");
    assert_eq!(made.token, "t");
    assert_eq!(made.client.max_retries, 3);
    assert_eq!(
        R2Client::try_from_env(None, Some("t".to_string())).unwrap_err(),
        MissingVariable::WorkerUrl
    );
    assert_eq!(
        R2Client::try_from_env(Some("w".to_string()), None).unwrap_err(),
        MissingVariable::Token
    );
    assert_eq!(R2Client::try_from_env(None, None).unwrap_err(), MissingVariable::WorkerUrl);
}

#[test]
fn upload_done_is_success_after_one_request() {
    let (outcome, sent) = run(&task(Some(FALLBACK)), &[(200, "ok")]);
    assert_eq!(outcome, Ok(()));
    assert_eq!(sent, vec![upload_of(PRIMARY)]);
}

#[test]
fn upload_conflict_is_success() {
    let (outcome, sent) = run(&task(Some(FALLBACK)), &[(409, "exists")]);
    assert_eq!(outcome, Ok(()));
    assert_eq!(sent, vec![upload_of(PRIMARY)]);
}

#[test]
fn upload_conflict_on_fallback_is_success() {
    let (outcome, sent) = run(&task(Some(FALLBACK)), &[(404, "gone"), (409, "exists")]);
    assert_eq!(outcome, Ok(()));
    assert_eq!(sent, vec![upload_of(PRIMARY), upload_of(FALLBACK)]);
}

#[test]
fn upload_not_found_falls_back_once() {
    let (outcome, sent) = run(&task(Some(FALLBACK)), &[(404, "gone"), (200, "ok")]);
    assert_eq!(outcome, Ok(()));
    assert_eq!(sent, vec![upload_of(PRIMARY), upload_of(FALLBACK)]);
}

#[test]
fn upload_not_found_without_fallback_is_not_found() {
    let (outcome, sent) = run(&task(None), &[(404, "gone")]);
    assert_eq!(outcome, Err(LfaError::FileNotExists("gone".to_string())));
    assert_eq!(sent, vec![upload_of(PRIMARY)]);
}

#[test]
fn upload_fallback_failure_surfaces() {
    let (outcome, sent) = run(&task(Some(FALLBACK)), &[(404, "first"), (404, "second")]);
    assert_eq!(outcome, Err(LfaError::FileNotExists("second".to_string())));
    assert_eq!(sent.len(), 2);
    let (outcome, sent) = run(&task(Some(FALLBACK)), &[(404, "first"), (500, "boom")]);
    assert_eq!(outcome, Err(LfaError::InternalServerError("boom".to_string())));
    assert_eq!(sent.len(), 2);
}

#[test]
fn upload_server_error_does_not_fall_back() {
    for (status, expected) in [
        (500u16, LfaError::InternalServerError("e".to_string())),
        (400, LfaError::BadRequest("e".to_string())),
        (401, LfaError::Unauthorized("e".to_string())),
        (418, LfaError::UnexpectedStatusCode(418, "e".to_string())),
    ] {
        let (outcome, sent) = run(&task(Some(FALLBACK)), &[(status, "e")]);
        assert_eq!(outcome, Err(expected));
        assert_eq!(sent, vec![upload_of(PRIMARY)]);
    }
}

#[test]
fn upload_accepted_but_not_done_is_upload_failed() {
    let (outcome, sent) = run(&task(Some(FALLBACK)), &[(202, "queued")]);
    assert_eq!(outcome, Err(LfaError::UploadFailed(202, "queued".to_string())));
    assert_eq!(sent.len(), 1);
    let (outcome, _) = run(&task(Some(FALLBACK)), &[(404, "gone"), (204, "")]);
    assert_eq!(outcome, Err(LfaError::UploadFailed(204, String::new())));
}

#[test]
fn upload_failed_read_of_the_text_ends_the_task() {
    let (state, action) = backend().do_task(
        &task(None),
        State::ReadingText(201),
        Event::Text(Err("cut off".to_string())),
    );
    assert_eq!(
        (state, action),
        (State::Failed, Action::Finish(Err(LfaError::RequestError("cut off".to_string()))))
    );
}

#[test]
fn upload_ignores_events_out_of_turn() {
    let backend = backend();
    let task = task(Some(FALLBACK));
    let cases = vec![
        (State::Start, Event::Replied(Ok(200))),
        (State::PrimaryAttempt, Event::Begin),
        (State::PrimaryAttempt, Event::Text(Ok("t".to_string()))),
        (State::FallbackAttempt, Event::Bytes(Ok(vec![1]))),
        (State::ReadingText(201), Event::Replied(Ok(200))),
        (State::ReadingBytes, Event::Bytes(Ok(vec![1]))),
        (State::Probing(vec![1]), Event::Probed(true)),
        (State::Storing, Event::Stored(Ok(()))),
        (State::Success, Event::Begin),
        (State::PrimaryRefused(404), Event::Replied(Ok(200))),
        (State::FallbackRefused(409), Event::Begin),
        (State::Failed, Event::Replied(Err(String::new()))),
    ];
    for (state, event) in cases {
        let (next, action) = backend.do_task(&task, state.clone(), event);
        assert_eq!(next, state);
        assert_eq!(action, Action::Idle);
    }
}

#[test]
fn attempt_begins_with_the_request_or_ends_with_its_error() {
    let request = upload_of(PRIMARY);
    assert_eq!(
        begin_attempt(Ok(request.clone()), State::FallbackAttempt),
        (State::FallbackAttempt, Action::Send(request))
    );
    let failure = LfaError::SerializationError("bad".to_string());
    assert_eq!(
        begin_attempt(Err(failure.clone()), State::PrimaryAttempt),
        (State::Failed, Action::Finish(Err(failure)))
    );
}

#[test]
fn reply_decides_between_done_text_and_error() {
    for fallback in [false, true] {
        assert_eq!(after_reply(Ok(200), fallback), (State::Success, Action::Finish(Ok(()))));
        assert_eq!(after_reply(Ok(201), fallback), (State::ReadingText(201), Action::ReadText));
        assert_eq!(
            after_reply(Err("down".to_string()), fallback),
            (
                State::Failed,
                Action::Finish(Err(LfaError::RequestMiddleWareError("down".to_string())))
            )
        );
    }
    assert_eq!(after_reply(Ok(409), false), (State::PrimaryRefused(409), Action::ReadText));
    assert_eq!(after_reply(Ok(404), true), (State::FallbackRefused(404), Action::ReadText));
    assert_eq!(after_reply(Ok(199), false), (State::PrimaryRefused(199), Action::ReadText));
    assert_eq!(after_reply(Ok(300), true), (State::FallbackRefused(300), Action::ReadText));
}

#[test]
fn refusal_ends_in_success_only_for_a_conflict() {
    assert_eq!(
        after_refusal(LfaError::FileExists("x".to_string())),
        (State::Success, Action::Finish(Ok(())))
    );
    let gone = LfaError::FileNotExists("x".to_string());
    assert_eq!(after_refusal(gone.clone()), (State::Failed, Action::Finish(Err(gone))));
}

#[test]
fn upload_transport_failure_ends_the_task() {
    for attempt in [State::PrimaryAttempt, State::FallbackAttempt] {
        let (state, action) =
            backend().do_task(&task(Some(FALLBACK)), attempt, Event::Replied(Err("down".to_string())));
        assert_eq!(
            (state, action),
            (
                State::Failed,
                Action::Finish(Err(LfaError::RequestMiddleWareError("down".to_string())))
            )
        );
    }
}

#[test]
fn json_text_begins_with_a_quotation_mark() {
    assert_eq!(json_text(""), Ok("\"\"".to_string()));
    assert_eq!(json_text("a"), Ok("\"a\"".to_string()));
    assert_eq!(json_text("\""), Ok("\"\\\"\"".to_string()));
    assert_eq!(json_text("\u{1}\u{8}\u{c}/é"), Ok("\"\\u0001\\b\\f/é\"".to_string()));
    for value in ["", "x", "\"", "\\", "a\nb", "null"] {
        let text = json_text(value).unwrap();
        assert!(text.len() >= 2 && text.starts_with('"') && text.ends_with('"'));
    }
}
