use league_fan_assets::client::fetch_client::{
    is_success, receive, refuse, Attempt, FetchClient, Header, Method, Reception,
    DEFAULT_MAX_RETRIES,
};
use league_fan_assets::error::LfaError;

#[test]
fn success_is_two_hundred_up_to_three_hundred() {
    assert!(!is_success(0));
    assert!(!is_success(199));
    assert!(is_success(200));
    assert!(is_success(204));
    assert!(is_success(299));
    assert!(!is_success(300));
    assert!(!is_success(404));
    assert!(!is_success(65535));
}

#[test]
fn transport_retries_three_times_by_default() {
    assert_eq!(DEFAULT_MAX_RETRIES, 3);
    assert_eq!(FetchClient::default().max_retries, 3);
    assert_eq!(FetchClient::new(7).max_retries, 7);
    assert_eq!(FetchClient::new(0).max_retries, 0);
}

#[test]
fn get_announces_json_and_has_no_body() {
    let request = FetchClient::default().get("https://mirror/x");
    assert_eq!(request.method, Method::Get);
    assert_eq!(request.url, "https://mirror/x");
    assert_eq!(
        request.headers,
        vec![Header { name: "Content-Type".to_string(), value: "application/json".to_string() }]
    );
    assert_eq!(request.body, None);
}

#[test]
fn post_carries_what_it_is_given() {
    let headers = vec![Header { name: "A".to_string(), value: "b".to_string() }];
    let request = FetchClient::new(1).post("https://worker/p", headers.clone(), "{}".to_string());
    assert_eq!(request.method, Method::Post);
    assert_eq!(request.url, "https://worker/p");
    assert_eq!(request.headers, headers);
    assert_eq!(request.body.as_deref(), Some("{}"));
}

#[test]
fn only_passing_failures_are_tried_again() {
    assert!(Attempt::ConnectionFailed.is_transient());
    assert!(Attempt::TimedOut.is_transient());
    assert!(!Attempt::Broken.is_transient());
    for status in [200u16, 404, 408, 429, 500, 503] {
        assert!(!Attempt::Answered(status).is_transient());
    }
}

#[test]
fn reply_is_accepted_refused_or_failed() {
    assert_eq!(receive(Ok(200)), Reception::Accept(200));
    assert_eq!(receive(Ok(299)), Reception::Accept(299));
    assert_eq!(receive(Ok(199)), Reception::Refuse(199));
    assert_eq!(receive(Ok(300)), Reception::Refuse(300));
    assert_eq!(receive(Ok(404)), Reception::Refuse(404));
    assert_eq!(receive(Ok(500)), Reception::Refuse(500));
    assert_eq!(
        receive(Err("timed out".to_string())),
        Reception::Fail(LfaError::RequestMiddleWareError("timed out".to_string()))
    );
}

#[test]
fn refused_response_becomes_the_error_of_its_status() {
    let text = || Ok("body".to_string());
    assert_eq!(refuse(400, text()), LfaError::BadRequest("body".to_string()));
    assert_eq!(refuse(401, text()), LfaError::Unauthorized("body".to_string()));
    assert_eq!(refuse(404, text()), LfaError::FileNotExists("body".to_string()));
    assert_eq!(refuse(409, text()), LfaError::FileExists("body".to_string()));
    assert_eq!(refuse(500, text()), LfaError::InternalServerError("body".to_string()));
    assert_eq!(refuse(418, text()), LfaError::UnexpectedStatusCode(418, "body".to_string()));
    assert_eq!(refuse(404, Err("cut off".to_string())), LfaError::FileNotExists(String::new()));
    assert_eq!(
        refuse(302, Err("cut off".to_string())),
        LfaError::UnexpectedStatusCode(302, String::new())
    );
}
