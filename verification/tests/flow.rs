use twitter_auth::error::TwitterError;
use twitter_auth::flow::{
    check_not_denied, handle_account_duplication_check, handle_alternate_identifier,
    handle_email_verification, handle_js_instrumentation_subtask, handle_password_input,
    handle_success_subtask, handle_two_factor_auth, handle_username_input, login_step_with_code,
    next_login_step, two_factor_request, FlowInitRequest, FlowResponse, FlowTaskRequest, LoginStep,
    Subtask, SubtaskType,
};
use twitter_auth::json::Json;

fn text(s: &str) -> Json {
    Json::Text(s.to_string())
}

fn object(fields: Vec<(&str, Json)>) -> Json {
    Json::Object(fields.into_iter().map(|(k, v)| (k.to_string(), v)).collect())
}

fn response(token: &str, ids: &[&str]) -> FlowResponse {
    FlowResponse {
        flow_token: token.to_string(),
        subtasks: Some(ids.iter().map(|id| Subtask { subtask_id: id.to_string() }).collect()),
    }
}

fn entered(id: &str, value: &str) -> Json {
    object(vec![
        ("subtask_id", text(id)),
        ("enter_text", object(vec![("text", text(value)), ("link", text("next_link"))])),
    ])
}

#[test]
fn subtask_type_from_knows_the_nine_identifiers() {
    assert_eq!(SubtaskType::from("LoginJsInstrumentationSubtask"), SubtaskType::LoginJsInstrumentation);
    assert_eq!(SubtaskType::from("LoginEnterUserIdentifierSSO"), SubtaskType::LoginEnterUserIdentifier);
    assert_eq!(SubtaskType::from("LoginEnterPassword"), SubtaskType::LoginEnterPassword);
    assert_eq!(SubtaskType::from("LoginAcid"), SubtaskType::LoginAcid);
    assert_eq!(SubtaskType::from("AccountDuplicationCheck"), SubtaskType::AccountDuplicationCheck);
    assert_eq!(SubtaskType::from("LoginTwoFactorAuthChallenge"), SubtaskType::LoginTwoFactorAuthChallenge);
    assert_eq!(
        SubtaskType::from("LoginEnterAlternateIdentifierSubtask"),
        SubtaskType::LoginEnterAlternateIdentifier
    );
    assert_eq!(SubtaskType::from("LoginSuccessSubtask"), SubtaskType::LoginSuccess);
    assert_eq!(SubtaskType::from("DenyLoginSubtask"), SubtaskType::DenyLogin);
}

#[test]
fn subtask_type_from_keeps_an_unknown_identifier() {
    assert_eq!(SubtaskType::from("LoginFuture"), SubtaskType::Unknown("LoginFuture".to_string()));
    assert_eq!(SubtaskType::from(""), SubtaskType::Unknown(String::new()));
    assert_eq!(
        SubtaskType::from("loginenterpassword"),
        SubtaskType::Unknown("loginenterpassword".to_string())
    );
}

#[test]
fn js_instrumentation_request_is_the_static_stub() {
    let request = handle_js_instrumentation_subtask("t0".to_string());
    assert_eq!(request.flow_token, "t0");
    assert_eq!(
        request.subtask_inputs,
        vec![object(vec![
            ("subtask_id", text("LoginJsInstrumentationSubtask")),
            ("js_instrumentation", object(vec![("response", text("{}")), ("link", text("next_link"))])),
        ])]
    );
}

#[test]
fn username_request_carries_the_user_name() {
    let request = handle_username_input("t1".to_string(), "alice");
    assert_eq!(request.flow_token, "t1");
    assert_eq!(
        request.subtask_inputs,
        vec![object(vec![
            ("subtask_id", text("LoginEnterUserIdentifierSSO")),
            (
                "settings_list",
                object(vec![
                    (
                        "setting_responses",
                        Json::List(vec![object(vec![
                            ("key", text("user_identifier")),
                            (
                                "response_data",
                                object(vec![("text_data", object(vec![("result", text("alice"))]))]),
                            ),
                        ])]),
                    ),
                    ("link", text("next_link")),
                ]),
            ),
        ])]
    );
}

#[test]
fn password_request_carries_the_password() {
    let request = handle_password_input("t2".to_string(), "s3cret");
    assert_eq!(request.flow_token, "t2");
    assert_eq!(
        request.subtask_inputs,
        vec![object(vec![
            ("subtask_id", text("LoginEnterPassword")),
            ("enter_password", object(vec![("password", text("s3cret")), ("link", text("next_link"))])),
        ])]
    );
}

#[test]
fn text_entering_requests_name_their_challenge() {
    assert_eq!(
        handle_email_verification("t".to_string(), "a@b.c").subtask_inputs,
        vec![entered("LoginAcid", "a@b.c")]
    );
    assert_eq!(
        handle_alternate_identifier("t".to_string(), "a@b.c").subtask_inputs,
        vec![entered("LoginEnterAlternateIdentifierSubtask", "a@b.c")]
    );
    assert_eq!(
        two_factor_request("t".to_string(), "123456").subtask_inputs,
        vec![entered("LoginTwoFactorAuthChallenge", "123456")]
    );
}

#[test]
fn account_duplication_request_is_fixed() {
    assert_eq!(
        handle_account_duplication_check("t".to_string()).subtask_inputs,
        vec![object(vec![
            ("subtask_id", text("AccountDuplicationCheck")),
            ("check_logged_in_account", object(vec![("link", text("AccountDuplicationCheck_false"))])),
        ])]
    );
}

#[test]
fn success_request_has_no_inputs() {
    let request = handle_success_subtask("t9".to_string());
    assert_eq!(request.flow_token, "t9");
    assert!(request.subtask_inputs.is_empty());
}

#[test]
fn two_factor_request_enters_a_six_digit_code() {
    let request = handle_two_factor_auth("t".to_string(), "12345678901234567890").unwrap();
    assert_eq!(request.flow_token, "t");
    assert_eq!(request.subtask_inputs.len(), 1);
    let code = request.subtask_inputs[0]
        .get("enter_text")
        .and_then(|entered| entered.get("text"))
        .and_then(|code| code.as_str())
        .unwrap()
        .to_string();
    assert_eq!(code.len(), 6);
    assert!(code.chars().all(|c| c.is_ascii_digit()));
    assert_eq!(request.subtask_inputs[0], entered("LoginTwoFactorAuthChallenge", &code));
}

#[test]
fn two_factor_request_refuses_a_short_secret() {
    match handle_two_factor_auth("t".to_string(), "short") {
        Err(TwitterError::Auth(message)) => {
            assert!(message.starts_with("Failed to create TOTP: "), "{}", message)
        }
        other => panic!("unexpected: {:?}", other),
    }
    match handle_two_factor_auth("t".to_string(), "") {
        Err(TwitterError::Auth(message)) => {
            assert!(message.starts_with("Failed to create TOTP: "), "{}", message)
        }
        other => panic!("unexpected: {:?}", other),
    }
}

#[test]
fn request_bodies_name_token_and_inputs() {
    let body = handle_success_subtask("tok".to_string()).into_body();
    assert_eq!(body, object(vec![("flow_token", text("tok")), ("subtask_inputs", Json::List(vec![]))]));
    let body = handle_password_input("tok".to_string(), "pw").into_body();
    assert_eq!(body.get("flow_token"), Some(&text("tok")));
    assert_eq!(body.get("subtask_inputs").and_then(|inputs| inputs.as_array()).map(|i| i.len()), Some(1));
}

#[test]
fn init_request_opens_the_login_flow() {
    let request = FlowInitRequest::login();
    assert_eq!(request.flow_name, "login");
    let data = object(vec![(
        "flow_context",
        object(vec![
            ("debug_overrides", object(vec![])),
            ("start_location", object(vec![("location", text("unknown"))])),
        ]),
    )]);
    assert_eq!(request.input_flow_data, data);
    let body = FlowInitRequest::login().into_body();
    assert_eq!(body.get("flow_name"), Some(&text("login")));
    assert_eq!(body.get("input_flow_data"), Some(&data));
}

#[test]
fn deny_anywhere_in_the_list_denies_the_login() {
    for ids in [
        vec!["DenyLoginSubtask"],
        vec!["LoginEnterPassword", "DenyLoginSubtask"],
        vec!["LoginEnterPassword", "DenyLoginSubtask", "LoginAcid"],
        vec!["LoginSuccessSubtask", "LoginAcid", "DenyLoginSubtask"],
    ] {
        assert_eq!(
            check_not_denied(&response("t", &ids)),
            Err(TwitterError::Auth("Login denied".to_string()))
        );
    }
}

#[test]
fn responses_without_deny_are_not_denied() {
    assert_eq!(check_not_denied(&response("t", &[])), Ok(()));
    assert_eq!(check_not_denied(&response("t", &["LoginEnterPassword", "LoginAcid"])), Ok(()));
    assert_eq!(check_not_denied(&response("t", &["denyloginsubtask"])), Ok(()));
    assert_eq!(check_not_denied(&FlowResponse { flow_token: "t".to_string(), subtasks: None }), Ok(()));
}

// The scripted flow: the opening call answers with the JavaScript challenge,
// then the user name, then the password, then an empty list. Four calls are
// made in all, each step with the token of the response before it.
#[test]
fn scripted_login_makes_four_calls_and_threads_the_token() {
    let script = vec![
        response("token-1", &["LoginJsInstrumentationSubtask"]),
        response("token-2", &["LoginEnterUserIdentifierSSO"]),
        response("token-3", &["LoginEnterPassword"]),
        response("token-4", &[]),
    ];
    let mut calls = 0;
    let mut sent: Vec<FlowTaskRequest> = Vec::new();
    let mut current = script[calls].clone();
    calls += 1;
    loop {
        match next_login_step(&current, "alice", "pw", None, None).unwrap() {
            LoginStep::Finished => break,
            LoginStep::Submit(request) => {
                assert_eq!(request.flow_token, current.flow_token);
                sent.push(request);
                current = script[calls].clone();
                calls += 1;
            }
        }
    }
    assert_eq!(calls, 4);
    assert_eq!(sent.len(), 3);
    assert_eq!(sent[0], handle_js_instrumentation_subtask("token-1".to_string()));
    assert_eq!(sent[1], handle_username_input("token-2".to_string(), "alice"));
    assert_eq!(sent[2], handle_password_input("token-3".to_string(), "pw"));
}

#[test]
fn only_the_first_challenge_is_answered() {
    let step = next_login_step(&response("t", &["LoginEnterPassword", "LoginAcid"]), "u", "p", None, None);
    assert_eq!(step, Ok(LoginStep::Submit(handle_password_input("t".to_string(), "p"))));
}

#[test]
fn no_list_and_an_empty_list_finish_the_login() {
    let none = FlowResponse { flow_token: "t".to_string(), subtasks: None };
    assert_eq!(next_login_step(&none, "u", "p", None, None), Ok(LoginStep::Finished));
    assert_eq!(next_login_step(&response("t", &[]), "u", "p", None, None), Ok(LoginStep::Finished));
}

#[test]
fn success_challenge_is_acknowledged() {
    assert_eq!(
        next_login_step(&response("t", &["LoginSuccessSubtask"]), "u", "p", None, None),
        Ok(LoginStep::Submit(handle_success_subtask("t".to_string())))
    );
}

#[test]
fn challenges_that_need_an_email_fail_without_one() {
    assert_eq!(
        next_login_step(&response("t", &["LoginAcid"]), "u", "p", None, None),
        Err(TwitterError::Auth("Email required for verification".to_string()))
    );
    assert_eq!(
        next_login_step(&response("t", &["LoginEnterAlternateIdentifierSubtask"]), "u", "p", None, None),
        Err(TwitterError::Auth("Email required for alternate identifier".to_string()))
    );
    assert_eq!(
        next_login_step(&response("t", &["LoginAcid"]), "u", "p", Some("a@b.c"), None),
        Ok(LoginStep::Submit(handle_email_verification("t".to_string(), "a@b.c")))
    );
    assert_eq!(
        next_login_step(&response("t", &["LoginEnterAlternateIdentifierSubtask"]), "u", "p", Some("a@b.c"), None),
        Ok(LoginStep::Submit(handle_alternate_identifier("t".to_string(), "a@b.c")))
    );
}

#[test]
fn two_factor_challenge_fails_without_a_secret() {
    assert_eq!(
        next_login_step(&response("t", &["LoginTwoFactorAuthChallenge"]), "u", "p", None, None),
        Err(TwitterError::Auth("Two factor authentication required".to_string()))
    );
}

#[test]
fn two_factor_challenge_with_a_secret_enters_a_code() {
    let step = next_login_step(
        &response("t", &["LoginTwoFactorAuthChallenge"]),
        "u",
        "p",
        None,
        Some("12345678901234567890"),
    )
    .unwrap();
    match step {
        LoginStep::Submit(request) => {
            assert_eq!(request.flow_token, "t");
            assert_eq!(request.subtask_inputs.len(), 1);
            assert_eq!(
                request.subtask_inputs[0].get("subtask_id"),
                Some(&text("LoginTwoFactorAuthChallenge"))
            );
        }
        LoginStep::Finished => panic!("a request was due"),
    }
    match next_login_step(&response("t", &["LoginTwoFactorAuthChallenge"]), "u", "p", None, Some("short")) {
        Err(TwitterError::Auth(message)) => assert!(message.starts_with("Failed to create TOTP: ")),
        other => panic!("unexpected: {:?}", other),
    }
}

#[test]
fn a_secret_is_not_used_unless_the_two_factor_challenge_is_first() {
    assert_eq!(
        next_login_step(&response("t", &["LoginEnterPassword"]), "u", "p", None, Some("short")),
        Ok(LoginStep::Submit(handle_password_input("t".to_string(), "p")))
    );
}

#[test]
fn step_with_code_enters_the_given_code() {
    assert_eq!(
        login_step_with_code(&response("t", &["LoginTwoFactorAuthChallenge"]), "u", "p", None, Some("287082")),
        Ok(LoginStep::Submit(two_factor_request("t".to_string(), "287082")))
    );
}

#[test]
fn deny_and_unknown_challenges_are_fatal() {
    assert_eq!(
        next_login_step(&response("t", &["DenyLoginSubtask"]), "u", "p", None, None),
        Err(TwitterError::Auth("Login denied".to_string()))
    );
    assert_eq!(
        next_login_step(&response("t", &["LoginNewThing"]), "u", "p", Some("a@b.c"), Some("x")),
        Err(TwitterError::Auth("Unhandled subtask: LoginNewThing".to_string()))
    );
}
