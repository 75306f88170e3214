//! The login flow: the challenges that the provider may pose, the request
//! that answers each, and the decision what to do after a response.

use crate::error::TwitterError;
use crate::json::{item_views, object1, object2, Json, JsonView};
use crate::text::{optional_text, same_text};
use crate::totp::{
    code_at, current_totp, is_clock_failure, is_creation_failure, is_digits, usable_secret,
};
use vstd::prelude::*;
use vstd::utf8::encode_utf8;

verus! {

/// One pending challenge of a flow response.
#[derive(Debug, Clone, PartialEq, Eq)]
pub struct Subtask {
    pub subtask_id: String,
}

/// What the provider answers to a step of the flow: the token to send with
/// the next step, and the challenges that are pending.
#[derive(Debug, Clone, PartialEq, Eq)]
pub struct FlowResponse {
    pub flow_token: String,
    pub subtasks: Option<Vec<Subtask>>,
}

/// The request that opens a flow.
#[derive(Debug, PartialEq, Eq)]
pub struct FlowInitRequest {
    pub flow_name: String,
    pub input_flow_data: Json,
}

/// The request of one step of a flow.
#[derive(Debug, PartialEq, Eq)]
pub struct FlowTaskRequest {
    pub flow_token: String,
    pub subtask_inputs: Vec<Json>,
}

/// The challenges that the login flow knows, and one for every other
/// identifier, which it keeps.
#[derive(Debug, Clone, PartialEq, Eq)]
pub enum SubtaskType {
    LoginJsInstrumentation,
    LoginEnterUserIdentifier,
    LoginEnterPassword,
    LoginAcid,
    AccountDuplicationCheck,
    LoginTwoFactorAuthChallenge,
    LoginEnterAlternateIdentifier,
    LoginSuccess,
    DenyLogin,
    Unknown(String),
}

/// What to do after a flow response.
#[derive(Debug, PartialEq, Eq)]
pub enum LoginStep {
    /// Send this request and look at its response.
    Submit(FlowTaskRequest),
    /// No challenge is pending: the login is complete.
    Finished,
}

impl SubtaskType {
    /// The challenge stands for the identifier `id`.
    pub open spec fn names(&self, id: Seq<char>) -> bool {
        match self {
            SubtaskType::LoginJsInstrumentation => id == "LoginJsInstrumentationSubtask"@,
            SubtaskType::LoginEnterUserIdentifier => id == "LoginEnterUserIdentifierSSO"@,
            SubtaskType::LoginEnterPassword => id == "LoginEnterPassword"@,
            SubtaskType::LoginAcid => id == "LoginAcid"@,
            SubtaskType::AccountDuplicationCheck => id == "AccountDuplicationCheck"@,
            SubtaskType::LoginTwoFactorAuthChallenge => id == "LoginTwoFactorAuthChallenge"@,
            SubtaskType::LoginEnterAlternateIdentifier => id
                == "LoginEnterAlternateIdentifierSubtask"@,
            SubtaskType::LoginSuccess => id == "LoginSuccessSubtask"@,
            SubtaskType::DenyLogin => id == "DenyLoginSubtask"@,
            SubtaskType::Unknown(other) => other@ == id && !is_known_id(id),
        }
    }

    /// The challenge that an identifier stands for; an identifier that is
    /// not known is kept as it is.
    pub fn from(id: &str) -> (kind: SubtaskType)
        ensures
            kind.names(id@),
    {
        if same_text(id, "LoginJsInstrumentationSubtask") {
            SubtaskType::LoginJsInstrumentation
        } else if same_text(id, "LoginEnterUserIdentifierSSO") {
            SubtaskType::LoginEnterUserIdentifier
        } else if same_text(id, "LoginEnterPassword") {
            SubtaskType::LoginEnterPassword
        } else if same_text(id, "LoginAcid") {
            SubtaskType::LoginAcid
        } else if same_text(id, "AccountDuplicationCheck") {
            SubtaskType::AccountDuplicationCheck
        } else if same_text(id, "LoginTwoFactorAuthChallenge") {
            SubtaskType::LoginTwoFactorAuthChallenge
        } else if same_text(id, "LoginEnterAlternateIdentifierSubtask") {
            SubtaskType::LoginEnterAlternateIdentifier
        } else if same_text(id, "LoginSuccessSubtask") {
            SubtaskType::LoginSuccess
        } else if same_text(id, "DenyLoginSubtask") {
            SubtaskType::DenyLogin
        } else {
            SubtaskType::Unknown(id.to_owned())
        }
    }
}

/// The identifier is one of the nine that the login flow knows.
pub open spec fn is_known_id(id: Seq<char>) -> bool {
    id == "LoginJsInstrumentationSubtask"@ || id == "LoginEnterUserIdentifierSSO"@ || id
        == "LoginEnterPassword"@ || id == "LoginAcid"@ || id == "AccountDuplicationCheck"@ || id
        == "LoginTwoFactorAuthChallenge"@ || id == "LoginEnterAlternateIdentifierSubtask"@ || id
        == "LoginSuccessSubtask"@ || id == "DenyLoginSubtask"@
}

/// A string value.
pub open spec fn text(s: Seq<char>) -> JsonView {
    JsonView::Text(s)
}

/// The input that names a challenge and answers it with one object.
pub open spec fn answer(id: Seq<char>, key: Seq<char>, payload: JsonView) -> JsonView {
    object2("subtask_id"@, text(id), key, payload)
}

/// A text to enter, with the link to follow.
pub open spec fn entered_text(entered: Seq<char>) -> JsonView {
    object2("text"@, text(entered), "link"@, text("next_link"@))
}

/// The answer to the JavaScript instrumentation challenge: an empty
/// response in place of a fingerprint.
pub open spec fn js_instrumentation_input() -> JsonView {
    answer(
        "LoginJsInstrumentationSubtask"@,
        "js_instrumentation"@,
        object2("response"@, text("{}"@), "link"@, text("next_link"@)),
    )
}

/// The answer that enters the user name.
pub open spec fn username_input(username: Seq<char>) -> JsonView {
    answer(
        "LoginEnterUserIdentifierSSO"@,
        "settings_list"@,
        object2(
            "setting_responses"@,
            JsonView::List(
                seq![
                    object2(
                        "key"@,
                        text("user_identifier"@),
                        "response_data"@,
                        object1("text_data"@, object1("result"@, text(username))),
                    ),
                ],
            ),
            "link"@,
            text("next_link"@),
        ),
    )
}

/// The answer that enters the password.
pub open spec fn password_input(password: Seq<char>) -> JsonView {
    answer(
        "LoginEnterPassword"@,
        "enter_password"@,
        object2("password"@, text(password), "link"@, text("next_link"@)),
    )
}

/// The answer that confirms the account by its e-mail address.
pub open spec fn email_verification_input(email: Seq<char>) -> JsonView {
    answer("LoginAcid"@, "enter_text"@, entered_text(email))
}

/// The answer to the check for a duplicate account.
pub open spec fn account_duplication_input() -> JsonView {
    answer(
        "AccountDuplicationCheck"@,
        "check_logged_in_account"@,
        object1("link"@, text("AccountDuplicationCheck_false"@)),
    )
}

/// The answer that enters a one-time code.
pub open spec fn two_factor_input(code: Seq<char>) -> JsonView {
    answer("LoginTwoFactorAuthChallenge"@, "enter_text"@, entered_text(code))
}

/// The answer that enters the e-mail address as another identifier.
pub open spec fn alternate_identifier_input(email: Seq<char>) -> JsonView {
    answer("LoginEnterAlternateIdentifierSubtask"@, "enter_text"@, entered_text(email))
}

/// The data that opens the login flow: no debug overrides, and a start
/// location that is not known.
pub open spec fn login_flow_data() -> JsonView {
    object1(
        "flow_context"@,
        object2(
            "debug_overrides"@,
            JsonView::Object(Seq::empty()),
            "start_location"@,
            object1("location"@, text("unknown"@)),
        ),
    )
}

impl FlowTaskRequest {
    /// The request carries the token `flow_token` and the inputs `inputs`.
    pub open spec fn holds(&self, flow_token: Seq<char>, inputs: Seq<JsonView>) -> bool {
        self.flow_token@ == flow_token && item_views(self.subtask_inputs@) == inputs
    }

    /// The body of the request: an object with the token under `flow_token`
    /// and the inputs under `subtask_inputs`.
    pub fn into_body(self) -> (body: Json)
        ensures
            body@ == object2(
                "flow_token"@,
                text(self.flow_token@),
                "subtask_inputs"@,
                JsonView::List(item_views(self.subtask_inputs@)),
            ),
    {
        Json::object2(
            "flow_token",
            Json::Text(self.flow_token),
            "subtask_inputs",
            Json::List(self.subtask_inputs),
        )
    }
}

impl FlowInitRequest {
    /// The request that opens the login flow.
    pub fn login() -> (request: FlowInitRequest)
        ensures
            request.flow_name@ == "login"@,
            request.input_flow_data@ == login_flow_data(),
    {
        let no_fields: Vec<(String, Json)> = Vec::new();
        let overrides = Json::Object(no_fields);
        assert(overrides@ == JsonView::Object(Seq::empty())) by {
            assert(crate::json::field_views(no_fields@) =~= Seq::empty());
        }
        FlowInitRequest {
            flow_name: "login".to_owned(),
            input_flow_data: Json::object1(
                "flow_context",
                Json::object2(
                    "debug_overrides",
                    overrides,
                    "start_location",
                    Json::object1("location", Json::text("unknown")),
                ),
            ),
        }
    }

    /// The body of the request: an object with the flow's name under
    /// `flow_name` and its data under `input_flow_data`.
    pub fn into_body(self) -> (body: Json)
        ensures
            body@ == object2(
                "flow_name"@,
                text(self.flow_name@),
                "input_flow_data"@,
                self.input_flow_data@,
            ),
    {
        Json::object2(
            "flow_name",
            Json::Text(self.flow_name),
            "input_flow_data",
            self.input_flow_data,
        )
    }
}

fn one_input(flow_token: String, input: Json) -> (request: FlowTaskRequest)
    ensures
        request.holds(flow_token@, seq![input@]),
{
    let subtask_inputs: Vec<Json> = vec![input];
    assert(item_views(subtask_inputs@) =~= seq![input@]);
    FlowTaskRequest { flow_token, subtask_inputs }
}

fn entered(text: &str) -> (input: Json)
    ensures
        input@ == entered_text(text@),
{
    Json::object2("text", Json::text(text), "link", Json::text("next_link"))
}

fn answer_with(id: &str, key: &str, payload: Json) -> (input: Json)
    ensures
        input@ == answer(id@, key@, payload@),
{
    Json::object2("subtask_id", Json::text(id), key, payload)
}

/// The request that answers the JavaScript instrumentation challenge.
pub fn handle_js_instrumentation_subtask(flow_token: String) -> (request: FlowTaskRequest)
    ensures
        request.holds(flow_token@, seq![js_instrumentation_input()]),
{
    one_input(
        flow_token,
        answer_with(
            "LoginJsInstrumentationSubtask",
            "js_instrumentation",
            Json::object2("response", Json::text("{}"), "link", Json::text("next_link")),
        ),
    )
}

/// The request that enters the user name.
pub fn handle_username_input(flow_token: String, username: &str) -> (request: FlowTaskRequest)
    ensures
        request.holds(flow_token@, seq![username_input(username@)]),
{
    let response = Json::object2(
        "key",
        Json::text("user_identifier"),
        "response_data",
        Json::object1("text_data", Json::object1("result", Json::text(username))),
    );
    let responses: Vec<Json> = vec![response];
    assert(item_views(responses@) =~= seq![response@]);
    one_input(
        flow_token,
        answer_with(
            "LoginEnterUserIdentifierSSO",
            "settings_list",
            Json::object2(
                "setting_responses",
                Json::List(responses),
                "link",
                Json::text("next_link"),
            ),
        ),
    )
}

/// The request that enters the password.
pub fn handle_password_input(flow_token: String, password: &str) -> (request: FlowTaskRequest)
    ensures
        request.holds(flow_token@, seq![password_input(password@)]),
{
    one_input(
        flow_token,
        answer_with(
            "LoginEnterPassword",
            "enter_password",
            Json::object2("password", Json::text(password), "link", Json::text("next_link")),
        ),
    )
}

/// The request that confirms the account by its e-mail address.
pub fn handle_email_verification(flow_token: String, email: &str) -> (request: FlowTaskRequest)
    ensures
        request.holds(flow_token@, seq![email_verification_input(email@)]),
{
    one_input(flow_token, answer_with("LoginAcid", "enter_text", entered(email)))
}

/// The request that answers the check for a duplicate account.
pub fn handle_account_duplication_check(flow_token: String) -> (request: FlowTaskRequest)
    ensures
        request.holds(flow_token@, seq![account_duplication_input()]),
{
    one_input(
        flow_token,
        answer_with(
            "AccountDuplicationCheck",
            "check_logged_in_account",
            Json::object1("link", Json::text("AccountDuplicationCheck_false")),
        ),
    )
}

/// The request that enters the one-time code `code`.
pub fn two_factor_request(flow_token: String, code: &str) -> (request: FlowTaskRequest)
    ensures
        request.holds(flow_token@, seq![two_factor_input(code@)]),
{
    one_input(flow_token, answer_with("LoginTwoFactorAuthChallenge", "enter_text", entered(code)))
}

/// The request that answers a two-factor challenge with the code for
/// `secret` at the present time.
///
/// A secret under 16 bytes gives an authentication error that begins
/// `Failed to create TOTP: `. Otherwise the result is the request that
/// enters the code of some point in time, six decimal digits, or, where the
/// clock cannot be read, an authentication error that begins
/// `Failed to generate TOTP code: `.
pub fn handle_two_factor_auth(flow_token: String, secret: &str) -> (result: Result<
    FlowTaskRequest,
    TwitterError,
>)
    ensures
        match result {
            Ok(request) => usable_secret(encode_utf8(secret@)) && exists|time: u64|
                {
                    let code = #[trigger] code_at(encode_utf8(secret@), time as int);
                    &&& request.holds(flow_token@, seq![two_factor_input(code)])
                    &&& code.len() == 6
                    &&& is_digits(code)
                },
            Err(error) => if usable_secret(encode_utf8(secret@)) {
                is_clock_failure(error)
            } else {
                is_creation_failure(error)
            },
        },
{
    match current_totp(secret) {
        Ok(code) => {
            let request = two_factor_request(flow_token, code.as_str());
            proof {
                let time = choose|time: u64|
                    code@ == #[trigger] code_at(encode_utf8(secret@), time as int);
                assert(request.holds(
                    flow_token@,
                    seq![two_factor_input(code_at(encode_utf8(secret@), time as int))],
                ));
            }
            Ok(request)
        },
        Err(error) => Err(error),
    }
}

/// The request that enters the e-mail address as another identifier.
pub fn handle_alternate_identifier(flow_token: String, email: &str) -> (request: FlowTaskRequest)
    ensures
        request.holds(flow_token@, seq![alternate_identifier_input(email@)]),
{
    one_input(
        flow_token,
        answer_with("LoginEnterAlternateIdentifierSubtask", "enter_text", entered(email)),
    )
}

/// The request that acknowledges the success challenge: no inputs.
pub fn handle_success_subtask(flow_token: String) -> (request: FlowTaskRequest)
    ensures
        request.holds(flow_token@, Seq::empty()),
{
    let subtask_inputs: Vec<Json> = Vec::new();
    assert(item_views(subtask_inputs@) =~= Seq::empty());
    FlowTaskRequest { flow_token, subtask_inputs }
}

/// The identifiers of the challenges that a response holds as pending, in
/// the response's order; none where it names no list.
pub open spec fn pending(response: FlowResponse) -> Seq<Seq<char>> {
    match response.subtasks {
        Some(subtasks) => Seq::new(subtasks@.len(), |i: int| subtasks@[i].subtask_id@),
        None => Seq::empty(),
    }
}

/// The deny challenge stands somewhere among the identifiers.
pub open spec fn is_denied(ids: Seq<Seq<char>>) -> bool {
    exists|i: int| 0 <= i < ids.len() && #[trigger] ids[i] == "DenyLoginSubtask"@
}

/// What the login flow does next.
pub enum Plan {
    /// Nothing is pending: the login is complete.
    Finish,
    /// Send a request with this token and these inputs.
    Send(Seq<char>, Seq<JsonView>),
    /// Give up with an authentication error of this message.
    Fail(Seq<char>),
}

/// What the login flow does after a response with the pending challenges
/// `ids` and the token `flow_token`. Only the first challenge counts. It is
/// answered from the credentials, with the response's token; a challenge
/// that needs an e-mail address or a one-time code fails where none is at
/// hand; the deny challenge and every identifier that is not known fail.
pub open spec fn plan(
    ids: Seq<Seq<char>>,
    flow_token: Seq<char>,
    username: Seq<char>,
    password: Seq<char>,
    email: Option<Seq<char>>,
    code: Option<Seq<char>>,
) -> Plan {
    if ids.len() == 0 {
        Plan::Finish
    } else if ids[0] == "LoginJsInstrumentationSubtask"@ {
        Plan::Send(flow_token, seq![js_instrumentation_input()])
    } else if ids[0] == "LoginEnterUserIdentifierSSO"@ {
        Plan::Send(flow_token, seq![username_input(username)])
    } else if ids[0] == "LoginEnterPassword"@ {
        Plan::Send(flow_token, seq![password_input(password)])
    } else if ids[0] == "LoginAcid"@ {
        match email {
            Some(email) => Plan::Send(flow_token, seq![email_verification_input(email)]),
            None => Plan::Fail("Email required for verification"@),
        }
    } else if ids[0] == "AccountDuplicationCheck"@ {
        Plan::Send(flow_token, seq![account_duplication_input()])
    } else if ids[0] == "LoginTwoFactorAuthChallenge"@ {
        match code {
            Some(code) => Plan::Send(flow_token, seq![two_factor_input(code)]),
            None => Plan::Fail("Two factor authentication required"@),
        }
    } else if ids[0] == "LoginEnterAlternateIdentifierSubtask"@ {
        match email {
            Some(email) => Plan::Send(flow_token, seq![alternate_identifier_input(email)]),
            None => Plan::Fail("Email required for alternate identifier"@),
        }
    } else if ids[0] == "LoginSuccessSubtask"@ {
        Plan::Send(flow_token, Seq::empty())
    } else if ids[0] == "DenyLoginSubtask"@ {
        Plan::Fail("Login denied"@)
    } else {
        Plan::Fail("Unhandled subtask: "@ + ids[0])
    }
}

/// A step carries out a plan.
pub open spec fn follows(step: Result<LoginStep, TwitterError>, plan: Plan) -> bool {
    match plan {
        Plan::Finish => step == Ok::<LoginStep, TwitterError>(LoginStep::Finished),
        Plan::Send(flow_token, inputs) => step matches Ok(LoginStep::Submit(request))
            && request.holds(flow_token, inputs),
        Plan::Fail(message) => step matches Err(error) && error.is_auth(message),
    }
}

/// The first challenge of a response is the two-factor challenge.
pub open spec fn wants_code(ids: Seq<Seq<char>>) -> bool {
    ids.len() > 0 && ids[0] == "LoginTwoFactorAuthChallenge"@
}

/// Whether the deny challenge stands anywhere among the pending challenges
/// of a response: if so, the login is denied, whatever else is pending.
pub fn check_not_denied(response: &FlowResponse) -> (result: Result<(), TwitterError>)
    ensures
        match result {
            Ok(_) => !is_denied(pending(*response)),
            Err(error) => is_denied(pending(*response)) && error.is_auth("Login denied"@),
        },
{
    if let Some(subtasks) = &response.subtasks {
        let mut i: usize = 0;
        while i < subtasks.len()
            invariant
                i <= subtasks.len(),
                response.subtasks == Some(*subtasks),
                forall|k: int|
                    0 <= k < i ==> #[trigger] pending(*response)[k] != "DenyLoginSubtask"@,
            decreases subtasks.len() - i,
        {
            if same_text(subtasks[i].subtask_id.as_str(), "DenyLoginSubtask") {
                assert(pending(*response)[i as int] == "DenyLoginSubtask"@);
                return Err(TwitterError::auth("Login denied"));
            }
            i += 1;
        }
    }
    Ok(())
}

/// What to do after a response, with the one-time code already at hand:
/// `code` is the code to enter if the two-factor challenge is pending.
pub fn login_step_with_code(
    response: &FlowResponse,
    username: &str,
    password: &str,
    email: Option<&str>,
    code: Option<&str>,
) -> (step: Result<LoginStep, TwitterError>)
    ensures
        follows(
            step,
            plan(
                pending(*response),
                response.flow_token@,
                username@,
                password@,
                optional_text(email),
                optional_text(code),
            ),
        ),
        step matches Ok(LoginStep::Submit(request)) ==> request.flow_token@ == response.flow_token@,
{
    let subtasks = match &response.subtasks {
        Some(subtasks) => subtasks,
        None => {
            return Ok(LoginStep::Finished);
        },
    };
    if subtasks.len() == 0 {
        return Ok(LoginStep::Finished);
    }
    let id = subtasks[0].subtask_id.as_str();
    assert(pending(*response)[0] == id@);
    let flow_token = response.flow_token.clone();
    proof {
        lemma_known_ids_differ();
    }
    let kind = SubtaskType::from(id);
    match kind {
        SubtaskType::LoginJsInstrumentation => Ok(
            LoginStep::Submit(handle_js_instrumentation_subtask(flow_token)),
        ),
        SubtaskType::LoginEnterUserIdentifier => Ok(
            LoginStep::Submit(handle_username_input(flow_token, username)),
        ),
        SubtaskType::LoginEnterPassword => Ok(
            LoginStep::Submit(handle_password_input(flow_token, password)),
        ),
        SubtaskType::LoginAcid => match email {
            Some(email) => Ok(LoginStep::Submit(handle_email_verification(flow_token, email))),
            None => Err(TwitterError::auth("Email required for verification")),
        },
        SubtaskType::AccountDuplicationCheck => Ok(
            LoginStep::Submit(handle_account_duplication_check(flow_token)),
        ),
        SubtaskType::LoginTwoFactorAuthChallenge => match code {
            Some(code) => Ok(LoginStep::Submit(two_factor_request(flow_token, code))),
            None => Err(TwitterError::auth("Two factor authentication required")),
        },
        SubtaskType::LoginEnterAlternateIdentifier => match email {
            Some(email) => Ok(LoginStep::Submit(handle_alternate_identifier(flow_token, email))),
            None => Err(TwitterError::auth("Email required for alternate identifier")),
        },
        SubtaskType::LoginSuccess => Ok(LoginStep::Submit(handle_success_subtask(flow_token))),
        SubtaskType::DenyLogin => Err(TwitterError::auth("Login denied")),
        SubtaskType::Unknown(other) => {
            let mut message = "Unhandled subtask: ".to_owned();
            message.append(other.as_str());
            Err(TwitterError::Auth(message))
        },
    }
}

/// The nine known identifiers are nine different texts.
pub proof fn lemma_known_ids_differ()
    ensures
        "LoginJsInstrumentationSubtask"@.len() == 29,
        "LoginEnterUserIdentifierSSO"@.len() == 27,
        "LoginEnterPassword"@.len() == 18,
        "LoginAcid"@.len() == 9,
        "AccountDuplicationCheck"@.len() == 23,
        "LoginTwoFactorAuthChallenge"@.len() == 27,
        "LoginEnterAlternateIdentifierSubtask"@.len() == 36,
        "LoginSuccessSubtask"@.len() == 19,
        "DenyLoginSubtask"@.len() == 16,
        "LoginEnterUserIdentifierSSO"@ != "LoginTwoFactorAuthChallenge"@,
{
    reveal_strlit("LoginJsInstrumentationSubtask");
    reveal_strlit("LoginEnterUserIdentifierSSO");
    reveal_strlit("LoginEnterPassword");
    reveal_strlit("LoginAcid");
    reveal_strlit("AccountDuplicationCheck");
    reveal_strlit("LoginTwoFactorAuthChallenge");
    reveal_strlit("LoginEnterAlternateIdentifierSubtask");
    reveal_strlit("LoginSuccessSubtask");
    reveal_strlit("DenyLoginSubtask");
    assert("LoginEnterUserIdentifierSSO"@[5] != "LoginTwoFactorAuthChallenge"@[5]);
}

/// What to do after a response. Only the first pending challenge counts;
/// with none pending the login is complete.
///
/// Unless the two-factor challenge is first and a secret is at hand, the
/// step is the one that `plan` gives without a code. Otherwise a code is
/// made for the present time: the step then enters the code of some point
/// in time, or fails as the making of the code fails.
pub fn next_login_step(
    response: &FlowResponse,
    username: &str,
    password: &str,
    email: Option<&str>,
    two_factor_secret: Option<&str>,
) -> (step: Result<LoginStep, TwitterError>)
    ensures
        !(wants_code(pending(*response)) && two_factor_secret is Some) ==> follows(
            step,
            plan(
                pending(*response),
                response.flow_token@,
                username@,
                password@,
                optional_text(email),
                None,
            ),
        ),
        wants_code(pending(*response)) && two_factor_secret is Some ==> match step {
            Ok(_) => usable_secret(encode_utf8(two_factor_secret->0@)) && exists|time: u64|
                follows(
                    step,
                    plan(
                        pending(*response),
                        response.flow_token@,
                        username@,
                        password@,
                        optional_text(email),
                        Some(#[trigger] code_at(encode_utf8(two_factor_secret->0@), time as int)),
                    ),
                ),
            Err(error) => if usable_secret(encode_utf8(two_factor_secret->0@)) {
                is_clock_failure(error)
            } else {
                is_creation_failure(error)
            },
        },
        step matches Ok(LoginStep::Submit(request)) ==> request.flow_token@ == response.flow_token@,
{
    if let Some(secret) = two_factor_secret {
        if first_is_two_factor(response) {
            return match current_totp(secret) {
                Ok(code) => {
                    let entered = Some(code.as_str());
                    let step = login_step_with_code(response, username, password, email, entered);
                    proof {
                        lemma_known_ids_differ();
                        let time = choose|time: u64|
                            code@ == #[trigger] code_at(encode_utf8(secret@), time as int);
                        assert(optional_text(entered) == Some(
                            code_at(encode_utf8(secret@), time as int),
                        ));
                    }
                    step
                },
                Err(error) => Err(error),
            };
        }
    }
    login_step_with_code(response, username, password, email, None)
}

fn first_is_two_factor(response: &FlowResponse) -> (first: bool)
    ensures
        first == wants_code(pending(*response)),
{
    match &response.subtasks {
        Some(subtasks) => {
            if subtasks.len() == 0 {
                false
            } else {
                assert(pending(*response)[0] == subtasks@[0].subtask_id@);
                same_text(subtasks[0].subtask_id.as_str(), "LoginTwoFactorAuthChallenge")
            }
        },
        None => false,
    }
}

} // verus!
