//! The login at archive.org: what is sent, and what the replies mean.
use crate::error::IaGetError;
use crate::http::Status;
use crate::text::same_text;
#[allow(unused_imports)]
use crate::error::{outcome, ErrorView};
#[allow(unused_imports)]
use crate::http::{is_success, status_digits, status_text};
use vstd::prelude::*;

verus! {

/// Archive.org login endpoint for CSRF token and credential authentication.
pub const LOGIN_API_URL: &'static str = "https://archive.org/services/account/login/";

/// The token in the reply to a token request.
#[derive(Debug, PartialEq, Eq)]
pub struct LoginTokenValue {
    pub token: String,
}

/// The reply to a token request.
#[derive(Debug, PartialEq, Eq)]
pub struct LoginTokenResponse {
    pub success: bool,
    pub value: Option<LoginTokenValue>,
    pub error: Option<String>,
}

/// The value in the reply to a login: a status word, or something that does not matter.
#[derive(Debug, PartialEq, Eq)]
pub enum LoginResponseValue {
    Status(String),
    Other,
}

/// The reply to a login.
#[derive(Debug, PartialEq, Eq)]
pub struct LoginResponse {
    pub success: bool,
    pub value: Option<LoginResponseValue>,
    pub error: Option<String>,
}

/// What a login sends.
#[derive(Debug, PartialEq, Eq)]
pub struct LoginRequest {
    pub username: String,
    pub password: String,
    pub remember: String,
    pub t: String,
}

/// A [`LoginTokenResponse`] as plain text.
pub struct LoginTokenResponseView {
    pub success: bool,
    pub token: Option<Seq<char>>,
    pub error: Option<Seq<char>>,
}

/// A [`LoginResponseValue`] as plain text.
pub enum LoginResponseValueView {
    Status(Seq<char>),
    Other,
}

/// A [`LoginResponse`] as plain text.
pub struct LoginResponseView {
    pub success: bool,
    pub value: Option<LoginResponseValueView>,
    pub error: Option<Seq<char>>,
}

/// A [`LoginRequest`] as plain text.
pub struct LoginRequestView {
    pub username: Seq<char>,
    pub password: Seq<char>,
    pub remember: Seq<char>,
    pub t: Seq<char>,
}

impl DeepView for LoginTokenResponse {
    type V = LoginTokenResponseView;

    open spec fn deep_view(&self) -> LoginTokenResponseView {
        LoginTokenResponseView {
            success: self.success,
            token: match self.value {
                Some(value) => Some(value.token@),
                None => None,
            },
            error: self.error.deep_view(),
        }
    }
}

impl DeepView for LoginResponseValue {
    type V = LoginResponseValueView;

    open spec fn deep_view(&self) -> LoginResponseValueView {
        match self {
            LoginResponseValue::Status(word) => LoginResponseValueView::Status(word@),
            LoginResponseValue::Other => LoginResponseValueView::Other,
        }
    }
}

impl DeepView for LoginResponse {
    type V = LoginResponseView;

    open spec fn deep_view(&self) -> LoginResponseView {
        LoginResponseView {
            success: self.success,
            value: self.value.deep_view(),
            error: self.error.deep_view(),
        }
    }
}

impl DeepView for LoginRequest {
    type V = LoginRequestView;

    open spec fn deep_view(&self) -> LoginRequestView {
        LoginRequestView {
            username: self.username@,
            password: self.password@,
            remember: self.remember@,
            t: self.t@,
        }
    }
}

impl LoginTokenResponseView {
    /// The token that a token reply grants: an error where it reports failure, or success without
    /// a token.
    pub open spec fn granted(self) -> Result<Seq<char>, ErrorView> {
        if !self.success {
            Err(
                ErrorView::Network(
                    "Failed to obtain login token: "@ + match self.error {
                        Some(error) => error,
                        None => "Unknown token response error"@,
                    },
                ),
            )
        } else {
            match self.token {
                Some(token) => Ok(token),
                None => Err(ErrorView::Network("Login token missing from response"@)),
            }
        }
    }
}

/// The login token in a token reply.
pub fn csrf_token(payload: LoginTokenResponse) -> (r: Result<String, IaGetError>)
    ensures
        outcome(r) == payload.deep_view().granted(),
{
    if !payload.success {
        let reason: String = match payload.error {
            Some(error) => error,
            None => "Unknown token response error".to_owned(),
        };
        return Err(
            IaGetError::Network("Failed to obtain login token: ".to_owned().concat(reason.as_str())),
        );
    }
    match payload.value {
        Some(value) => Ok(value.token),
        None => Err(IaGetError::network("Login token missing from response")),
    }
}

/// The request that logs in with the given credentials and token, for this session only.
pub open spec fn request_of(
    username: Seq<char>,
    password: Seq<char>,
    token: Seq<char>,
) -> LoginRequestView {
    LoginRequestView { username, password, remember: "false"@, t: token }
}

/// The request that logs in with the given credentials and token.
pub fn login_request(username: &str, password: &str, csrf_token: String) -> (r: LoginRequest)
    ensures
        r.deep_view() == request_of(username@, password@, csrf_token@),
{
    LoginRequest {
        username: username.to_owned(),
        password: password.to_owned(),
        remember: "false".to_owned(),
        t: csrf_token,
    }
}

impl LoginResponseView {
    /// Why a login failed, in words: by the status word where there is one, else by the error.
    pub open spec fn reason(self) -> Seq<char> {
        match self.value {
            Some(LoginResponseValueView::Status(word)) => if word == "bad_login"@ {
                "Email address and/or password incorrect"@
            } else if word == "account_not_verified"@ {
                "Account email address is not verified. Check your inbox for verification instructions."@
            } else if word == "account_max_unverified"@ {
                "Too many verification emails have been sent. Contact info@archive.org for assistance."@
            } else {
                word
            },
            _ => match self.error {
                Some(error) => error,
                None => "Unknown authentication error"@,
            },
        }
    }

    /// The description of a failed login with the given status.
    pub open spec fn description(self, status: Seq<char>) -> Seq<char> {
        "Authentication failed (HTTP "@ + status + "): "@ + self.reason()
    }

    /// What a login comes to: the session cookie where status and payload report success and
    /// there is a cookie, an error otherwise. `status` is how the status code is shown.
    pub open spec fn session(self, code: u16, status: Seq<char>, cookie: Option<Seq<char>>) -> Result<
        Seq<char>,
        ErrorView,
    > {
        if is_success(code) && self.success {
            match cookie {
                Some(cookie) => Ok(cookie),
                None => Err(
                    ErrorView::Network(
                        "Authentication succeeded but archive.org did not return session cookies."@,
                    ),
                ),
            }
        } else {
            Err(ErrorView::Network(self.description(status)))
        }
    }
}

/// Why a login failed, in words.
fn login_error_reason(response: &LoginResponse) -> (r: String)
    ensures
        r@ == response.deep_view().reason(),
{
    match &response.value {
        Some(LoginResponseValue::Status(word)) => {
            if same_text(word, "bad_login") {
                "Email address and/or password incorrect".to_owned()
            } else if same_text(word, "account_not_verified") {
                "Account email address is not verified. Check your inbox for verification instructions.".to_owned()
            } else if same_text(word, "account_max_unverified") {
                "Too many verification emails have been sent. Contact info@archive.org for assistance.".to_owned()
            } else {
                word.clone()
            }
        },
        _ => match &response.error {
            Some(error) => error.clone(),
            None => "Unknown authentication error".to_owned(),
        },
    }
}

/// The description of a failed login, given how its status is shown.
pub fn login_error_text(status: &str, response: &LoginResponse) -> (r: String)
    ensures
        r@ == response.deep_view().description(status@),
{
    let reason: String = login_error_reason(response);
    "Authentication failed (HTTP ".to_owned().concat(status).concat("): ").concat(reason.as_str())
}

/// Builds a descriptive authentication error from archive.org login API responses.
pub fn describe_login_error(status: Status, response: &LoginResponse) -> (r: String)
    ensures
        r@ == response.deep_view().description(status_text(status.deep_view())),
        ("Authentication failed (HTTP "@ + status_digits(status.deep_view()).push(' ')).is_prefix_of(
            r@,
        ),
{
    let shown: String = status.text();
    let r: String = login_error_text(shown.as_str(), response);
    proof {
        let lead = "Authentication failed (HTTP "@;
        let known = lead + status_digits(status.deep_view()).push(' ');
        assert(known =~= lead + shown@.take(4));
        assert(known =~= r@.subrange(0, known.len() as int));
    }
    r
}

/// What a login comes to: the session cookie header, or why there is none.
pub fn login_session(
    status: Status,
    response: &LoginResponse,
    session_cookie: Option<String>,
) -> (r: Result<String, IaGetError>)
    ensures
        outcome(r) == response.deep_view().session(
            status.deep_view(),
            status_text(status.deep_view()),
            session_cookie.deep_view(),
        ),
{
    if status.is_success() && response.success {
        return match session_cookie {
            Some(cookie) => Ok(cookie),
            None => Err(
                IaGetError::network(
                    "Authentication succeeded but archive.org did not return session cookies.",
                ),
            ),
        };
    }
    Err(IaGetError::Network(describe_login_error(status, response)))
}

/// The views of requests and replies hold all that they say.
pub proof fn login_messages_are_seen_whole(
    request: LoginRequest,
    token: LoginTokenResponse,
    reply: LoginResponse,
    word: String,
)
    ensures
        request.deep_view().username == request.username@,
        request.deep_view().password == request.password@,
        request.deep_view().remember == request.remember@,
        request.deep_view().t == request.t@,
        token.deep_view().success == token.success,
        token.deep_view().token is Some <==> token.value is Some,
        token.value matches Some(value) ==> token.deep_view().token->0 == value.token@,
        token.deep_view().error is Some <==> token.error is Some,
        token.error matches Some(error) ==> token.deep_view().error->0 == error@,
        reply.deep_view().success == reply.success,
        reply.deep_view().value is Some <==> reply.value is Some,
        reply.value matches Some(value) ==> reply.deep_view().value->0 == value.deep_view(),
        reply.deep_view().error is Some <==> reply.error is Some,
        reply.error matches Some(error) ==> reply.deep_view().error->0 == error@,
        LoginResponseValue::Status(word).deep_view() == LoginResponseValueView::Status(word@),
        LoginResponseValue::Other.deep_view() is Other,
{
}

/// The token of a reply that reports success is granted just as it is.
pub proof fn token_is_granted_as_it_is(reply: LoginTokenResponseView, token: Seq<char>)
    requires
        reply.success,
        reply.token == Some(token),
    ensures
        reply.granted() == Ok::<_, ErrorView>(token),
{
}

/// A token reply that reports failure is refused with the error that it gives, whatever else it
/// holds, and one that reports success without a token is refused too.
pub proof fn token_refusals_say_why(reply: LoginTokenResponseView, error: Seq<char>)
    ensures
        !reply.success && reply.error == Some(error) ==> reply.granted() == Err::<Seq<char>, _>(
            ErrorView::Network("Failed to obtain login token: "@ + error),
        ),
        !reply.success && reply.error is None ==> reply.granted() == Err::<Seq<char>, _>(
            ErrorView::Network("Failed to obtain login token: "@ + "Unknown token response error"@),
        ),
        reply.success && reply.token is None ==> reply.granted() == Err::<Seq<char>, _>(
            ErrorView::Network("Login token missing from response"@),
        ),
{
}

/// A login request holds the username, the password and the token just as they are, and asks not
/// to be remembered.
pub proof fn login_request_holds_what_is_given(
    username: Seq<char>,
    password: Seq<char>,
    token: Seq<char>,
)
    ensures
        request_of(username, password, token).username == username,
        request_of(username, password, token).password == password,
        request_of(username, password, token).t == token,
        request_of(username, password, token).remember == "false"@,
{
}

/// A login succeeds with the cookie just as it is, where the status is in the two hundreds and the
/// payload reports success.
pub proof fn login_gives_the_cookie_as_it_is(
    reply: LoginResponseView,
    code: u16,
    status: Seq<char>,
    cookie: Seq<char>,
)
    requires
        200 <= code < 300,
        reply.success,
    ensures
        reply.session(code, status, Some(cookie)) == Ok::<_, ErrorView>(cookie),
        reply.session(code, status, None) == Err::<Seq<char>, _>(
            ErrorView::Network(
                "Authentication succeeded but archive.org did not return session cookies."@,
            ),
        ),
{
}

/// A login with any other status, or whose payload reports failure, is refused, cookies or none,
/// with the status and the reason in full.
pub proof fn login_refusals_say_why(
    reply: LoginResponseView,
    code: u16,
    status: Seq<char>,
    cookie: Option<Seq<char>>,
)
    requires
        code < 200 || 300 <= code || !reply.success,
    ensures
        reply.session(code, status, cookie) == Err::<Seq<char>, _>(
            ErrorView::Network(
                "Authentication failed (HTTP "@ + status + "): "@ + reply.reason(),
            ),
        ),
        reply.description(status) == "Authentication failed (HTTP "@ + status + "): "@
            + reply.reason(),
{
}

/// The reason of a refusal is told by its status word, where there is one, whatever error stands
/// beside it: three words are known, and any other is given as it is.
pub proof fn status_word_tells_the_reason(reply: LoginResponseView, word: Seq<char>)
    requires
        reply.value == Some(LoginResponseValueView::Status(word)),
    ensures
        word == "bad_login"@ ==> reply.reason() == "Email address and/or password incorrect"@,
        word == "account_not_verified"@ ==> reply.reason()
            == "Account email address is not verified. Check your inbox for verification instructions."@,
        word == "account_max_unverified"@ ==> reply.reason()
            == "Too many verification emails have been sent. Contact info@archive.org for assistance."@,
        word != "bad_login"@ && word != "account_not_verified"@ && word
            != "account_max_unverified"@ ==> reply.reason() == word,
{
    reveal_strlit("bad_login");
    reveal_strlit("account_not_verified");
    reveal_strlit("account_max_unverified");
    assert("bad_login"@.len() != "account_not_verified"@.len());
    assert("bad_login"@.len() != "account_max_unverified"@.len());
    assert("account_not_verified"@.len() != "account_max_unverified"@.len());
}

/// Without a status word the reason is the error that the reply gives, in full.
pub proof fn error_tells_the_reason(reply: LoginResponseView, error: Seq<char>)
    requires
        reply.value is None || reply.value == Some(LoginResponseValueView::Other),
    ensures
        reply.error == Some(error) ==> reply.reason() == error,
        reply.error is None ==> reply.reason() == "Unknown authentication error"@,
{
}

/// The login goes to one endpoint of archive.org.
pub proof fn login_goes_to_archive_org()
    ensures
        LOGIN_API_URL@ == "https://archive.org/services/account/login/"@,
{
}

} // verus!
