use base64::engine::general_purpose::STANDARD;
use base64::engine::Engine;
use seuss::auth::{unauthorized, AuthenticateRequest, AuthenticatedUser, Rejection, RequestHead};
use seuss::basic::{
    conclude, split_credentials, strip_scheme, BasicAuthentication, BasicAuthenticationProxy,
};
use seuss::message::{Error, Message, Severity};

#[derive(Clone)]
struct Accounts {
    known: Vec<(String, String)>,
}

impl BasicAuthentication for Accounts {
    fn authenticate(&self, username: String, password: String) -> Result<AuthenticatedUser, Error> {
        for (name, secret) in &self.known {
            if *name == username && *secret == password {
                return Ok(AuthenticatedUser { username, privileges: vec!["Login".to_string()] });
            }
        }
        Err(Error {
            code: "Test.1.0.WrongPassword".to_string(),
            message: "wrong password".to_string(),
            message_extended_info: Vec::new(),
        })
    }
}

fn proxy() -> BasicAuthenticationProxy<Accounts> {
    BasicAuthenticationProxy::new(Accounts {
        known: vec![
            ("alice".to_string(), "wonderland".to_string()),
            ("bob".to_string(), "a:b".to_string()),
            ("zoë".to_string(), "pässword".to_string()),
            ("".to_string(), "".to_string()),
        ],
    })
}

fn head(authorization: Option<Vec<u8>>) -> RequestHead {
    RequestHead { authorization, auth_token: None, origin: None }
}

fn header_for(text: &str) -> Vec<u8> {
    let mut value = b"Basic ".to_vec();
    value.extend_from_slice(STANDARD.encode(text).as_bytes());
    value
}

fn refusal() -> Rejection {
    Rejection {
        challenge: vec!["Basic"],
        error: Error {
            code: "Base.1.0.AccessDenied".to_string(),
            message: "The request lacks valid authentication credentials.".to_string(),
            message_extended_info: vec![Message {
                message_id: "Base.1.0.AccessDenied".to_string(),
                message_severity: Some(Severity::Critical),
                message: Some("The request lacks valid authentication credentials.".to_string()),
                resolution: Some("Supply valid credentials and resubmit the request.".to_string()),
                message_args: Vec::new(),
            }],
        },
    }
}

#[test]
fn accepted_credentials_yield_the_user() {
    let outcome = proxy().authenticate_request(&head(Some(header_for("alice:wonderland"))));
    assert_eq!(
        outcome,
        Ok(Some(AuthenticatedUser {
            username: "alice".to_string(),
            privileges: vec!["Login".to_string()],
        }))
    );
}

#[test]
fn accepted_credentials_beyond_ascii_yield_the_user() {
    let outcome = proxy().authenticate_request(&head(Some(header_for("zoë:pässword"))));
    assert_eq!(
        outcome,
        Ok(Some(AuthenticatedUser {
            username: "zoë".to_string(),
            privileges: vec!["Login".to_string()],
        }))
    );
}

#[test]
fn empty_user_name_and_password_reach_the_backend() {
    let outcome = proxy().authenticate_request(&head(Some(header_for(":"))));
    assert_eq!(
        outcome,
        Ok(Some(AuthenticatedUser {
            username: "".to_string(),
            privileges: vec!["Login".to_string()],
        }))
    );
}

#[test]
fn missing_header_is_refused() {
    assert_eq!(proxy().authenticate_request(&head(None)), Err(refusal()));
}

#[test]
fn wrong_prefix_is_refused() {
    let encoded = STANDARD.encode("alice:wonderland");
    for prefix in ["basic ", "Basic", "Bearer ", "BASIC ", ""] {
        let value = format!("{}{}", prefix, encoded).into_bytes();
        assert_eq!(proxy().authenticate_request(&head(Some(value))), Err(refusal()));
    }
}

#[test]
fn invalid_base64_is_refused() {
    for value in ["Basic !!!!", "Basic YWxpY2U6d29uZGVybGFuZA", "Basic YWxp Y2U6", "Basic \u{e9}"] {
        let outcome = proxy().authenticate_request(&head(Some(value.as_bytes().to_vec())));
        assert_eq!(outcome, Err(refusal()));
    }
}

#[test]
fn payload_that_is_not_utf8_is_refused() {
    let mut value = b"Basic ".to_vec();
    value.extend_from_slice(STANDARD.encode([0xffu8, 0x3a, 0x61]).as_bytes());
    assert_eq!(proxy().authenticate_request(&head(Some(value))), Err(refusal()));
}

#[test]
fn payload_without_a_colon_is_refused() {
    assert_eq!(proxy().authenticate_request(&head(Some(header_for("alice")))), Err(refusal()));
    assert_eq!(proxy().authenticate_request(&head(Some(header_for("")))), Err(refusal()));
}

#[test]
fn payload_with_three_parts_is_refused() {
    let outcome = proxy().authenticate_request(&head(Some(header_for("alice:wonder:land"))));
    assert_eq!(outcome, Err(refusal()));
}

#[test]
fn password_with_a_colon_is_refused_though_correct() {
    let outcome = proxy().authenticate_request(&head(Some(header_for("bob:a:b"))));
    assert_eq!(outcome, Err(refusal()));
}

#[test]
fn backend_refusal_looks_like_any_other() {
    let outcome = proxy().authenticate_request(&head(Some(header_for("alice:guess"))));
    assert_eq!(outcome, Err(refusal()));
    assert_eq!(outcome, proxy().authenticate_request(&head(None)));
}

#[test]
fn basic_challenge_names_the_scheme() {
    assert_eq!(proxy().challenge(), vec!["Basic"]);
}

#[test]
fn unauthorized_keeps_the_challenge() {
    assert_eq!(unauthorized(vec!["Basic"]), refusal());
}

#[test]
fn strip_scheme_drops_six_bytes() {
    assert_eq!(strip_scheme(b"Basic abc"), Some(&b"abc"[..]));
    assert_eq!(strip_scheme(b"Basic "), Some(&b""[..]));
    assert_eq!(strip_scheme(b"Basic"), None);
    assert_eq!(strip_scheme(b"basic abc"), None);
}

#[test]
fn split_credentials_parts_at_the_colon() {
    assert_eq!(
        split_credentials(b"alice:wonderland"),
        Some(("alice".to_string(), "wonderland".to_string()))
    );
    assert_eq!(split_credentials(b":"), Some(("".to_string(), "".to_string())));
    assert_eq!(
        split_credentials("zoë:pässword".as_bytes()),
        Some(("zoë".to_string(), "pässword".to_string()))
    );
    assert_eq!(split_credentials(b"alice"), None);
    assert_eq!(split_credentials(b"a:b:c"), None);
    assert_eq!(split_credentials(&[0x61, 0x3a, 0xc3]), None);
}

#[test]
fn conclude_hides_the_backend_error() {
    let user = AuthenticatedUser { username: "alice".to_string(), privileges: Vec::new() };
    assert_eq!(conclude(Ok(user.clone())), Ok(Some(user)));
    let error = Error {
        code: "Test.1.0.AccountLocked".to_string(),
        message: "locked".to_string(),
        message_extended_info: Vec::new(),
    };
    assert_eq!(conclude(Err(error)), Err(refusal()));
}
