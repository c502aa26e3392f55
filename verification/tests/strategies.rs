use seuss::auth::{
    unauthorized, unauthorized_with_error, value_of, AuthenticateRequest, AuthenticatedUser,
    Chain, Rejection, RequestHead,
};
use seuss::message::Error;
use seuss::{Metadata, ODATA_VERSION, REDFISH_VERSION, SCHEMA_BASE_URL};

#[derive(Clone)]
struct Fixed {
    name: &'static str,
    answer: Result<Option<AuthenticatedUser>, Rejection>,
}

impl AuthenticateRequest for Fixed {
    fn authenticate_request(
        &self,
        _head: &RequestHead,
    ) -> Result<Option<AuthenticatedUser>, Rejection> {
        self.answer.clone()
    }

    fn challenge(&self) -> Vec<&'static str> {
        vec![self.name]
    }
}

fn user(name: &str) -> AuthenticatedUser {
    AuthenticatedUser { username: name.to_string(), privileges: Vec::new() }
}

fn empty_head() -> RequestHead {
    RequestHead { authorization: None, auth_token: None, origin: None }
}

#[test]
fn chain_takes_the_first_user() {
    let chain = Chain {
        first: Fixed { name: "One", answer: Ok(Some(user("alice"))) },
        second: Fixed { name: "Two", answer: Ok(Some(user("bob"))) },
    };
    assert_eq!(chain.authenticate_request(&empty_head()), Ok(Some(user("alice"))));
}

#[test]
fn chain_falls_through_where_the_first_does_not_apply() {
    let chain = Chain {
        first: Fixed { name: "One", answer: Ok(None) },
        second: Fixed { name: "Two", answer: Ok(Some(user("bob"))) },
    };
    assert_eq!(chain.authenticate_request(&empty_head()), Ok(Some(user("bob"))));
}

#[test]
fn chain_of_strategies_that_do_not_apply_finds_nobody() {
    let chain = Chain {
        first: Fixed { name: "One", answer: Ok(None) },
        second: Fixed { name: "Two", answer: Ok(None) },
    };
    assert_eq!(chain.authenticate_request(&empty_head()), Ok(None));
}

#[test]
fn chain_surfaces_the_first_rejection() {
    let chain = Chain {
        first: Fixed { name: "One", answer: Err(unauthorized(vec!["One"])) },
        second: Fixed { name: "Two", answer: Ok(Some(user("bob"))) },
    };
    assert_eq!(chain.authenticate_request(&empty_head()), Err(unauthorized(vec!["One"])));
}

#[test]
fn chain_challenges_with_both() {
    let chain = Chain {
        first: Fixed { name: "One", answer: Ok(None) },
        second: Fixed { name: "Two", answer: Ok(None) },
    };
    assert_eq!(chain.challenge(), vec!["One", "Two"]);
}

#[test]
fn unauthorized_with_error_keeps_both() {
    let error = Error {
        code: "Test.1.0.Expired".to_string(),
        message: "expired".to_string(),
        message_extended_info: Vec::new(),
    };
    let rejection = unauthorized_with_error(error.clone(), vec!["Session"]);
    assert_eq!(rejection, Rejection { challenge: vec!["Session"], error });
}

#[test]
fn value_of_lends_the_bytes() {
    assert_eq!(value_of(&Some(vec![1u8, 2, 3])), Some(&[1u8, 2, 3][..]));
    assert_eq!(value_of(&None), None);
}

struct Model;

impl Metadata<'static> for Model {
    const JSON_SCHEMA: &'static str = "Model.v1_0_0.json";
}

#[test]
fn crate_constants() {
    assert_eq!(REDFISH_VERSION, "2022.3");
    assert_eq!(ODATA_VERSION, "4.0");
    assert_eq!(SCHEMA_BASE_URL, "https://redfish.dmtf.org/schemas/v1");
    assert_eq!(Model::JSON_SCHEMA, "Model.v1_0_0.json");
}
