//! What every authentication strategy shares: the identity it establishes and
//! the rejection it answers with.
use vstd::prelude::*;
use vstd::utf8::{decode_utf8, valid_utf8};
use crate::message::{envelope, texts_view, Error, ErrorView, Message, MessageView, Severity, one_message};

verus! {

/// The caller that a strategy has identified, with the privileges granted to
/// it.
#[derive(Clone, Debug, PartialEq, Eq)]
pub struct AuthenticatedUser {
    pub username: String,
    pub privileges: Vec<String>,
}

pub ghost struct AuthenticatedUserView {
    pub username: Seq<char>,
    pub privileges: Seq<Seq<char>>,
}

impl View for AuthenticatedUser {
    type V = AuthenticatedUserView;

    open spec fn view(&self) -> AuthenticatedUserView {
        AuthenticatedUserView {
            username: self.username@,
            privileges: texts_view(self.privileges@),
        }
    }
}

/// A refused request: the schemes the caller may retry with, and the error to
/// send. A refusal for want of privilege names no scheme.
#[derive(Clone, Debug, PartialEq, Eq)]
pub struct Rejection {
    pub challenge: Vec<&'static str>,
    pub error: Error,
}

pub ghost struct RejectionView {
    pub challenge: Seq<Seq<char>>,
    pub error: ErrorView,
}

/// The characters of each scheme name of a challenge.
pub open spec fn challenge_view(challenge: Seq<&'static str>) -> Seq<Seq<char>> {
    Seq::new(challenge.len(), |i: int| challenge[i]@)
}

impl View for Rejection {
    type V = RejectionView;

    open spec fn view(&self) -> RejectionView {
        RejectionView { challenge: challenge_view(self.challenge@), error: self.error@ }
    }
}

/// The one message sent when credentials are missing, malformed or refused;
/// it says nothing of the cause.
pub open spec fn access_denied() -> MessageView {
    MessageView {
        message_id: "Base.1.0.AccessDenied"@,
        message_severity: Some(Severity::Critical),
        message: Some("The request lacks valid authentication credentials."@),
        resolution: Some("Supply valid credentials and resubmit the request."@),
        message_args: Seq::empty(),
    }
}

/// The rejection that carries `error` and challenges with `challenge`.
pub open spec fn rejection_with(error: ErrorView, challenge: Seq<Seq<char>>) -> RejectionView {
    RejectionView { challenge, error }
}

/// The rejection that challenges with `challenge` and tells no cause.
pub open spec fn plain_rejection(challenge: Seq<Seq<char>>) -> RejectionView {
    rejection_with(envelope(access_denied(), Seq::empty()), challenge)
}

/// Refuses a request without telling why.
pub fn unauthorized(challenge: Vec<&'static str>) -> (rejection: Rejection)
    ensures
        rejection@ == plain_rejection(challenge_view(challenge@)),
{
    let message = Message {
        message_id: "Base.1.0.AccessDenied".to_owned(),
        message_severity: Some(Severity::Critical),
        message: Some("The request lacks valid authentication credentials.".to_owned()),
        resolution: Some("Supply valid credentials and resubmit the request.".to_owned()),
        message_args: Vec::new(),
    };
    assert(message@.message_args =~= Seq::empty());
    Rejection { challenge, error: one_message(message) }
}

/// Refuses a request and passes on the error that explains why.
pub fn unauthorized_with_error(error: Error, challenge: Vec<&'static str>) -> (rejection: Rejection)
    ensures
        rejection@ == rejection_with(error@, challenge_view(challenge@)),
{
    Rejection { challenge, error }
}

/// The header values of a request that the strategies read, each as the
/// bytes that were sent, or `None` where the header is absent.
#[derive(Clone, Debug, PartialEq, Eq)]
pub struct RequestHead {
    /// `Authorization`
    pub authorization: Option<Vec<u8>>,
    /// `X-Auth-Token`
    pub auth_token: Option<Vec<u8>>,
    /// `Origin`
    pub origin: Option<Vec<u8>>,
}

pub ghost struct RequestHeadView {
    pub authorization: Option<Seq<u8>>,
    pub auth_token: Option<Seq<u8>>,
    pub origin: Option<Seq<u8>>,
}

/// The bytes of an optional header value.
pub open spec fn value_view(value: Option<Vec<u8>>) -> Option<Seq<u8>> {
    match value {
        Some(bytes) => Some(bytes@),
        None => None,
    }
}

impl View for RequestHead {
    type V = RequestHeadView;

    open spec fn view(&self) -> RequestHeadView {
        RequestHeadView {
            authorization: value_view(self.authorization),
            auth_token: value_view(self.auth_token),
            origin: value_view(self.origin),
        }
    }
}

/// Lends the bytes of an optional header value.
pub fn value_of(value: &Option<Vec<u8>>) -> (bytes: Option<&[u8]>)
    ensures
        bytes is Some <==> value is Some,
        bytes matches Some(b) ==> value_view(*value) == Some(b@),
{
    match value {
        Some(bytes) => Some(bytes.as_slice()),
        None => None,
    }
}

/// Calls `std::str::from_utf8`. The contract says that it succeeds on
/// well-formed UTF-8 and on nothing else, and that the text is then the one
/// that the bytes encode.
#[verifier::external_body]
pub(crate) fn text_of(bytes: &[u8]) -> (text: Option<&str>)
    ensures
        text is Some <==> valid_utf8(bytes@),
        text matches Some(t) ==> t@ == decode_utf8(bytes@),
{
    match std::str::from_utf8(bytes) {
        Ok(text) => Some(text),
        Err(_) => None,
    }
}

/// One way of telling who sent a request.
pub trait AuthenticateRequest {
    /// Whether `outcome` is an answer that this strategy may give to `head`.
    /// A strategy that says nothing of itself may give any.
    open spec fn admits(
        &self,
        head: RequestHeadView,
        outcome: Result<Option<AuthenticatedUser>, Rejection>,
    ) -> bool {
        true
    }

    /// The scheme names that this strategy challenges with. A strategy that
    /// says nothing of itself leaves them open.
    open spec fn challenge_names(&self) -> Seq<Seq<char>> {
        arbitrary::<spec_fn(&Self) -> Seq<Seq<char>>>()(self)
    }

    /// `Ok(Some(user))` where the request carries credentials that hold,
    /// `Ok(None)` where the strategy does not apply, and a rejection with
    /// this strategy's challenge where the credentials do not hold.
    fn authenticate_request(&self, head: &RequestHead) -> (outcome: Result<
        Option<AuthenticatedUser>,
        Rejection,
    >)
        ensures
            self.admits(head@, outcome),
    ;

    /// The scheme names to challenge with: never empty.
    fn challenge(&self) -> (names: Vec<&'static str>)
        ensures
            challenge_view(names@) == self.challenge_names(),
            names@.len() > 0,
    ;
}

/// Two strategies tried in turn. The second is asked only where the first
/// finds nothing to go by; once the first has found credentials its answer
/// stands, a refusal too.
#[derive(Clone)]
pub struct Chain<A, B> where A: AuthenticateRequest, B: AuthenticateRequest {
    pub first: A,
    pub second: B,
}

impl<A, B> AuthenticateRequest for Chain<A, B> where A: AuthenticateRequest, B: AuthenticateRequest {
    open spec fn admits(
        &self,
        head: RequestHeadView,
        outcome: Result<Option<AuthenticatedUser>, Rejection>,
    ) -> bool {
        ||| !(outcome matches Ok(None)) && self.first.admits(head, outcome)
        ||| self.first.admits(head, Ok(None)) && self.second.admits(head, outcome)
    }

    fn authenticate_request(&self, head: &RequestHead) -> (outcome: Result<
        Option<AuthenticatedUser>,
        Rejection,
    >) {
        match self.first.authenticate_request(head) {
            Ok(None) => self.second.authenticate_request(head),
            outcome => outcome,
        }
    }

    /// The names of the first strategy, then those of the second.
    open spec fn challenge_names(&self) -> Seq<Seq<char>> {
        self.first.challenge_names() + self.second.challenge_names()
    }

    fn challenge(&self) -> (names: Vec<&'static str>) {
        let mut names = self.first.challenge();
        let mut more = self.second.challenge();
        let ghost first = names@;
        let ghost second = more@;
        names.append(&mut more);
        assert(challenge_view(names@) =~= challenge_view(first) + challenge_view(second));
        names
    }
}

} // verus!
