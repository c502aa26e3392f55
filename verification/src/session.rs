//! Authentication by the token of a session, and what a store of sessions
//! owes to those who use it.
use vstd::prelude::*;
use vstd::utf8::*;
use crate::auth::{
    challenge_view, plain_rejection, rejection_with, text_of, unauthorized,
    unauthorized_with_error, value_of, AuthenticateRequest, AuthenticatedUser, Rejection,
    RequestHead, RequestHeadView,
};
use crate::message::{
    envelope, one_message, text_view, Error, ErrorView, Message, MessageView, Severity,
};

verus! {

/// A grant that a client holds after logging in, addressed by a token.
#[derive(Clone, Debug, PartialEq, Eq)]
pub struct Session {
    /// Where the session is addressed: a path under the collection's.
    pub odata_id: String,
    pub id: String,
    pub user_name: String,
    pub created_time: Option<String>,
    /// What the client said of itself when it logged in.
    pub context: Option<String>,
}

/// A reference to a resource by its address.
#[derive(Clone, Debug, PartialEq, Eq)]
pub struct IdRef {
    pub odata_id: String,
}

/// The message sent where what was asked for does not exist.
pub open spec fn not_found_message() -> MessageView {
    MessageView {
        message_id: "Base.1.0.ResourceNotFound"@,
        message_severity: Some(Severity::Critical),
        message: Some("The requested resource was not found."@),
        resolution: Some("Provide a valid resource identifier and resubmit the request."@),
        message_args: Seq::empty(),
    }
}

/// Whether an error says that what was asked for does not exist.
pub open spec fn is_not_found(error: ErrorView) -> bool {
    error.code == "Base.1.0.ResourceNotFound"@
}

/// The error that says that what was asked for does not exist.
pub fn resource_not_found() -> (error: Error)
    ensures
        is_not_found(error@),
        error@ == envelope(not_found_message(), Seq::empty()),
{
    let message = Message {
        message_id: "Base.1.0.ResourceNotFound".to_owned(),
        message_severity: Some(Severity::Critical),
        message: Some("The requested resource was not found.".to_owned()),
        resolution: Some(
            "Provide a valid resource identifier and resubmit the request.".to_owned(),
        ),
        message_args: Vec::new(),
    };
    assert(message@.message_args =~= Seq::empty());
    one_message(message)
}

/// A store of sessions. Each call is atomic: the store, not its callers,
/// keeps concurrent calls apart.
pub trait SessionManagement {
    type Id;

    /// Whether the store holds a live session under `id`. A store that says
    /// nothing of itself leaves this open.
    open spec fn is_live(&self, id: Self::Id) -> bool {
        arbitrary::<spec_fn(&Self, Self::Id) -> bool>()(self, id)
    }

    /// Whether the store has ever handed out `id`. A store that says nothing
    /// of itself leaves this open.
    open spec fn was_issued(&self, id: Self::Id) -> bool {
        arbitrary::<spec_fn(&Self, Self::Id) -> bool>()(self, id)
    }

    /// The identifier that a stored session goes by. A store that says
    /// nothing of itself leaves this open.
    open spec fn id_of(session: Session) -> Self::Id {
        arbitrary::<spec_fn(Session) -> Self::Id>()(session)
    }

    /// Whether `token` addresses a live session. A store that says nothing of
    /// itself leaves this open.
    open spec fn knows_token(&self, token: Seq<char>) -> bool {
        arbitrary::<spec_fn(&Self, Seq<char>) -> bool>()(self, token)
    }

    /// Whether `answer` is one that the store may give to this token and
    /// origin. A store that says nothing of itself may give any.
    open spec fn validates(
        &self,
        token: Seq<char>,
        origin: Option<Seq<char>>,
        answer: Result<AuthenticatedUser, Error>,
    ) -> bool {
        true
    }

    /// The user of the session that `token` addresses, where there is one and
    /// `origin` suits it. A token that addresses no live session is not
    /// found.
    fn session_is_valid(&self, token: String, origin: Option<String>) -> (answer: Result<
        AuthenticatedUser,
        Error,
    >)
        ensures
            self.validates(token@, text_view(origin), answer),
            !self.knows_token(token@) ==> answer is Err && is_not_found(answer->Err_0@),
    ;

    /// References to the live sessions.
    fn sessions(&self) -> Result<Vec<IdRef>, Error>;

    /// Stores `session` under an identifier of the store's choosing, which it
    /// has never handed out before, and addresses it under `base_path`. The
    /// sessions that were live stay so.
    fn create_session(&mut self, session: Session, base_path: String) -> (created: Result<
        Session,
        Error,
    >)
        ensures
            created matches Ok(stored) ==> {
                &&& base_path@.is_prefix_of(stored.odata_id@)
                &&& !old(self).was_issued(Self::id_of(stored))
                &&& !old(self).is_live(Self::id_of(stored))
                &&& final(self).was_issued(Self::id_of(stored))
                &&& final(self).is_live(Self::id_of(stored))
            },
            forall|id: Self::Id| old(self).is_live(id) ==> final(self).is_live(id),
            forall|id: Self::Id| old(self).was_issued(id) ==> final(self).was_issued(id),
    ;

    /// The session under `id`; one that is not live is not found.
    fn get_session(&self, id: Self::Id) -> (found: Result<Session, Error>)
        ensures
            !self.is_live(id) ==> found is Err && is_not_found(found->Err_0@),
            found matches Ok(session) ==> Self::id_of(session) == id,
    ;

    /// Ends the session under `id` and no other; one that is not live is not
    /// found, so a second deletion fails.
    fn delete_session(&mut self, id: Self::Id) -> (deleted: Result<(), Error>)
        ensures
            !old(self).is_live(id) ==> deleted is Err && is_not_found(deleted->Err_0@),
            deleted is Ok ==> !final(self).is_live(id),
            deleted is Err ==> final(self).is_live(id) == old(self).is_live(id),
            forall|other: Self::Id|
                other != id ==> final(self).is_live(other) == old(self).is_live(other),
            forall|other: Self::Id| old(self).was_issued(other) ==> final(self).was_issued(other),
    ;
}

/// A backend that opens a session for a user name and a password.
pub trait SessionAuthentication {
    fn open_session(&self, username: String, password: String) -> Result<AuthenticatedUser, Error>;

    fn close_session(&self) -> Result<(), Error>;
}

/// The token and the origin that a request presents, where it presents a
/// token and both are UTF-8 text. The origin may be absent.
pub open spec fn presented_token(head: RequestHeadView) -> Option<
    (Seq<char>, Option<Seq<char>>),
> {
    match (head.auth_token, head.origin) {
        (Some(token), Some(origin)) => if valid_utf8(token) && valid_utf8(origin) {
            Some((decode_utf8(token), Some(decode_utf8(origin))))
        } else {
            None
        },
        (Some(token), None) => if valid_utf8(token) {
            Some((decode_utf8(token), None))
        } else {
            None
        },
        (None, _) => None,
    }
}

/// The single scheme name that this strategy challenges with.
pub open spec fn session_challenge() -> Seq<Seq<char>> {
    seq!["Session"@]
}

/// Whether `outcome` is what the strategy makes of the store's `answer`: the
/// user on success, and on failure a rejection that passes the store's error
/// on unchanged.
pub open spec fn session_concludes(
    answer: Result<AuthenticatedUser, Error>,
    outcome: Result<Option<AuthenticatedUser>, Rejection>,
) -> bool {
    match answer {
        Ok(user) => outcome == Ok::<Option<AuthenticatedUser>, Rejection>(Some(user)),
        Err(error) => outcome is Err && outcome->Err_0@ == rejection_with(
            error@,
            session_challenge(),
        ),
    }
}

/// The challenge of this strategy.
fn session_names() -> (names: Vec<&'static str>)
    ensures
        challenge_view(names@) == session_challenge(),
        names@.len() == 1,
{
    let mut names: Vec<&'static str> = Vec::new();
    names.push("Session");
    assert(challenge_view(names@) =~= session_challenge());
    names
}

/// Turns the store's answer into the strategy's.
pub fn conclude_session(answer: Result<AuthenticatedUser, Error>) -> (outcome: Result<
    Option<AuthenticatedUser>,
    Rejection,
>)
    ensures
        session_concludes(answer, outcome),
{
    match answer {
        Ok(user) => Ok(Some(user)),
        Err(error) => Err(unauthorized_with_error(error, session_names())),
    }
}

/// Reads the token and the origin out of the headers of a request.
pub fn read_token(head: &RequestHead) -> (presented: Option<(String, Option<String>)>)
    ensures
        presented is Some <==> presented_token(head@) is Some,
        presented matches Some((token, origin)) ==> presented_token(head@) == Some(
            (token@, text_view(origin)),
        ),
{
    let token = match value_of(&head.auth_token) {
        Some(bytes) => match text_of(bytes) {
            Some(text) => text.to_owned(),
            None => {
                return None;
            },
        },
        None => {
            return None;
        },
    };
    let origin = match value_of(&head.origin) {
        Some(bytes) => match text_of(bytes) {
            Some(text) => Some(text.to_owned()),
            None => {
                return None;
            },
        },
        None => None,
    };
    Some((token, origin))
}

/// The strategy that reads a token from the `X-Auth-Token` header and asks a
/// store of sessions whether it holds.
#[derive(Clone)]
pub struct SessionAuthenticationProxy<S> where S: SessionManagement + Clone {
    authenticator: S,
}

impl<S> SessionAuthenticationProxy<S> where S: SessionManagement + Clone {
    pub closed spec fn backend(&self) -> S {
        self.authenticator
    }

    /// Whether `outcome` is what some answer of the store to this token and
    /// origin comes to.
    pub open spec fn answered(
        &self,
        token: Seq<char>,
        origin: Option<Seq<char>>,
        outcome: Result<Option<AuthenticatedUser>, Rejection>,
    ) -> bool {
        exists|answer: Result<AuthenticatedUser, Error>|
            #[trigger] self.backend().validates(token, origin, answer) && session_concludes(
                answer,
                outcome,
            )
    }

    pub fn new(authenticator: S) -> (proxy: Self)
        ensures
            proxy.backend() == authenticator,
    {
        Self { authenticator }
    }
}

impl<S> AuthenticateRequest for SessionAuthenticationProxy<S> where S: SessionManagement + Clone {
    /// A request without a token, or with a token or an origin that is no
    /// text, is refused plainly. Any other gets what the store's answer to
    /// exactly that token and origin comes to.
    open spec fn admits(
        &self,
        head: RequestHeadView,
        outcome: Result<Option<AuthenticatedUser>, Rejection>,
    ) -> bool {
        match presented_token(head) {
            Some(presented) => self.answered(presented.0, presented.1, outcome),
            None => outcome is Err && outcome->Err_0@ == plain_rejection(session_challenge()),
        }
    }

    fn authenticate_request(&self, head: &RequestHead) -> (outcome: Result<
        Option<AuthenticatedUser>,
        Rejection,
    >)
        ensures
            outcome matches Err(rejection) ==> rejection@.challenge == session_challenge(),
            outcome matches Ok(user) ==> user is Some,
            presented_token(head@) matches Some(presented) && !self.backend().knows_token(
                presented.0,
            ) ==> outcome is Err && is_not_found(outcome->Err_0@.error),
    {
        let (token, origin) = match read_token(head) {
            Some(presented) => presented,
            None => {
                return Err(unauthorized(self.challenge()));
            },
        };
        let ghost presented = (token@, text_view(origin));
        let answer = self.authenticator.session_is_valid(token, origin);
        let outcome = conclude_session(answer);
        assert(self.backend().validates(presented.0, presented.1, answer));
        assert(self.answered(presented.0, presented.1, outcome));
        outcome
    }

    open spec fn challenge_names(&self) -> Seq<Seq<char>> {
        session_challenge()
    }

    fn challenge(&self) -> (names: Vec<&'static str>) {
        session_names()
    }
}

} // verus!
