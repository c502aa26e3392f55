//! Whether an identified caller may do what it asks.
use vstd::prelude::*;
use crate::auth::{plain_rejection, AuthenticatedUser, Rejection, RejectionView};
use crate::message::{envelope, one_message, texts_view, Message, MessageView, Severity};

verus! {

/// The privileges that a caller holds; one that nobody identified holds none.
pub open spec fn granted_to(user: Option<&AuthenticatedUser>) -> Seq<Seq<char>> {
    match user {
        Some(user) => user@.privileges,
        None => Seq::empty(),
    }
}

/// Whether every privilege of `required` is among `granted`.
pub open spec fn permits(granted: Seq<Seq<char>>, required: Seq<Seq<char>>) -> bool {
    forall|i: int| 0 <= i < required.len() ==> granted.contains(#[trigger] required[i])
}

/// The message sent to a caller that lacks a privilege.
pub open spec fn insufficient_privilege() -> MessageView {
    MessageView {
        message_id: "Base.1.0.InsufficientPrivilege"@,
        message_severity: Some(Severity::Critical),
        message: Some(
            "There are insufficient privileges for the account or credentials associated with the current session to perform the requested operation."@,
        ),
        resolution: Some(
            "Either abort the operation or change the associated access rights and resubmit the request if the operation failed."@,
        ),
        message_args: Seq::empty(),
    }
}

/// The refusal for want of privilege. It challenges with no scheme: the
/// caller is known already.
pub open spec fn privilege_denial() -> RejectionView {
    RejectionView {
        challenge: Seq::empty(),
        error: envelope(insufficient_privilege(), Seq::empty()),
    }
}

/// Whether `privilege` is among `granted`.
fn holds(granted: &Vec<String>, privilege: &String) -> (found: bool)
    ensures
        found == texts_view(granted@).contains(privilege@),
{
    let mut i: usize = 0;
    while i < granted.len()
        invariant
            i <= granted.len(),
            forall|j: int| 0 <= j < i ==> texts_view(granted@)[j] != privilege@,
        decreases granted.len() - i,
    {
        if granted[i] == *privilege {
            assert(texts_view(granted@)[i as int] == privilege@);
            return true;
        }
        i += 1;
    }
    false
}

/// Whether every privilege of `required` is among `granted`.
fn holds_all(granted: &Vec<String>, required: &Vec<String>) -> (all: bool)
    ensures
        all == permits(texts_view(granted@), texts_view(required@)),
{
    let mut i: usize = 0;
    while i < required.len()
        invariant
            i <= required.len(),
            forall|j: int|
                0 <= j < i ==> texts_view(granted@).contains(#[trigger] texts_view(required@)[j]),
        decreases required.len() - i,
    {
        if !holds(granted, &required[i]) {
            assert(!texts_view(granted@).contains(texts_view(required@)[i as int]));
            return false;
        }
        i += 1;
    }
    true
}

/// Builds the refusal for want of privilege.
fn deny() -> (rejection: Rejection)
    ensures
        rejection@ == privilege_denial(),
{
    let message = Message {
        message_id: "Base.1.0.InsufficientPrivilege".to_owned(),
        message_severity: Some(Severity::Critical),
        message: Some(
            "There are insufficient privileges for the account or credentials associated with the current session to perform the requested operation.".to_owned(),
        ),
        resolution: Some(
            "Either abort the operation or change the associated access rights and resubmit the request if the operation failed.".to_owned(),
        ),
        message_args: Vec::new(),
    };
    assert(message@.message_args =~= Seq::empty());
    let rejection = Rejection { challenge: Vec::new(), error: one_message(message) };
    assert(rejection@.challenge =~= Seq::empty());
    rejection
}

/// Decides whether `user` may perform an operation that asks for the
/// privileges `required`: it may where it holds every one of them. `None`
/// stands for a caller that nobody identified.
pub fn authorize(user: Option<&AuthenticatedUser>, required: &Vec<String>) -> (verdict: Result<
    (),
    Rejection,
>)
    ensures
        verdict is Ok <==> permits(granted_to(user), texts_view(required@)),
        verdict matches Err(rejection) ==> rejection@ == privilege_denial(),
{
    let allowed = match user {
        Some(user) => holds_all(&user.privileges, required),
        None => {
            let nothing: Vec<String> = Vec::new();
            assert(texts_view(nothing@) =~= Seq::empty());
            holds_all(&nothing, required)
        },
    };
    if allowed {
        Ok(())
    } else {
        Err(deny())
    }
}

/// A refusal for want of privilege carries a code that no plain refusal of
/// credentials carries, and challenges with no scheme.
pub proof fn denial_differs_from_refusal(challenge: Seq<Seq<char>>)
    ensures
        privilege_denial().error.code != plain_rejection(challenge).error.code,
        privilege_denial().challenge.len() == 0,
{
    reveal_strlit("Base.1.0.InsufficientPrivilege");
    reveal_strlit("Base.1.0.AccessDenied");
    assert("Base.1.0.InsufficientPrivilege"@.len() != "Base.1.0.AccessDenied"@.len());
}

} // verus!
