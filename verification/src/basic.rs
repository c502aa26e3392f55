//! Authentication by a user name and a password sent with the request.
use vstd::prelude::*;
use vstd::utf8::*;
use vstd::slice::slice_subrange;
use vstd::string::StringSliceAdditionalSpecFns;
use base64::engine::Engine;
use crate::auth::{
    challenge_view, plain_rejection, text_of, unauthorized, value_of, AuthenticateRequest,
    AuthenticatedUser, Rejection, RequestHead, RequestHeadView,
};
use crate::message::Error;

verus! {

/// The byte that parts the user name from the password.
pub const COLON: u8 = 58;

/// The bytes that open the header value: the scheme's name and a space.
/// Capitals count.
pub open spec fn scheme_prefix() -> Seq<u8> {
    encode_utf8("Basic "@)
}

/// What follows the scheme in a header value, where the value opens with it.
pub open spec fn after_scheme(value: Seq<u8>) -> Option<Seq<u8>> {
    if scheme_prefix().is_prefix_of(value) {
        Some(value.subrange(scheme_prefix().len() as int, value.len() as int))
    } else {
        None
    }
}

/// The scheme's prefix, byte by byte.
proof fn lemma_scheme_prefix()
    ensures
        scheme_prefix() == seq![66u8, 97u8, 115u8, 105u8, 99u8, 32u8],
{
    reveal_strlit("Basic ");
    let chars = "Basic "@;
    assert(is_ascii_chars(chars));
    is_ascii_chars_encode_utf8(chars);
    assert(scheme_prefix() =~= seq![66u8, 97u8, 115u8, 105u8, 99u8, 32u8]);
}

/// What the standard base64 alphabet, with padding, decodes `encoded` to, or
/// `None` where `encoded` is no such encoding.
pub uninterp spec fn base64_decoding(encoded: Seq<u8>) -> Option<Seq<u8>>;

/// Whether `at` is the place of the only colon in `payload`.
pub open spec fn sole_colon(payload: Seq<u8>, at: int) -> bool {
    &&& 0 <= at < payload.len()
    &&& payload[at] == COLON
    &&& forall|j: int| 0 <= j < payload.len() && payload[j] == COLON ==> j == at
}

/// The user name and the password that `payload` spells: it must be UTF-8
/// text with exactly one colon, which parts the two. A colon inside a password
/// is not allowed for.
pub open spec fn credentials(payload: Seq<u8>) -> Option<(Seq<char>, Seq<char>)> {
    if valid_utf8(payload) && exists|at: int| sole_colon(payload, at) {
        let at = choose|at: int| sole_colon(payload, at);
        Some(
            (
                decode_utf8(payload.subrange(0, at)),
                decode_utf8(payload.subrange(at + 1, payload.len() as int)),
            ),
        )
    } else {
        None
    }
}

/// The user name and the password that a request presents in its
/// `Authorization` header, where it presents them in good form.
pub open spec fn presented_credentials(authorization: Option<Seq<u8>>) -> Option<
    (Seq<char>, Seq<char>),
> {
    match authorization {
        Some(value) => match after_scheme(value) {
            Some(encoded) => match base64_decoding(encoded) {
                Some(payload) => credentials(payload),
                None => None,
            },
            None => None,
        },
        None => None,
    }
}

/// The single scheme name that this strategy challenges with.
pub open spec fn basic_challenge() -> Seq<Seq<char>> {
    seq!["Basic"@]
}

/// Whether `outcome` is what the strategy makes of the backend's `answer`: the
/// user on success, and on failure the plain rejection, which keeps the
/// backend's reasons to itself.
pub open spec fn concludes(
    answer: Result<AuthenticatedUser, Error>,
    outcome: Result<Option<AuthenticatedUser>, Rejection>,
) -> bool {
    match answer {
        Ok(user) => outcome == Ok::<Option<AuthenticatedUser>, Rejection>(Some(user)),
        Err(_) => outcome is Err && outcome->Err_0@ == plain_rejection(basic_challenge()),
    }
}

/// Calls `base64::engine::general_purpose::STANDARD.decode`. The contract
/// gives the decoder's answer a name: the bytes on success, nothing where the
/// decoder reports an error.
#[verifier::external_body]
fn base64_decode(encoded: &[u8]) -> (decoded: Option<Vec<u8>>)
    ensures
        decoded is Some <==> base64_decoding(encoded@) is Some,
        decoded matches Some(bytes) ==> base64_decoding(encoded@) == Some(bytes@),
{
    match base64::engine::general_purpose::STANDARD.decode(encoded) {
        Ok(bytes) => Some(bytes),
        Err(_) => None,
    }
}

/// A colon in UTF-8 text stands between two characters.
proof fn lemma_colon_boundaries(payload: Seq<u8>, at: int)
    requires
        valid_utf8(payload),
        0 <= at < payload.len(),
        payload[at] == COLON,
    ensures
        is_char_boundary(payload, at),
        valid_utf8(payload.subrange(0, at)),
        valid_utf8(payload.subrange(at, payload.len() as int)),
        valid_utf8(payload.subrange(at + 1, payload.len() as int)),
        is_char_boundary(payload.subrange(at, payload.len() as int), 1),
{
    is_char_boundary_iff_not_is_continuation_byte(payload, at);
    valid_utf8_split(payload, at);
    let rest = payload.subrange(at, payload.len() as int);
    assert(rest[0] == COLON);
    assert(length_of_first_scalar(rest) == 1);
    assert(pop_first_scalar(rest) =~= payload.subrange(at + 1, payload.len() as int));
    reveal_with_fuel(is_char_boundary, 2);
}

/// The credentials read from a payload spell it: the payload's text is the
/// user name, a colon and the password.
pub proof fn credentials_spell_payload(payload: Seq<u8>)
    requires
        credentials(payload) is Some,
    ensures
        credentials(payload) matches Some(parts) && decode_utf8(payload) == parts.0 + seq![':']
            + parts.1,
{
    let at = choose|at: int| sole_colon(payload, at);
    let rest = payload.subrange(at, payload.len() as int);
    let tail = payload.subrange(at + 1, payload.len() as int);
    lemma_colon_boundaries(payload, at);
    decode_utf8_split(payload, at);
    assert(rest[0] == COLON);
    assert(pop_first_scalar(rest) =~= tail);
    assert(decode_first_scalar(rest) == 58u32) by {
        assert(58u8 & 0x7F == 58u8) by (bit_vector);
    }
    assert(58u32 as char == ':');
    assert(decode_utf8(rest) =~= seq![':'] + decode_utf8(tail));
    assert(decode_utf8(payload) =~= decode_utf8(payload.subrange(0, at)) + seq![':']
        + decode_utf8(tail));
}

/// A user name and a password whose encodings hold no colon are read back
/// from the payload that joins them with one.
pub proof fn credentials_of_joined(username: Seq<char>, password: Seq<char>)
    requires
        !encode_utf8(username).contains(COLON),
        !encode_utf8(password).contains(COLON),
    ensures
        credentials(encode_utf8(username) + seq![COLON] + encode_utf8(password)) == Some(
            (username, password),
        ),
{
    let name = encode_utf8(username);
    let secret = encode_utf8(password);
    let colon = seq![COLON];
    let payload = name + colon + secret;
    let at = name.len() as int;
    encode_utf8_valid_utf8(username);
    encode_utf8_valid_utf8(password);
    assert(valid_utf8(colon)) by {
        assert(length_of_first_scalar(colon) == 1);
        assert(pop_first_scalar(colon) =~= Seq::<u8>::empty());
        reveal_with_fuel(valid_utf8, 2);
    }
    valid_utf8_concat(name, colon);
    valid_utf8_concat(name + colon, secret);
    assert(sole_colon(payload, at)) by {
        assert forall|j: int| 0 <= j < payload.len() && payload[j] == COLON implies j == at by {
            if j < at {
                assert(name[j] == COLON);
            } else if j > at {
                assert(secret[j - at - 1] == COLON);
            }
        }
    }
    let chosen = choose|k: int| sole_colon(payload, k);
    assert(chosen == at);
    assert(payload.subrange(0, at) =~= name);
    assert(payload.subrange(at + 1, payload.len() as int) =~= secret);
    encode_utf8_decode_utf8(username);
    encode_utf8_decode_utf8(password);
}

/// Drops the scheme from a header value, or finds that the value does not
/// open with it.
pub fn strip_scheme(value: &[u8]) -> (rest: Option<&[u8]>)
    ensures
        rest is Some <==> after_scheme(value@) is Some,
        rest matches Some(encoded) ==> after_scheme(value@) == Some(encoded@),
{
    proof {
        lemma_scheme_prefix();
    }
    if value.len() >= 6 && value[0] == 66u8 && value[1] == 97u8 && value[2] == 115u8 && value[3]
        == 105u8 && value[4] == 99u8 && value[5] == 32u8 {
        assert(scheme_prefix() =~= value@.subrange(0, 6));
        Some(slice_subrange(value, 6, value.len()))
    } else {
        proof {
            if scheme_prefix().is_prefix_of(value@) {
                let head = value@.subrange(0, 6);
                assert(head[0] == 66u8 && head[1] == 97u8 && head[2] == 115u8 && head[3] == 105u8
                    && head[4] == 99u8 && head[5] == 32u8);
            }
        }
        None
    }
}

/// Reads a user name and a password out of a decoded payload.
pub fn split_credentials(payload: &[u8]) -> (parts: Option<(String, String)>)
    ensures
        parts is Some <==> credentials(payload@) is Some,
        parts matches Some((username, password)) ==> credentials(payload@) == Some(
            (username@, password@),
        ),
{
    broadcast use {decode_utf8_encode_utf8, encode_utf8_decode_utf8};

    let text = match text_of(payload) {
        Some(text) => text,
        None => {
            return None;
        },
    };
    let mut found: Option<usize> = None;
    let mut i: usize = 0;
    while i < payload.len()
        invariant
            i <= payload.len(),
            found matches Some(at) ==> at < i && payload@[at as int] == COLON,
            forall|j: int| 0 <= j < i && payload@[j] == COLON ==> found == Some(j as usize),
        decreases payload.len() - i,
    {
        if payload[i] == COLON {
            if found.is_some() {
                return None;
            }
            found = Some(i);
        }
        i += 1;
    }
    match found {
        None => None,
        Some(at) => {
            proof {
                lemma_colon_boundaries(payload@, at as int);
                assert(sole_colon(payload@, at as int));
            }
            let (username, rest) = text.split_at(at);
            let (_, password) = rest.split_at(1);
            proof {
                let all = payload@;
                let tail = all.subrange(at as int, all.len() as int);
                assert(tail.subrange(1, tail.len() as int) =~= all.subrange(
                    at + 1,
                    all.len() as int,
                ));
            }
            Some((username.to_owned(), password.to_owned()))
        },
    }
}

/// A backend that knows which user names and passwords hold.
pub trait BasicAuthentication {
    /// Whether `answer` is one that the backend may give to this user name
    /// and password. A backend that says nothing of itself may give any.
    open spec fn answers(
        &self,
        username: Seq<char>,
        password: Seq<char>,
        answer: Result<AuthenticatedUser, Error>,
    ) -> bool {
        true
    }

    fn authenticate(&self, username: String, password: String) -> (answer: Result<
        AuthenticatedUser,
        Error,
    >)
        ensures
            self.answers(username@, password@, answer),
    ;
}

/// The strategy that reads a user name and a password from the
/// `Authorization` header and asks a backend whether they hold.
#[derive(Clone)]
pub struct BasicAuthenticationProxy<B> where B: BasicAuthentication + Clone {
    authenticator: B,
}

/// Turns the backend's answer into the strategy's: whatever the backend
/// objects to, the caller learns only that the request was refused.
pub fn conclude(answer: Result<AuthenticatedUser, Error>) -> (outcome: Result<
    Option<AuthenticatedUser>,
    Rejection,
>)
    ensures
        concludes(answer, outcome),
{
    match answer {
        Ok(user) => Ok(Some(user)),
        Err(_) => Err(unauthorized(basic_names())),
    }
}

/// The challenge of this strategy.
fn basic_names() -> (names: Vec<&'static str>)
    ensures
        challenge_view(names@) == basic_challenge(),
        names@.len() == 1,
{
    let mut names: Vec<&'static str> = Vec::new();
    names.push("Basic");
    assert(challenge_view(names@) =~= basic_challenge());
    names
}

impl<B> BasicAuthenticationProxy<B> where B: BasicAuthentication + Clone {
    pub closed spec fn backend(&self) -> B {
        self.authenticator
    }

    /// Whether `outcome` is what some answer of the backend to this user name
    /// and password comes to.
    pub open spec fn answered(
        &self,
        username: Seq<char>,
        password: Seq<char>,
        outcome: Result<Option<AuthenticatedUser>, Rejection>,
    ) -> bool {
        exists|answer: Result<AuthenticatedUser, Error>|
            #[trigger] self.backend().answers(username, password, answer) && concludes(
                answer,
                outcome,
            )
    }

    pub fn new(authenticator: B) -> (proxy: Self)
        ensures
            proxy.backend() == authenticator,
    {
        Self { authenticator }
    }
}

impl<B> AuthenticateRequest for BasicAuthenticationProxy<B> where B: BasicAuthentication + Clone {
    /// A request without credentials in good form is refused plainly. One
    /// with them gets what the backend's answer to exactly that user name and
    /// password comes to.
    open spec fn admits(
        &self,
        head: RequestHeadView,
        outcome: Result<Option<AuthenticatedUser>, Rejection>,
    ) -> bool {
        match presented_credentials(head.authorization) {
            Some(presented) => self.answered(presented.0, presented.1, outcome),
            None => outcome is Err && outcome->Err_0@ == plain_rejection(basic_challenge()),
        }
    }

    fn authenticate_request(&self, head: &RequestHead) -> (outcome: Result<
        Option<AuthenticatedUser>,
        Rejection,
    >)
        ensures
            outcome matches Err(rejection) ==> rejection@ == plain_rejection(basic_challenge()),
            outcome matches Ok(user) ==> user is Some,
    {
        let value = match value_of(&head.authorization) {
            Some(value) => value,
            None => {
                return Err(unauthorized(self.challenge()));
            },
        };
        let encoded = match strip_scheme(value) {
            Some(encoded) => encoded,
            None => {
                return Err(unauthorized(self.challenge()));
            },
        };
        let payload = match base64_decode(encoded) {
            Some(payload) => payload,
            None => {
                return Err(unauthorized(self.challenge()));
            },
        };
        let (username, password) = match split_credentials(payload.as_slice()) {
            Some(parts) => parts,
            None => {
                return Err(unauthorized(self.challenge()));
            },
        };
        let ghost presented = (username@, password@);
        let answer = self.authenticator.authenticate(username, password);
        let outcome = conclude(answer);
        assert(presented_credentials(head@.authorization) == Some(presented));
        assert(self.backend().answers(presented.0, presented.1, answer));
        assert(self.answered(presented.0, presented.1, outcome));
        outcome
    }

    open spec fn challenge_names(&self) -> Seq<Seq<char>> {
        basic_challenge()
    }

    fn challenge(&self) -> (names: Vec<&'static str>) {
        basic_names()
    }
}

} // verus!
