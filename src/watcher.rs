use vstd::prelude::*;

use crate::config::{BasicAuth, CheckerConfig, Interval};
use crate::notifiers::join3;
use crate::reactor::{State, StateMessage};

verus! {

/// The standard padded base64 encoding of the UTF-8 bytes of `s`.
pub uninterp spec fn base64_of(s: Seq<char>) -> Seq<char>;

/// Relies on `base64::encode`, which encodes the bytes of `s` with the standard alphabet and
/// padding. Its buffer size cannot overflow for the length of a `str`, so it does not panic.
#[verifier::external_body]
fn encode_base64(s: &str) -> (r: String)
    ensures
        r@ == base64_of(s@),
        s@.len() == 0 ==> r@.len() == 0,
{
    base64::encode(s)
}

/// What a probe request carries: the checker's URL and, when credentials are configured,
/// the value of its `Authorization` header.
#[derive(Clone, Debug)]
pub struct ProbeRequest {
    pub url: String,
    pub authorization: Option<String>,
}

/// The text that Basic authentication encodes: `username:password`.
pub open spec fn credentials(username: Seq<char>, password: Seq<char>) -> Seq<char> {
    username + ":"@ + password
}

/// The `Authorization` header value for `username` and `password`.
pub open spec fn basic_header(username: Seq<char>, password: Seq<char>) -> Seq<char> {
    "Basic "@ + base64_of(credentials(username, password))
}

/// `Basic ` followed by `encoded`.
pub fn basic_header_value(encoded: &str) -> (r: String)
    ensures
        r@ == "Basic "@ + encoded@,
{
    let mut r = String::from_str("Basic ");
    r.append(encoded);
    r
}

/// The `Authorization` header value for `auth`.
pub fn build_authorization_header_value(auth: &BasicAuth) -> (r: String)
    ensures
        r@ == basic_header(auth.username@, auth.password@),
{
    let credentials = join3(&auth.username, ":", &auth.password);
    let encoded = encode_base64(credentials.as_str());
    basic_header_value(encoded.as_str())
}

/// The request that probes `checker`: a GET of its URL, with a Basic `Authorization` header
/// exactly when the checker has credentials.
pub fn build_request(checker: &CheckerConfig) -> (r: ProbeRequest)
    ensures
        r.url@ == checker.url@,
        r.authorization is Some <==> checker.basic_auth is Some,
        checker.basic_auth matches Some(auth) ==> r.authorization->Some_0@ == basic_header(
            auth.username@,
            auth.password@,
        ),
{
    let authorization = match &checker.basic_auth {
        Some(auth) => Some(build_authorization_header_value(auth)),
        None => None,
    };
    ProbeRequest { url: checker.url.clone(), authorization }
}

/// Everything one probe loop needs: whom it reports for, what it sends, and how long it waits
/// after each probe before the next.
#[derive(Clone, Debug)]
pub struct Probe {
    pub checker_id: String,
    pub request: ProbeRequest,
    pub interval: Interval,
}

/// The probe loop of `checker`.
pub fn build_probe(checker: &CheckerConfig) -> (r: Probe)
    ensures
        r.checker_id@ == checker.id@,
        r.request.url@ == checker.url@,
        r.request.authorization is Some <==> checker.basic_auth is Some,
        checker.basic_auth matches Some(auth) ==> r.request.authorization->Some_0@ == basic_header(
            auth.username@,
            auth.password@,
        ),
        r.interval == checker.interval,
{
    Probe { checker_id: checker.id.clone(), request: build_request(checker), interval: checker.interval }
}

impl Probe {
    /// The observation this probe loop emits after a probe that ended with `outcome`.
    pub fn observe(&self, outcome: Option<u16>) -> (r: StateMessage)
        ensures
            r.checker_id@ == self.checker_id@,
            r.state == classified(outcome),
    {
        StateMessage { checker_id: self.checker_id.clone(), state: classify(outcome) }
    }
}

/// The state a probe outcome shows: up on a response with status 200; down on any other
/// status, and on a transport error or a timeout (`None`).
pub open spec fn classified(outcome: Option<u16>) -> State {
    if outcome == Some(200u16) {
        State::Up
    } else {
        State::Down
    }
}

pub fn classify(outcome: Option<u16>) -> (r: State)
    ensures
        r == classified(outcome),
{
    match outcome {
        Some(status) => if status == 200 {
            State::Up
        } else {
            State::Down
        },
        None => State::Down,
    }
}

} // verus!
