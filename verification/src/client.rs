use vstd::prelude::*;
use vstd::string::StringExecFns;

use crate::error::Error;
use crate::response::StimuliResponse;
use crate::stimulus::Stimulus;
use crate::stimulus::build_url;
use crate::stimulus::url_spec;

verus! {

/// One fully assembled command request, ready for a transport to send: the
/// endpoint URL and the query parameters carrying the credential and the
/// reason text. The request has no body; everything travels in the path and
/// the query string.
#[derive(Debug)]
pub struct HttpRequest {
    /// The fully qualified endpoint URL.
    pub url: String,
    /// The query parameters, as key-value pairs in order.
    pub query: Vec<(String, String)>,
}

/// What it means for `r` to be the one request that a command with action
/// `name`, strength `strength`, credential `token` and reason text `reason`
/// sends: the URL is exactly the fixed base followed by the action name and
/// the decimal strength, and the query carries exactly `access_token` and
/// `reason`, each with its value passed through unmodified.
pub open spec fn is_request_for(
    r: &HttpRequest,
    name: Seq<char>,
    strength: u8,
    token: Seq<char>,
    reason: Seq<char>,
) -> bool {
    &&& r.url@ == url_spec(name, strength)
    &&& r.query@.len() == 2
    &&& r.query@[0].0@ == "access_token"@
    &&& r.query@[0].1@ == token
    &&& r.query@[1].0@ == "reason"@
    &&& r.query@[1].1@ == reason
}

/// What the transport reported for one dispatched request. A transport
/// adapter performs the network round trip and the JSON decoding, then hands
/// the result back as one of these plain values.
pub enum Outcome {
    /// The response body decoded to the expected shape: a success flag and a
    /// correlation identifier.
    Delivered(bool, String),
    /// The send failed, or the body did not decode; holds the underlying
    /// cause's message when one was available.
    Failed(Option<String>),
}

/// Map a transport outcome to the caller's result: a decoded body becomes a
/// confirmation with exactly the decoded fields, and any failure becomes a
/// transport error carrying the cause unchanged. No outcome is retried and
/// no partial confirmation is ever produced.
pub fn complete(outcome: Outcome) -> (r: Result<StimuliResponse, Error>)
    ensures
        (outcome matches Outcome::Delivered(success, id) ==> (r matches Ok(resp)
            && resp.success_spec() == success && resp.id_spec() == id@)),
        (outcome matches Outcome::Failed(cause) ==> (r matches Err(e)
            && e matches Error::TransportFailure(c) && c == cause)),
{
    match outcome {
        Outcome::Delivered(success, id) => Ok(StimuliResponse::new(success, id)),
        Outcome::Failed(cause) => Err(Error::TransportFailure(cause)),
    }
}

/// The command core shared by every execution mode: it holds the access
/// credential, assembles requests, and enforces the per-action strength
/// ranges. It is stateless beyond the credential, which it never mutates
/// after construction, so one instance serves any number of calls.
pub struct Client {
    access_token: String,
}

impl Client {
    /// The credential this client was constructed with.
    pub closed spec fn token_spec(&self) -> Seq<char> {
        self.access_token@
    }

    /// Create a client holding `access_token`. No validation is performed on
    /// the token itself.
    pub fn new(access_token: String) -> (c: Client)
        ensures
            c.token_spec() == access_token@,
    {
        Client { access_token }
    }

    /// The credential this client was constructed with.
    pub fn access_token(&self) -> (t: &str)
        ensures
            t@ == self.token_spec(),
    {
        self.access_token.as_str()
    }

    /// Assemble the request for `stimulus` at `strength`, with no range
    /// check: the URL names the action and the decimal strength, and the
    /// query carries the credential and `reason` unmodified.
    pub fn prepare(&self, stimulus: &Stimulus, strength: u8, reason: &str) -> (r: HttpRequest)
        ensures
            is_request_for(&r, stimulus.name_spec(), strength, self.token_spec(), reason@),
    {
        let url = build_url(stimulus, strength);
        let mut query: Vec<(String, String)> = Vec::new();
        query.push((String::from_str("access_token"), self.access_token.clone()));
        query.push((String::from_str("reason"), String::from_str(reason)));
        HttpRequest { url, query }
    }

    /// Check `strength` against the range for `stimulus` and, if it is
    /// accepted, assemble the request; an out-of-range strength yields
    /// [`Error::OutOfBounds`] and no request, so nothing reaches the network.
    pub fn command(&self, stimulus: &Stimulus, strength: u8, reason: &str) -> (r: Result<
        HttpRequest,
        Error,
    >)
        ensures
            stimulus.in_bounds_spec(strength) ==> (r matches Ok(req) && is_request_for(
                &req,
                stimulus.name_spec(),
                strength,
                self.token_spec(),
                reason@,
            )),
            !stimulus.in_bounds_spec(strength) ==> (r matches Err(e) && e is OutOfBounds),
    {
        if stimulus.in_bounds(strength) {
            Ok(self.prepare(stimulus, strength, reason))
        } else {
            Err(Error::OutOfBounds)
        }
    }

    /// The shock request at `strength` with `reason`, accepted for any
    /// strength of at least 1; strength 0 is rejected with no request made.
    pub fn shock(&self, strength: u8, reason: &str) -> (r: Result<HttpRequest, Error>)
        ensures
            strength >= 1 ==> (r matches Ok(req) && is_request_for(
                &req,
                "shock"@,
                strength,
                self.token_spec(),
                reason@,
            )),
            strength == 0 ==> (r matches Err(e) && e is OutOfBounds),
    {
        self.command(&Stimulus::Shock, strength, reason)
    }

    /// The beep request at `strength` with `reason`, accepted for strengths
    /// 1 through 4; anything else is rejected with no request made.
    pub fn beep(&self, strength: u8, reason: &str) -> (r: Result<HttpRequest, Error>)
        ensures
            1 <= strength && strength <= 4 ==> (r matches Ok(req) && is_request_for(
                &req,
                "beep"@,
                strength,
                self.token_spec(),
                reason@,
            )),
            strength == 0 || strength > 4 ==> (r matches Err(e) && e is OutOfBounds),
    {
        self.command(&Stimulus::Beep, strength, reason)
    }

    /// The vibration request at `strength` with `reason`, accepted for any
    /// strength of at least 1; strength 0 is rejected with no request made.
    pub fn vibrate(&self, strength: u8, reason: &str) -> (r: Result<HttpRequest, Error>)
        ensures
            strength >= 1 ==> (r matches Ok(req) && is_request_for(
                &req,
                "vibration"@,
                strength,
                self.token_spec(),
                reason@,
            )),
            strength == 0 ==> (r matches Err(e) && e is OutOfBounds),
    {
        self.command(&Stimulus::Vibration, strength, reason)
    }

    /// The led request at `strength` with `reason`, accepted for strengths
    /// 1 through 4; anything else is rejected with no request made.
    pub fn led(&self, strength: u8, reason: &str) -> (r: Result<HttpRequest, Error>)
        ensures
            1 <= strength && strength <= 4 ==> (r matches Ok(req) && is_request_for(
                &req,
                "led"@,
                strength,
                self.token_spec(),
                reason@,
            )),
            strength == 0 || strength > 4 ==> (r matches Err(e) && e is OutOfBounds),
    {
        self.command(&Stimulus::Led, strength, reason)
    }
}

} // verus!
