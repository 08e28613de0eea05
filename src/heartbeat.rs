use vstd::prelude::*;
use crate::endpoint::ApiUrl;
use crate::host::WakaHost;
use crate::report::{views, Finding, FindingView};

verus! {

/// The decimal digits of `n`.
pub open spec fn digits_of(n: nat) -> Seq<char>
    decreases n,
{
    let d = ((n % 10) as u8 + 48) as char;
    if n < 10 {
        seq![d]
    } else {
        digits_of(n / 10).push(d)
    }
}

/// `n` written in decimal, with a leading `-` when negative.
pub open spec fn decimal_of(n: int) -> Seq<char> {
    if n < 0 {
        seq!['-'] + digits_of((-n) as nat)
    } else {
        digits_of(n as nat)
    }
}

/// Relies on i64's `to_string`: the number in decimal, with a `-` when negative.
#[verifier::external_body]
fn decimal_text(n: i64) -> (r: String)
    ensures
        r@ == decimal_of(n as int),
{
    n.to_string()
}

/// What the URL parser makes of `reference` taken relative to the address
/// `base`, or `None` where either fails.
pub uninterp spec fn url_join_of(base: Seq<char>, reference: Seq<char>) -> Option<Seq<char>>;

/// Relies on url::Url::parse for `base` and then Url::join for `reference`.
#[verifier::external_body]
fn join_url(base: &str, reference: &str) -> (r: Option<String>)
    ensures
        match r {
            Some(s) => url_join_of(base@, reference@) == Some(s@),
            None => url_join_of(base@, reference@) is None,
        },
{
    url::Url::parse(base).and_then(|u| u.join(reference)).ok().map(|u| u.to_string())
}

/// Where heartbeats are sent, relative to the API address.
pub open spec fn heartbeats_path() -> Seq<char> {
    "users/current/heartbeats"@
}

/// The JSON body of a test heartbeat sent at `time`, in seconds since the
/// Unix epoch.
pub open spec fn heartbeat_json(time: int) -> Seq<char> {
    "[{\"type\":\"file\",\"time\":"@ + decimal_of(time)
        + ",\"entity\":\"wakadoctor-test.txt\",\"language\":\"Text\"}]"@
}

/// A test heartbeat, ready to send.
#[derive(Clone, Debug)]
pub struct Heartbeat {
    /// The address to post to.
    pub url: String,
    /// The key, sent as a bearer token.
    pub api_key: String,
    /// The JSON body.
    pub body: String,
}

/// The JSON body of a test heartbeat sent at `time`.
pub fn heartbeat_body(time: i64) -> (r: String)
    ensures
        r@ == heartbeat_json(time as int),
{
    let mut body = String::from_str("[{\"type\":\"file\",\"time\":");
    let t = decimal_text(time);
    body.append(t.as_str());
    body.append(",\"entity\":\"wakadoctor-test.txt\",\"language\":\"Text\"}]");
    body
}

/// The test heartbeat for the server at `url` with key `key`, sent at
/// `time`; `None` when the heartbeat address cannot be formed.
pub fn heartbeat_request(url: &ApiUrl, key: &str, time: i64) -> (r: Option<Heartbeat>)
    ensures
        match r {
            Some(h) => {
                &&& url_join_of(url.href@, heartbeats_path()) == Some(h.url@)
                &&& h.api_key@ == key@
                &&& h.body@ == heartbeat_json(time as int)
            },
            None => url_join_of(url.href@, heartbeats_path()) is None,
        },
{
    match join_url(url.href.as_str(), "users/current/heartbeats") {
        Some(target) => Some(
            Heartbeat { url: target, api_key: key.to_owned(), body: heartbeat_body(time) },
        ),
        None => None,
    }
}

/// How the test heartbeat went.
#[derive(Clone, Debug)]
pub enum ProbeOutcome {
    /// It was not sent.
    Skipped,
    /// The server answered.
    Answered,
    /// The server did not answer in time.
    TimedOut,
    /// Sending failed; the status code is given where there was one.
    Failed(Option<String>),
}

/// The findings that end a run whose checks all passed for a server of kind
/// `h`, given how the test heartbeat went.
pub open spec fn conclusion(h: WakaHost, outcome: ProbeOutcome) -> Seq<FindingView> {
    match outcome {
        ProbeOutcome::Skipped => seq![FindingView::ProbeSkipped, FindingView::AllGood(h)],
        ProbeOutcome::Answered => seq![FindingView::ProbeSucceeded(h), FindingView::AllGood(h)],
        ProbeOutcome::TimedOut => seq![FindingView::ProbeTimedOut(h)],
        ProbeOutcome::Failed(c) => seq![
            FindingView::ProbeFailed(
                h,
                match c {
                    Some(s) => Some(s@),
                    None => None,
                },
            ),
        ],
    }
}

/// The findings that end a run whose checks all passed: the live check's,
/// then, unless it failed, the overall success.
pub fn conclude(host: WakaHost, outcome: ProbeOutcome) -> (r: Vec<Finding>)
    ensures
        views(r@) == conclusion(host, outcome),
{
    let ghost o = outcome;
    let r = match outcome {
        ProbeOutcome::Skipped => vec![Finding::ProbeSkipped, Finding::AllGood(host)],
        ProbeOutcome::Answered => vec![Finding::ProbeSucceeded(host), Finding::AllGood(host)],
        ProbeOutcome::TimedOut => vec![Finding::ProbeTimedOut(host)],
        ProbeOutcome::Failed(c) => vec![Finding::ProbeFailed(host, c)],
    };
    assert(views(r@) =~= conclusion(host, o));
    r
}

} // verus!
