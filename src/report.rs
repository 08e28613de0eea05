use vstd::prelude::*;
use crate::host::WakaHost;

verus! {

/// How a reported line is marked.
#[derive(Clone, Copy, PartialEq, Eq, Debug, Structural)]
pub enum Status {
    Success,
    Failure,
    Warning,
}

/// One line of the report: the outcome of one check.
#[derive(Clone, Debug)]
pub enum Finding {
    /// The configuration file was read.
    ConfigRead,
    /// The configuration file could not be read, for the reason given.
    ConfigReadFailed(String),
    /// The configuration file was parsed.
    ConfigParsed,
    /// The configuration file could not be parsed, for the reason given.
    ConfigParseFailed(String),
    /// No address is configured; the upstream default is assumed.
    DefaultUrl,
    /// The configured address is a valid URL.
    UrlValid,
    /// The configured address is not a URL; the parser's message is given.
    UrlInvalid(String),
    /// The address has no host.
    NoHost,
    /// The address names the current Hackatime host.
    HackatimeHost,
    /// The address names the retired Hackatime host.
    OldHackatimeHost,
    /// The address names the upstream WakaTime host; `acknowledged` when
    /// the user said that this is intended.
    WakatimeHost { acknowledged: bool },
    /// The address names some other host; `acknowledged` when the user said
    /// that a custom server is intended.
    CustomHost { acknowledged: bool },
    /// The path is the one that the server expects.
    PathCorrect(WakaHost),
    /// The path is not the one that the server expects; it is given.
    PathWrong(WakaHost, String),
    /// The scheme is `https`.
    SchemeSecure,
    /// The scheme is plain `http`.
    SchemeInsecure,
    /// The scheme is neither; it is given.
    SchemeUnknown(String),
    /// The configuration holds no API key.
    NoApiKey,
    /// The API key has the shape that the server expects.
    KeyValid(WakaHost),
    /// The API key does not have the shape that the server expects.
    KeyInvalid(WakaHost),
    /// The live check was not asked for.
    ProbeSkipped,
    /// The server answered the test heartbeat.
    ProbeSucceeded(WakaHost),
    /// The server did not answer in time.
    ProbeTimedOut(WakaHost),
    /// Sending the heartbeat failed; the status code is given where known.
    ProbeFailed(WakaHost, Option<String>),
    /// Every check passed.
    AllGood(WakaHost),
}

/// What a [`Finding`] holds, with texts as character sequences.
pub enum FindingView {
    ConfigRead,
    ConfigReadFailed(Seq<char>),
    ConfigParsed,
    ConfigParseFailed(Seq<char>),
    DefaultUrl,
    UrlValid,
    UrlInvalid(Seq<char>),
    NoHost,
    HackatimeHost,
    OldHackatimeHost,
    WakatimeHost { acknowledged: bool },
    CustomHost { acknowledged: bool },
    PathCorrect(WakaHost),
    PathWrong(WakaHost, Seq<char>),
    SchemeSecure,
    SchemeInsecure,
    SchemeUnknown(Seq<char>),
    NoApiKey,
    KeyValid(WakaHost),
    KeyInvalid(WakaHost),
    ProbeSkipped,
    ProbeSucceeded(WakaHost),
    ProbeTimedOut(WakaHost),
    ProbeFailed(WakaHost, Option<Seq<char>>),
    AllGood(WakaHost),
}

impl View for Finding {
    type V = FindingView;

    open spec fn view(&self) -> FindingView {
        match self {
            Finding::ConfigRead => FindingView::ConfigRead,
            Finding::ConfigReadFailed(e) => FindingView::ConfigReadFailed(e@),
            Finding::ConfigParsed => FindingView::ConfigParsed,
            Finding::ConfigParseFailed(e) => FindingView::ConfigParseFailed(e@),
            Finding::DefaultUrl => FindingView::DefaultUrl,
            Finding::UrlValid => FindingView::UrlValid,
            Finding::UrlInvalid(e) => FindingView::UrlInvalid(e@),
            Finding::NoHost => FindingView::NoHost,
            Finding::HackatimeHost => FindingView::HackatimeHost,
            Finding::OldHackatimeHost => FindingView::OldHackatimeHost,
            Finding::WakatimeHost { acknowledged } => FindingView::WakatimeHost {
                acknowledged: *acknowledged,
            },
            Finding::CustomHost { acknowledged } => FindingView::CustomHost {
                acknowledged: *acknowledged,
            },
            Finding::PathCorrect(h) => FindingView::PathCorrect(*h),
            Finding::PathWrong(h, p) => FindingView::PathWrong(*h, p@),
            Finding::SchemeSecure => FindingView::SchemeSecure,
            Finding::SchemeInsecure => FindingView::SchemeInsecure,
            Finding::SchemeUnknown(s) => FindingView::SchemeUnknown(s@),
            Finding::NoApiKey => FindingView::NoApiKey,
            Finding::KeyValid(h) => FindingView::KeyValid(*h),
            Finding::KeyInvalid(h) => FindingView::KeyInvalid(*h),
            Finding::ProbeSkipped => FindingView::ProbeSkipped,
            Finding::ProbeSucceeded(h) => FindingView::ProbeSucceeded(*h),
            Finding::ProbeTimedOut(h) => FindingView::ProbeTimedOut(*h),
            Finding::ProbeFailed(h, c) => FindingView::ProbeFailed(
                *h,
                match c {
                    Some(s) => Some(s@),
                    None => None,
                },
            ),
            Finding::AllGood(h) => FindingView::AllGood(*h),
        }
    }
}

/// How a finding is marked.
pub open spec fn status_of(f: FindingView) -> Status {
    match f {
        FindingView::DefaultUrl | FindingView::OldHackatimeHost | FindingView::ProbeSkipped => {
            Status::Warning
        },
        FindingView::WakatimeHost { acknowledged } | FindingView::CustomHost { acknowledged } => {
            if acknowledged {
                Status::Success
            } else {
                Status::Warning
            }
        },
        FindingView::ConfigReadFailed(_)
        | FindingView::ConfigParseFailed(_)
        | FindingView::UrlInvalid(_)
        | FindingView::NoHost
        | FindingView::PathWrong(_, _)
        | FindingView::SchemeInsecure
        | FindingView::SchemeUnknown(_)
        | FindingView::NoApiKey
        | FindingView::KeyInvalid(_)
        | FindingView::ProbeTimedOut(_)
        | FindingView::ProbeFailed(_, _) => Status::Failure,
        _ => Status::Success,
    }
}

impl Finding {
    /// How this finding is marked: a failure ends the run, a warning does not.
    pub fn status(&self) -> (r: Status)
        ensures
            r == status_of(self@),
    {
        match self {
            Finding::DefaultUrl | Finding::OldHackatimeHost | Finding::ProbeSkipped => {
                Status::Warning
            },
            Finding::WakatimeHost { acknowledged } | Finding::CustomHost { acknowledged } => {
                if *acknowledged {
                    Status::Success
                } else {
                    Status::Warning
                }
            },
            Finding::ConfigReadFailed(_)
            | Finding::ConfigParseFailed(_)
            | Finding::UrlInvalid(_)
            | Finding::NoHost
            | Finding::PathWrong(_, _)
            | Finding::SchemeInsecure
            | Finding::SchemeUnknown(_)
            | Finding::NoApiKey
            | Finding::KeyInvalid(_)
            | Finding::ProbeTimedOut(_)
            | Finding::ProbeFailed(_, _) => Status::Failure,
            _ => Status::Success,
        }
    }
}

/// The views of a sequence of findings.
pub open spec fn views(fs: Seq<Finding>) -> Seq<FindingView> {
    fs.map_values(|f: Finding| f@)
}

} // verus!
