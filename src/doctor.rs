use vstd::prelude::*;
use crate::api_key::{check_api_key, key_verdict, KeyVerdict};
use crate::endpoint::{check_scheme, resolve_endpoint, resolved_url, scheme_verdict, ApiUrl, ApiUrlView, SchemeVerdict};
use crate::host::{host_kind, path_fits, required_path, WakaHost};
use crate::report::{views, Finding, FindingView};
use crate::settings::Settings;

verus! {

/// What the user said about the server they mean to use.
#[derive(Clone, Copy, PartialEq, Eq, Debug, Structural)]
pub struct CheckOptions {
    /// The upstream WakaTime service is intended: do not warn about it.
    pub no_warn_default_waka: bool,
    /// A custom server is intended: do not warn about it.
    pub custom_server: bool,
}

/// Why no settings could be had.
#[derive(Clone, Debug)]
pub enum LoadError {
    /// The file could not be read, for the reason given.
    Read(String),
    /// The file could not be parsed, for the reason given.
    Parse(String),
}

/// The report of a run of the checks, and what the live check needs when
/// every check passed.
#[derive(Clone, Debug)]
pub struct Diagnosis {
    /// The findings in the order the checks ran.
    pub findings: Vec<Finding>,
    /// The kind of server and its address, when every check passed.
    pub passed: Option<(WakaHost, ApiUrl)>,
}

/// The finding of the host check for a server of kind `h`.
pub open spec fn host_finding(h: WakaHost, opts: CheckOptions) -> FindingView {
    match h {
        WakaHost::Hackatime => FindingView::HackatimeHost,
        WakaHost::OldHackatime => FindingView::OldHackatimeHost,
        WakaHost::Wakatime => FindingView::WakatimeHost { acknowledged: opts.no_warn_default_waka },
        WakaHost::Custom => FindingView::CustomHost { acknowledged: opts.custom_server },
    }
}

/// The host of `u`, where it has a non-empty one.
pub open spec fn host_of(u: ApiUrlView) -> Option<Seq<char>> {
    match u.host {
        Some(h) => if h.len() > 0 {
            Some(h)
        } else {
            None
        },
        None => None,
    }
}

/// The checks on a resolved address and a key, in order, stopping at the
/// first failure: host, path, scheme, key. Also the kind of server, when all
/// of them passed.
pub open spec fn url_checks(u: ApiUrlView, key: Seq<char>, opts: CheckOptions) -> (
    Seq<FindingView>,
    Option<WakaHost>,
) {
    match host_of(u) {
        None => (seq![FindingView::NoHost], None),
        Some(h) => {
            let kind = host_kind(h);
            let s1 = seq![host_finding(kind, opts)];
            if !path_fits(kind, u.path) {
                (s1.push(FindingView::PathWrong(kind, u.path)), None)
            } else {
                let s2 = if required_path(kind) is Some {
                    s1.push(FindingView::PathCorrect(kind))
                } else {
                    s1
                };
                match scheme_verdict(u.scheme) {
                    SchemeVerdict::Insecure => (s2.push(FindingView::SchemeInsecure), None),
                    SchemeVerdict::Unknown => (s2.push(FindingView::SchemeUnknown(u.scheme)), None),
                    SchemeVerdict::Secure => {
                        let s3 = s2.push(FindingView::SchemeSecure);
                        match key_verdict(key, kind) {
                            KeyVerdict::Missing => (s3.push(FindingView::NoApiKey), None),
                            KeyVerdict::Invalid => (s3.push(FindingView::KeyInvalid(kind)), None),
                            KeyVerdict::Valid => (s3.push(FindingView::KeyValid(kind)), Some(kind)),
                            KeyVerdict::Unchecked => (s3, Some(kind)),
                        }
                    },
                }
            }
        },
    }
}

/// The checks on settings whose address is `api_url` and whose key is
/// `key`: resolving the address, then [`url_checks`]. Also the kind of
/// server and the address, when all of them passed.
pub open spec fn settings_checks(api_url: Seq<char>, key: Seq<char>, opts: CheckOptions) -> (
    Seq<FindingView>,
    Option<(WakaHost, ApiUrlView)>,
) {
    match resolved_url(api_url) {
        Err(e) => (seq![FindingView::UrlInvalid(e)], None),
        Ok(u) => {
            let first = if api_url.len() == 0 {
                FindingView::DefaultUrl
            } else {
                FindingView::UrlValid
            };
            let rest = url_checks(u, key, opts);
            (
                seq![first] + rest.0,
                match rest.1 {
                    Some(kind) => Some((kind, u)),
                    None => None,
                },
            )
        },
    }
}

/// What a [`Diagnosis`]'s `passed` holds, with the address as its view.
pub open spec fn passed_view(p: Option<(WakaHost, ApiUrl)>) -> Option<(WakaHost, ApiUrlView)> {
    match p {
        Some((h, u)) => Some((h, u@)),
        None => None,
    }
}

/// Whether `d` reports `expected` and passes on what `expected` passes on.
pub open spec fn reports(
    d: Diagnosis,
    expected: (Seq<FindingView>, Option<(WakaHost, ApiUrlView)>),
) -> bool {
    views(d.findings@) == expected.0 && passed_view(d.passed) == expected.1
}

/// The checks on a loaded configuration, starting with reading and parsing it.
pub open spec fn run_checks_of(
    loaded: Result<Settings, LoadError>,
    opts: CheckOptions,
) -> (Seq<FindingView>, Option<(WakaHost, ApiUrlView)>) {
    match loaded {
        Err(LoadError::Read(e)) => (seq![FindingView::ConfigReadFailed(e@)], None),
        Err(LoadError::Parse(e)) => (
            seq![FindingView::ConfigRead, FindingView::ConfigParseFailed(e@)],
            None,
        ),
        Ok(s) => {
            let c = settings_checks(s.api_url@, s.api_key@, opts);
            (seq![FindingView::ConfigRead, FindingView::ConfigParsed] + c.0, c.1)
        },
    }
}

proof fn lemma_views_push(s: Seq<Finding>, f: Finding)
    ensures
        views(s.push(f)) == views(s).push(f@),
{
    assert(views(s.push(f)) =~= views(s).push(f@));
}

fn note(out: &mut Vec<Finding>, f: Finding)
    ensures
        views(final(out)@) == views(old(out)@).push(f@),
{
    proof {
        lemma_views_push(old(out)@, f);
    }
    out.push(f);
}

/// Runs the host, path, scheme and key checks on `url` and `key`, adding
/// the findings to `out`; returns the kind of server when all passed.
pub fn check_url(url: &ApiUrl, key: &str, opts: &CheckOptions, out: &mut Vec<Finding>) -> (r:
    Option<WakaHost>)
    ensures
        views(final(out)@) == views(old(out)@) + url_checks(url@, key@, *opts).0,
        r == url_checks(url@, key@, *opts).1,
{
    let ghost start = views(old(out)@);
    let host = match &url.host {
        Some(h) => {
            if h.as_str().is_empty() {
                note(out, Finding::NoHost);
                assert(views(out@) =~= start + url_checks(url@, key@, *opts).0);
                return None;
            }
            h
        },
        None => {
            note(out, Finding::NoHost);
            assert(views(out@) =~= start + url_checks(url@, key@, *opts).0);
            return None;
        },
    };
    let kind = WakaHost::classify(host.as_str());
    let host_note = match kind {
        WakaHost::Hackatime => Finding::HackatimeHost,
        WakaHost::OldHackatime => Finding::OldHackatimeHost,
        WakaHost::Wakatime => Finding::WakatimeHost { acknowledged: opts.no_warn_default_waka },
        WakaHost::Custom => Finding::CustomHost { acknowledged: opts.custom_server },
    };
    note(out, host_note);
    if !kind.path_is_valid(url.path.as_str()) {
        note(out, Finding::PathWrong(kind, url.path.clone()));
        assert(views(out@) =~= start + url_checks(url@, key@, *opts).0);
        return None;
    }
    if kind.expected_path().is_some() {
        note(out, Finding::PathCorrect(kind));
    }
    match check_scheme(url.scheme.as_str()) {
        SchemeVerdict::Insecure => {
            note(out, Finding::SchemeInsecure);
            assert(views(out@) =~= start + url_checks(url@, key@, *opts).0);
            return None;
        },
        SchemeVerdict::Unknown => {
            note(out, Finding::SchemeUnknown(url.scheme.clone()));
            assert(views(out@) =~= start + url_checks(url@, key@, *opts).0);
            return None;
        },
        SchemeVerdict::Secure => {
            note(out, Finding::SchemeSecure);
        },
    }
    match check_api_key(key, kind) {
        KeyVerdict::Missing => {
            note(out, Finding::NoApiKey);
            assert(views(out@) =~= start + url_checks(url@, key@, *opts).0);
            None
        },
        KeyVerdict::Invalid => {
            note(out, Finding::KeyInvalid(kind));
            assert(views(out@) =~= start + url_checks(url@, key@, *opts).0);
            None
        },
        KeyVerdict::Valid => {
            note(out, Finding::KeyValid(kind));
            assert(views(out@) =~= start + url_checks(url@, key@, *opts).0);
            Some(kind)
        },
        KeyVerdict::Unchecked => {
            assert(views(out@) =~= start + url_checks(url@, key@, *opts).0);
            Some(kind)
        },
    }
}

/// Runs every check on `settings`, in order, stopping at the first failure.
pub fn check_settings(settings: &Settings, opts: &CheckOptions) -> (r: Diagnosis)
    ensures
        reports(r, settings_checks(settings.api_url@, settings.api_key@, *opts)),
{
    let mut out: Vec<Finding> = Vec::new();
    let ghost expected = settings_checks(settings.api_url@, settings.api_key@, *opts);
    assert(views(out@) =~= Seq::<FindingView>::empty());
    let url = match resolve_endpoint(settings.api_url.as_str()) {
        Ok(u) => u,
        Err(e) => {
            note(&mut out, Finding::UrlInvalid(e));
            assert(views(out@) =~= expected.0);
            return Diagnosis { findings: out, passed: None };
        },
    };
    if settings.api_url.as_str().is_empty() {
        note(&mut out, Finding::DefaultUrl);
    } else {
        note(&mut out, Finding::UrlValid);
    }
    let passed = check_url(&url, settings.api_key.as_str(), opts, &mut out);
    assert(views(out@) =~= expected.0);
    match passed {
        Some(kind) => Diagnosis { findings: out, passed: Some((kind, url)) },
        None => Diagnosis { findings: out, passed: None },
    }
}

/// Runs every check, starting from the outcome of reading and parsing the
/// configuration file, and stopping at the first failure.
pub fn run_checks(loaded: Result<Settings, LoadError>, opts: &CheckOptions) -> (r: Diagnosis)
    ensures
        reports(r, run_checks_of(loaded, *opts)),
{
    match loaded {
        Err(LoadError::Read(e)) => {
            let mut out: Vec<Finding> = Vec::new();
            assert(views(out@) =~= Seq::<FindingView>::empty());
            note(&mut out, Finding::ConfigReadFailed(e));
            assert(views(out@) =~= run_checks_of(loaded, *opts).0);
            Diagnosis { findings: out, passed: None }
        },
        Err(LoadError::Parse(e)) => {
            let mut out: Vec<Finding> = Vec::new();
            assert(views(out@) =~= Seq::<FindingView>::empty());
            note(&mut out, Finding::ConfigRead);
            note(&mut out, Finding::ConfigParseFailed(e));
            assert(views(out@) =~= run_checks_of(loaded, *opts).0);
            Diagnosis { findings: out, passed: None }
        },
        Ok(settings) => {
            let mut out: Vec<Finding> = Vec::new();
            assert(views(out@) =~= Seq::<FindingView>::empty());
            note(&mut out, Finding::ConfigRead);
            note(&mut out, Finding::ConfigParsed);
            let d = check_settings(&settings, opts);
            let ghost before = out@;
            let mut rest = d.findings;
            out.append(&mut rest);
            assert(out@ =~= before + d.findings@);
            assert(views(out@) =~= views(before) + views(d.findings@));
            assert(views(out@) =~= run_checks_of(loaded, *opts).0);
            Diagnosis { findings: out, passed: d.passed }
        },
    }
}

} // verus!
