use wakadoctor::api_key::{check_api_key, is_uuid, KeyVerdict};
use wakadoctor::doctor::{check_settings, run_checks, CheckOptions, LoadError};
use wakadoctor::endpoint::{check_scheme, resolve_endpoint, SchemeVerdict};
use wakadoctor::heartbeat::{conclude, heartbeat_body, heartbeat_request, ProbeOutcome};
use wakadoctor::host::WakaHost;
use wakadoctor::report::{Finding, Status};
use wakadoctor::settings::{RawSettings, Settings};

const UUID: &str = "550e8400-e29b-41d4-a716-446655440000";

fn opts(no_warn_default_waka: bool, custom_server: bool) -> CheckOptions {
    CheckOptions { no_warn_default_waka, custom_server }
}

fn settings(api_url: &str, api_key: &str) -> Settings {
    let mut s = Settings::default();
    s.api_url = api_url.to_string();
    s.api_key = api_key.to_string();
    s
}

fn empty_raw() -> RawSettings {
    RawSettings {
        debug: None,
        api_key: None,
        api_key_vault_cmd: None,
        api_url: None,
        hide_file_names: None,
        hide_project_names: None,
        hide_branch_names: None,
        hide_dependencies: None,
        hide_project_folder: None,
    }
}

fn statuses(fs: &[Finding]) -> Vec<Status> {
    fs.iter().map(|f| f.status()).collect()
}

#[test]
fn absent_keys_default_to_empty_and_off() {
    let s = Settings::from_raw(empty_raw());
    assert!(!s.debug);
    assert_eq!(s.api_key, "");
    assert_eq!(s.api_key_vault_cmd, "");
    assert_eq!(s.api_url, "");
    assert!(!s.hide_file_names && !s.hide_project_names && !s.hide_branch_names);
    assert!(!s.hide_dependencies && !s.hide_project_folder);
}

#[test]
fn present_keys_are_kept() {
    let mut raw = empty_raw();
    raw.debug = Some(true);
    raw.api_key = Some("abc".to_string());
    raw.hide_dependencies = Some(true);
    let s = Settings::from_raw(raw);
    assert!(s.debug);
    assert_eq!(s.api_key, "abc");
    assert_eq!(s.api_url, "");
    assert!(s.hide_dependencies);
    assert!(!s.hide_file_names);
}

#[test]
fn empty_address_resolves_to_upstream_default() {
    let u = resolve_endpoint("").unwrap();
    assert_eq!(u.href, "https://api.wakatime.com/api/v1");
    assert_eq!(u.scheme, "https");
    assert_eq!(u.host.as_deref(), Some("api.wakatime.com"));
    assert_eq!(u.path, "/api/v1");
    assert_eq!(WakaHost::classify(u.host.as_deref().unwrap()), WakaHost::Wakatime);
    let d = check_settings(&settings("", &format!("waka_{UUID}")), &opts(false, false));
    assert!(matches!(d.findings[0], Finding::DefaultUrl));
    assert!(matches!(d.findings[1], Finding::WakatimeHost { acknowledged: false }));
    assert_eq!(d.findings[0].status(), Status::Warning);
    let (host, url) = d.passed.unwrap();
    assert_eq!(host, WakaHost::Wakatime);
    assert_eq!(url.href, "https://api.wakatime.com/api/v1");
}

#[test]
fn parsed_address_is_taken_apart() {
    let u = resolve_endpoint("https://hackatime.hackclub.com/api/hackatime/v1").unwrap();
    assert_eq!(u.scheme, "https");
    assert_eq!(u.host.as_deref(), Some("hackatime.hackclub.com"));
    assert_eq!(u.path, "/api/hackatime/v1");
    assert_eq!(u.href, "https://hackatime.hackclub.com/api/hackatime/v1");
}

#[test]
fn malformed_address_is_reported_with_parser_message() {
    let e = resolve_endpoint("not a url").unwrap_err();
    assert_eq!(e, "relative URL without a base");
    let d = check_settings(&settings("not a url", "k"), &opts(false, false));
    assert_eq!(d.findings.len(), 1);
    assert!(matches!(&d.findings[0], Finding::UrlInvalid(m) if m == "relative URL without a base"));
    assert!(d.passed.is_none());
}

#[test]
fn classification_of_known_hosts() {
    assert_eq!(WakaHost::classify("hackatime.hackclub.com"), WakaHost::Hackatime);
    assert_eq!(WakaHost::classify("waka.hackclub.com"), WakaHost::OldHackatime);
    assert_eq!(WakaHost::classify("api.wakatime.com"), WakaHost::Wakatime);
    assert_eq!(WakaHost::classify("example.org"), WakaHost::Custom);
    assert_eq!(WakaHost::classify("API.wakatime.com"), WakaHost::Custom);
}

#[test]
fn path_rules_per_host() {
    assert!(!WakaHost::Hackatime.path_is_valid("/api/v1"));
    assert!(WakaHost::Hackatime.path_is_valid("/api/hackatime/v1"));
    assert!(WakaHost::Wakatime.path_is_valid("/api/v1"));
    assert!(!WakaHost::Wakatime.path_is_valid("/api/v1/"));
    assert!(WakaHost::OldHackatime.path_is_valid("/anything"));
    assert!(WakaHost::Custom.path_is_valid(""));
    assert_eq!(WakaHost::Hackatime.expected_path(), Some("/api/hackatime/v1"));
    assert_eq!(WakaHost::Custom.expected_path(), None);
}

#[test]
fn wrong_path_for_hackatime_stops_the_run() {
    let d = check_settings(&settings("https://hackatime.hackclub.com/api/v1", UUID), &opts(false, false));
    assert_eq!(d.findings.len(), 3);
    assert!(matches!(&d.findings[2], Finding::PathWrong(WakaHost::Hackatime, p) if p == "/api/v1"));
    assert_eq!(d.findings[2].status(), Status::Failure);
    assert!(d.passed.is_none());
}

#[test]
fn empty_key_is_refused_for_every_host() {
    for h in [WakaHost::Hackatime, WakaHost::OldHackatime, WakaHost::Wakatime, WakaHost::Custom] {
        assert_eq!(check_api_key("", h), KeyVerdict::Missing);
    }
    let d = check_settings(&settings("https://waka.hackclub.com/api", ""), &opts(false, false));
    assert!(matches!(d.findings.last().unwrap(), Finding::NoApiKey));
    assert!(d.passed.is_none());
}

#[test]
fn wakatime_key_needs_prefix_and_uuid() {
    assert_eq!(check_api_key(&format!("waka_{UUID}"), WakaHost::Wakatime), KeyVerdict::Valid);
    assert_eq!(check_api_key(UUID, WakaHost::Wakatime), KeyVerdict::Invalid);
    assert_eq!(check_api_key("waka_not-a-uuid", WakaHost::Wakatime), KeyVerdict::Invalid);
}

#[test]
fn hackatime_key_is_a_bare_uuid() {
    assert_eq!(check_api_key(UUID, WakaHost::Hackatime), KeyVerdict::Valid);
    assert_eq!(check_api_key(&format!("waka_{UUID}"), WakaHost::Hackatime), KeyVerdict::Invalid);
}

#[test]
fn other_hosts_take_any_key() {
    assert_eq!(check_api_key("x", WakaHost::Custom), KeyVerdict::Unchecked);
    assert_eq!(check_api_key("x", WakaHost::OldHackatime), KeyVerdict::Unchecked);
}

#[test]
fn uuid_text_forms() {
    assert!(is_uuid(UUID));
    assert!(is_uuid("550E8400-E29B-41D4-A716-446655440000"));
    assert!(!is_uuid("550e8400e29b41d4a716446655440000"));
    assert!(!is_uuid("{550e8400-e29b-41d4-a716-446655440000}"));
    assert!(!is_uuid("550e8400-e29b-41d4-a716-44665544000g"));
    assert!(!is_uuid("550e8400-e29b-41d4-a716_446655440000"));
    assert!(!is_uuid(""));
}

#[test]
fn plain_http_is_refused_as_insecure() {
    assert_eq!(check_scheme("http"), SchemeVerdict::Insecure);
    assert_eq!(check_scheme("https"), SchemeVerdict::Secure);
    let d = check_settings(&settings("http://example.org/x", "k"), &opts(false, true));
    assert!(matches!(d.findings.last().unwrap(), Finding::SchemeInsecure));
    assert!(d.passed.is_none());
    let d = check_settings(&settings("http://waka.hackclub.com/", "k"), &opts(false, false));
    assert!(matches!(d.findings.last().unwrap(), Finding::SchemeInsecure));
}

#[test]
fn unknown_scheme_is_reported() {
    assert_eq!(check_scheme("ftp"), SchemeVerdict::Unknown);
    let d = check_settings(&settings("ftp://example.org/x", "k"), &opts(false, false));
    assert!(matches!(d.findings.last().unwrap(), Finding::SchemeUnknown(s) if s == "ftp"));
}

#[test]
fn address_without_host_is_refused() {
    let d = check_settings(&settings("data:text/plain,hi", "k"), &opts(false, false));
    assert_eq!(d.findings.len(), 2);
    assert!(matches!(d.findings[1], Finding::NoHost));
    assert!(d.passed.is_none());
}

#[test]
fn unreadable_config_stops_at_first_step() {
    let d = run_checks(Err(LoadError::Read("No such file or directory".to_string())), &opts(false, false));
    assert_eq!(d.findings.len(), 1);
    assert!(matches!(&d.findings[0], Finding::ConfigReadFailed(e) if e == "No such file or directory"));
    assert_eq!(d.findings[0].status(), Status::Failure);
    assert!(d.passed.is_none());
}

#[test]
fn unparsable_config_stops_at_second_step() {
    let d = run_checks(Err(LoadError::Parse("bad".to_string())), &opts(false, false));
    assert_eq!(statuses(&d.findings), vec![Status::Success, Status::Failure]);
    assert!(d.passed.is_none());
}

#[test]
fn well_formed_wakatime_config_passes() {
    let s = settings("https://api.wakatime.com/api/v1", &format!("waka_{UUID}"));
    let d = run_checks(Ok(s), &opts(true, false));
    assert_eq!(d.findings.len(), 7);
    assert!(statuses(&d.findings).iter().all(|s| *s == Status::Success));
    assert!(matches!(d.findings[5], Finding::SchemeSecure));
    assert!(matches!(d.findings[6], Finding::KeyValid(WakaHost::Wakatime)));
    let (host, _) = d.passed.unwrap();
    let end = conclude(host, ProbeOutcome::Skipped);
    assert!(matches!(end[0], Finding::ProbeSkipped));
    assert!(matches!(end[1], Finding::AllGood(WakaHost::Wakatime)));
    assert_eq!(host.name(), "Wakatime");
}

#[test]
fn retired_host_accepts_any_path_with_warning() {
    let d = check_settings(&settings("https://waka.hackclub.com/some/where", "anything"), &opts(false, false));
    assert!(matches!(d.findings[1], Finding::OldHackatimeHost));
    assert_eq!(d.findings[1].status(), Status::Warning);
    assert!(!d.findings.iter().any(|f| matches!(f, Finding::PathWrong(..))));
    assert_eq!(d.passed.unwrap().0, WakaHost::OldHackatime);
    assert_eq!(WakaHost::OldHackatime.name(), "Hackatime");
}

#[test]
fn custom_host_warns_unless_acknowledged() {
    let d = check_settings(&settings("https://example.org/api", "k"), &opts(false, false));
    assert_eq!(d.findings[1].status(), Status::Warning);
    let d = check_settings(&settings("https://example.org/api", "k"), &opts(false, true));
    assert_eq!(d.findings[1].status(), Status::Success);
    assert_eq!(d.passed.unwrap().0, WakaHost::Custom);
}

#[test]
fn heartbeat_body_holds_the_time() {
    assert_eq!(
        heartbeat_body(1700000000),
        "[{\"type\":\"file\",\"time\":1700000000,\"entity\":\"wakadoctor-test.txt\",\"language\":\"Text\"}]"
    );
    assert_eq!(
        heartbeat_body(-5),
        "[{\"type\":\"file\",\"time\":-5,\"entity\":\"wakadoctor-test.txt\",\"language\":\"Text\"}]"
    );
}

#[test]
fn heartbeat_goes_to_address_relative_to_api() {
    let u = resolve_endpoint("https://hackatime.hackclub.com/api/hackatime/v1").unwrap();
    let h = heartbeat_request(&u, UUID, 0).unwrap();
    assert_eq!(h.url, "https://hackatime.hackclub.com/api/hackatime/users/current/heartbeats");
    assert_eq!(h.api_key, UUID);
    let u = resolve_endpoint("https://example.org/api/v1/").unwrap();
    let h = heartbeat_request(&u, "k", 0).unwrap();
    assert_eq!(h.url, "https://example.org/api/v1/users/current/heartbeats");
}

#[test]
fn probe_outcomes_end_the_run() {
    let end = conclude(WakaHost::Hackatime, ProbeOutcome::Answered);
    assert_eq!(statuses(&end), vec![Status::Success, Status::Success]);
    let end = conclude(WakaHost::Hackatime, ProbeOutcome::TimedOut);
    assert_eq!(end.len(), 1);
    assert_eq!(end[0].status(), Status::Failure);
    let end = conclude(WakaHost::Custom, ProbeOutcome::Failed(Some("401".to_string())));
    assert!(matches!(&end[0], Finding::ProbeFailed(WakaHost::Custom, Some(c)) if c == "401"));
}
