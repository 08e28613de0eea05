use vstd::prelude::*;
use crate::api_key::{is_canonical_uuid, key_verdict, KeyVerdict};
use crate::doctor::{host_of, url_checks, settings_checks, CheckOptions};
use crate::endpoint::{default_url, resolved_url, scheme_verdict, ApiUrlView, SchemeVerdict};
use crate::host::{host_kind, path_fits, WakaHost};
use crate::report::FindingView;
use crate::settings::{completes, RawSettings, Settings};
use crate::text::has_prefix;

verus! {

/// Every key absent from the file takes its default in the settings: an
/// empty text, or a flag that is off.
pub proof fn absent_keys_take_defaults(raw: RawSettings, s: Settings)
    requires
        completes(raw, s),
    ensures
        raw.debug is None ==> !s.debug,
        raw.api_key is None ==> s.api_key@.len() == 0,
        raw.api_key_vault_cmd is None ==> s.api_key_vault_cmd@.len() == 0,
        raw.api_url is None ==> s.api_url@.len() == 0,
        raw.hide_file_names is None ==> !s.hide_file_names,
        raw.hide_project_names is None ==> !s.hide_project_names,
        raw.hide_branch_names is None ==> !s.hide_branch_names,
        raw.hide_dependencies is None ==> !s.hide_dependencies,
        raw.hide_project_folder is None ==> !s.hide_project_folder,
{
}

/// With no address configured, the address is exactly the upstream
/// WakaTime API, a default is reported as assumed, and the server is
/// classified as WakaTime.
pub proof fn empty_address_is_upstream(key: Seq<char>, opts: CheckOptions)
    ensures
        resolved_url(Seq::empty()) == Ok::<ApiUrlView, Seq<char>>(default_url()),
        default_url().href == "https://api.wakatime.com/api/v1"@,
        host_of(default_url()) == Some("api.wakatime.com"@),
        host_kind("api.wakatime.com"@) == WakaHost::Wakatime,
        settings_checks(Seq::empty(), key, opts).0[0] == FindingView::DefaultUrl,
        settings_checks(Seq::empty(), key, opts).0[1] == (FindingView::WakatimeHost {
            acknowledged: opts.no_warn_default_waka,
        }),
{
    reveal_strlit("api.wakatime.com");
    reveal_strlit("hackatime.hackclub.com");
    reveal_strlit("waka.hackclub.com");
}

/// Each known host has its own kind, every other host is a custom server,
/// and only the current Hackatime and the upstream WakaTime services ask
/// for a path: `/api/hackatime/v1` and `/api/v1`.
pub proof fn host_and_path_rules(h: Seq<char>, path: Seq<char>)
    ensures
        host_kind("hackatime.hackclub.com"@) == WakaHost::Hackatime,
        host_kind("waka.hackclub.com"@) == WakaHost::OldHackatime,
        host_kind("api.wakatime.com"@) == WakaHost::Wakatime,
        h != "hackatime.hackclub.com"@ && h != "waka.hackclub.com"@ && h != "api.wakatime.com"@
            ==> host_kind(h) == WakaHost::Custom,
        path_fits(WakaHost::Hackatime, path) <==> path == "/api/hackatime/v1"@,
        path_fits(WakaHost::Wakatime, path) <==> path == "/api/v1"@,
        path_fits(WakaHost::OldHackatime, path),
        path_fits(WakaHost::Custom, path),
        !path_fits(WakaHost::Hackatime, "/api/v1"@),
        !path_fits(WakaHost::Wakatime, "/api/hackatime/v1"@),
{
    reveal_strlit("api.wakatime.com");
    reveal_strlit("hackatime.hackclub.com");
    reveal_strlit("waka.hackclub.com");
    assert("hackatime.hackclub.com"@.len() == 22);
    assert("waka.hackclub.com"@.len() == 17);
    assert("api.wakatime.com"@.len() == 16);
    reveal_strlit("/api/v1");
    reveal_strlit("/api/hackatime/v1");
    assert("/api/v1"@.len() != "/api/hackatime/v1"@.len());
}

/// An empty key is refused whatever the server, and no run with it passes.
pub proof fn empty_key_is_refused(h: WakaHost, u: ApiUrlView, opts: CheckOptions)
    ensures
        key_verdict(Seq::empty(), h) == KeyVerdict::Missing,
        url_checks(u, Seq::empty(), opts).1 is None,
{
}

/// For the upstream WakaTime service, `waka_` followed by a canonical UUID
/// is accepted; a key without that prefix, or `waka_not-a-uuid`, is not.
pub proof fn wakatime_key_shape(uuid: Seq<char>, key: Seq<char>)
    requires
        is_canonical_uuid(uuid),
    ensures
        key_verdict("waka_"@ + uuid, WakaHost::Wakatime) == KeyVerdict::Valid,
        !has_prefix(key, "waka_"@) ==> key_verdict(key, WakaHost::Wakatime) != KeyVerdict::Valid,
        key_verdict("waka_not-a-uuid"@, WakaHost::Wakatime) == KeyVerdict::Invalid,
{
    reveal_strlit("waka_");
    reveal_strlit("waka_not-a-uuid");
    let k = "waka_"@ + uuid;
    assert(k.subrange(0, 5) =~= "waka_"@);
    assert(k.subrange(5, k.len() as int) =~= uuid);
    let bad = "waka_not-a-uuid"@;
    assert(bad.subrange(0, 5) =~= "waka_"@);
    assert(bad.subrange(5, bad.len() as int).len() == 10);
}

/// For the current Hackatime service, a bare canonical UUID is accepted and
/// the same UUID after `waka_` is not.
pub proof fn hackatime_key_shape(uuid: Seq<char>)
    requires
        is_canonical_uuid(uuid),
    ensures
        key_verdict(uuid, WakaHost::Hackatime) == KeyVerdict::Valid,
        key_verdict("waka_"@ + uuid, WakaHost::Hackatime) == KeyVerdict::Invalid,
{
    reveal_strlit("waka_");
}

/// An `http` address never passes; once host and path have passed, it is
/// refused as insecure.
pub proof fn plain_http_is_refused(u: ApiUrlView, key: Seq<char>, opts: CheckOptions)
    requires
        u.scheme == "http"@,
    ensures
        scheme_verdict(u.scheme) == SchemeVerdict::Insecure,
        url_checks(u, key, opts).1 is None,
        host_of(u) is Some && path_fits(host_kind(host_of(u)->0), u.path) ==> url_checks(
            u,
            key,
            opts,
        ).0.last() == FindingView::SchemeInsecure,
{
    reveal_strlit("http");
    reveal_strlit("https");
    assert("http"@.len() != "https"@.len());
}

/// On the retired Hackatime host the path is never refused, and the host
/// is reported as retired.
pub proof fn retired_host_takes_any_path(u: ApiUrlView, key: Seq<char>, opts: CheckOptions)
    requires
        host_of(u) == Some("waka.hackclub.com"@),
    ensures
        url_checks(u, key, opts).0[0] == FindingView::OldHackatimeHost,
        forall|i: int|
            0 <= i < url_checks(u, key, opts).0.len() ==> !(url_checks(
                u,
                key,
                opts,
            ).0[i] is PathWrong),
{
    reveal_strlit("hackatime.hackclub.com");
    reveal_strlit("waka.hackclub.com");
}

} // verus!
