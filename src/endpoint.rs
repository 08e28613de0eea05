use vstd::prelude::*;
use crate::text::same_text;

verus! {

/// A server address taken apart into the pieces the checks read.
#[derive(Clone, Debug)]
pub struct ApiUrl {
    /// The whole address, in the URL parser's normal form.
    pub href: String,
    /// The scheme, such as `https`.
    pub scheme: String,
    /// The host name, where the address has one.
    pub host: Option<String>,
    /// The path.
    pub path: String,
}

/// What an [`ApiUrl`] holds, as character sequences.
pub struct ApiUrlView {
    pub href: Seq<char>,
    pub scheme: Seq<char>,
    pub host: Option<Seq<char>>,
    pub path: Seq<char>,
}

impl View for ApiUrl {
    type V = ApiUrlView;

    open spec fn view(&self) -> ApiUrlView {
        ApiUrlView {
            href: self.href@,
            scheme: self.scheme@,
            host: match self.host {
                Some(h) => Some(h@),
                None => None,
            },
            path: self.path@,
        }
    }
}

/// What the URL parser makes of a text: the address taken apart, or the
/// text of its error.
pub uninterp spec fn url_parse_of(s: Seq<char>) -> Result<ApiUrlView, Seq<char>>;

/// Relies on url::Url::parse, read back through Url::as_str, Url::scheme,
/// Url::host_str and Url::path; on failure, on the error's display text.
#[verifier::external_body]
fn parse_url(s: &str) -> (r: Result<ApiUrl, String>)
    ensures
        match r {
            Ok(u) => url_parse_of(s@) == Ok::<ApiUrlView, Seq<char>>(u@),
            Err(e) => url_parse_of(s@) == Err::<ApiUrlView, Seq<char>>(e@),
        },
{
    match url::Url::parse(s) {
        Ok(u) => Ok(ApiUrl {
            href: u.as_str().to_string(),
            scheme: u.scheme().to_string(),
            host: u.host_str().map(str::to_string),
            path: u.path().to_string(),
        }),
        Err(e) => Err(e.to_string()),
    }
}

/// The upstream WakaTime address, used when the configuration names none.
pub open spec fn default_url() -> ApiUrlView {
    ApiUrlView {
        href: "https://api.wakatime.com/api/v1"@,
        scheme: "https"@,
        host: Some("api.wakatime.com"@),
        path: "/api/v1"@,
    }
}

/// The address that a configured `api_url` stands for: the default when it
/// is empty, else what the URL parser makes of it.
pub open spec fn resolved_url(api_url: Seq<char>) -> Result<ApiUrlView, Seq<char>> {
    if api_url.len() == 0 {
        Ok(default_url())
    } else {
        url_parse_of(api_url)
    }
}

/// The upstream WakaTime address, taken apart.
pub fn default_api_url() -> (r: ApiUrl)
    ensures
        r@ == default_url(),
{
    ApiUrl {
        href: String::from_str("https://api.wakatime.com/api/v1"),
        scheme: String::from_str("https"),
        host: Some(String::from_str("api.wakatime.com")),
        path: String::from_str("/api/v1"),
    }
}

/// Resolves the configured address: the upstream default when `api_url` is
/// empty, else `api_url` parsed as an absolute URL. On a parse failure the
/// error holds the parser's message.
pub fn resolve_endpoint(api_url: &str) -> (r: Result<ApiUrl, String>)
    ensures
        match r {
            Ok(u) => resolved_url(api_url@) == Ok::<ApiUrlView, Seq<char>>(u@),
            Err(e) => resolved_url(api_url@) == Err::<ApiUrlView, Seq<char>>(e@),
        },
{
    if api_url.is_empty() {
        Ok(default_api_url())
    } else {
        parse_url(api_url)
    }
}

/// How an address's scheme is judged.
#[derive(Clone, Copy, PartialEq, Eq, Debug, Structural)]
pub enum SchemeVerdict {
    /// `https`.
    Secure,
    /// `http`, which sends the key in the clear.
    Insecure,
    /// Anything else.
    Unknown,
}

/// How the scheme `s` is judged.
pub open spec fn scheme_verdict(s: Seq<char>) -> SchemeVerdict {
    if s == "https"@ {
        SchemeVerdict::Secure
    } else if s == "http"@ {
        SchemeVerdict::Insecure
    } else {
        SchemeVerdict::Unknown
    }
}

/// Judges a scheme: only `https` is accepted.
pub fn check_scheme(scheme: &str) -> (r: SchemeVerdict)
    ensures
        r == scheme_verdict(scheme@),
{
    if same_text(scheme, "https") {
        SchemeVerdict::Secure
    } else if same_text(scheme, "http") {
        SchemeVerdict::Insecure
    } else {
        SchemeVerdict::Unknown
    }
}

} // verus!
