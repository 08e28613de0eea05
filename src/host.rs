use vstd::prelude::*;
use crate::text::same_text;

verus! {

/// The kind of server that a configuration points at.
#[derive(Clone, Copy, PartialEq, Eq, Debug, Structural)]
pub enum WakaHost {
    /// The current Hackatime service.
    Hackatime,
    /// The retired Hackatime service.
    OldHackatime,
    /// The upstream WakaTime service.
    Wakatime,
    /// Any other server.
    Custom,
}

/// The kind of server that a non-empty host name stands for.
pub open spec fn host_kind(h: Seq<char>) -> WakaHost {
    if h == "hackatime.hackclub.com"@ {
        WakaHost::Hackatime
    } else if h == "waka.hackclub.com"@ {
        WakaHost::OldHackatime
    } else if h == "api.wakatime.com"@ {
        WakaHost::Wakatime
    } else {
        WakaHost::Custom
    }
}

/// The path that a server of kind `h` must be reached at, if it asks for one.
pub open spec fn required_path(h: WakaHost) -> Option<Seq<char>> {
    match h {
        WakaHost::Hackatime => Some("/api/hackatime/v1"@),
        WakaHost::Wakatime => Some("/api/v1"@),
        _ => None,
    }
}

/// Whether `path` is acceptable for a server of kind `h`.
pub open spec fn path_fits(h: WakaHost, path: Seq<char>) -> bool {
    match required_path(h) {
        Some(p) => path == p,
        None => true,
    }
}

/// The service name shown to the user for a server of kind `h`.
pub open spec fn display_name(h: WakaHost) -> Seq<char> {
    match h {
        WakaHost::Hackatime | WakaHost::OldHackatime => "Hackatime"@,
        _ => "Wakatime"@,
    }
}

impl WakaHost {
    /// Classifies a host name by exact match against the known services.
    pub fn classify(host: &str) -> (r: WakaHost)
        ensures
            r == host_kind(host@),
    {
        if same_text(host, "hackatime.hackclub.com") {
            WakaHost::Hackatime
        } else if same_text(host, "waka.hackclub.com") {
            WakaHost::OldHackatime
        } else if same_text(host, "api.wakatime.com") {
            WakaHost::Wakatime
        } else {
            WakaHost::Custom
        }
    }

    /// The path that this kind of server must be reached at, if any.
    pub fn expected_path(self) -> (r: Option<&'static str>)
        ensures
            match r {
                Some(p) => required_path(self) == Some(p@),
                None => required_path(self) is None,
            },
    {
        match self {
            WakaHost::Hackatime => Some("/api/hackatime/v1"),
            WakaHost::Wakatime => Some("/api/v1"),
            _ => None,
        }
    }

    /// Whether `path` is acceptable for this kind of server.
    pub fn path_is_valid(self, path: &str) -> (r: bool)
        ensures
            r == path_fits(self, path@),
    {
        match self.expected_path() {
            Some(p) => same_text(path, p),
            None => true,
        }
    }

    /// The service name shown to the user.
    pub fn name(self) -> (r: String)
        ensures
            r@ == display_name(self),
    {
        match self {
            WakaHost::Hackatime | WakaHost::OldHackatime => String::from_str("Hackatime"),
            _ => String::from_str("Wakatime"),
        }
    }
}

} // verus!
