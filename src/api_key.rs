use vstd::prelude::*;
use crate::host::WakaHost;
use crate::text::{has_prefix, starts_with_text};

verus! {

/// Whether `c` is a hexadecimal digit, in either case.
pub open spec fn is_hex_digit(c: char) -> bool {
    ('0' <= c && c <= '9') || ('a' <= c && c <= 'f') || ('A' <= c && c <= 'F')
}

/// Whether position `i` of a canonical UUID text holds a hyphen.
pub open spec fn is_hyphen_position(i: int) -> bool {
    i == 8 || i == 13 || i == 18 || i == 23
}

/// Whether `s` is a UUID in its canonical text form: 32 hexadecimal digits in
/// groups of 8, 4, 4, 4 and 12, joined by hyphens.
pub open spec fn is_canonical_uuid(s: Seq<char>) -> bool {
    &&& s.len() == 36
    &&& forall|i: int|
        0 <= i < 36 ==> if is_hyphen_position(i) {
            s[i] == '-'
        } else {
            is_hex_digit(s[i])
        }
}

/// The prefix that keys of the upstream WakaTime service carry.
pub open spec fn wakatime_key_prefix() -> Seq<char> {
    "waka_"@
}

/// The outcome of checking an API key against the kind of server it is for.
#[derive(Clone, Copy, PartialEq, Eq, Debug, Structural)]
pub enum KeyVerdict {
    /// The configuration holds no key.
    Missing,
    /// The key has the shape that the server expects.
    Valid,
    /// The key does not have the shape that the server expects.
    Invalid,
    /// The server asks for no particular shape.
    Unchecked,
}

/// Whether `key` has the shape that a server of kind `h` expects.
pub open spec fn key_verdict(key: Seq<char>, h: WakaHost) -> KeyVerdict {
    if key.len() == 0 {
        KeyVerdict::Missing
    } else {
        match h {
            WakaHost::Hackatime => if is_canonical_uuid(key) {
                KeyVerdict::Valid
            } else {
                KeyVerdict::Invalid
            },
            WakaHost::Wakatime => if has_prefix(key, wakatime_key_prefix())
                && is_canonical_uuid(key.subrange(5, key.len() as int)) {
                KeyVerdict::Valid
            } else {
                KeyVerdict::Invalid
            },
            _ => KeyVerdict::Unchecked,
        }
    }
}

/// Relies on uuid::Uuid::parse_str: a text of 36 characters is accepted exactly
/// when it is a UUID in canonical hyphenated form.
#[verifier::external_body]
fn uuid_parses(s: &str) -> (r: bool)
    ensures
        s@.len() == 36 ==> r == is_canonical_uuid(s@),
{
    uuid::Uuid::parse_str(s).is_ok()
}

/// Whether `s` is a UUID in canonical text form.
pub fn is_uuid(s: &str) -> (r: bool)
    ensures
        r == is_canonical_uuid(s@),
{
    s.unicode_len() == 36 && uuid_parses(s)
}

/// Checks the shape of `key` for a server of kind `host`: Hackatime keys are
/// bare UUIDs, WakaTime keys are `waka_` followed by a UUID, other servers
/// take any non-empty key.
pub fn check_api_key(key: &str, host: WakaHost) -> (r: KeyVerdict)
    ensures
        r == key_verdict(key@, host),
{
    let n = key.unicode_len();
    if n == 0 {
        return KeyVerdict::Missing;
    }
    match host {
        WakaHost::Hackatime => if is_uuid(key) {
            KeyVerdict::Valid
        } else {
            KeyVerdict::Invalid
        },
        WakaHost::Wakatime => {
            if starts_with_text(key, "waka_") {
                proof {
                    reveal_strlit("waka_");
                }
                let rest = key.substring_char(5, n);
                if is_uuid(rest) {
                    KeyVerdict::Valid
                } else {
                    KeyVerdict::Invalid
                }
            } else {
                KeyVerdict::Invalid
            }
        },
        _ => KeyVerdict::Unchecked,
    }
}

} // verus!
