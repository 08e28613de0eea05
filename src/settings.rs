use vstd::prelude::*;

verus! {

/// The settings section of a configuration file.
#[derive(Clone, Debug)]
pub struct Settings {
    pub debug: bool,
    pub api_key: String,
    pub api_key_vault_cmd: String,
    pub api_url: String,
    pub hide_file_names: bool,
    pub hide_project_names: bool,
    pub hide_branch_names: bool,
    pub hide_dependencies: bool,
    pub hide_project_folder: bool,
}

/// The settings section as read from a file, each key only where it was present.
#[derive(Clone, Debug)]
pub struct RawSettings {
    pub debug: Option<bool>,
    pub api_key: Option<String>,
    pub api_key_vault_cmd: Option<String>,
    pub api_url: Option<String>,
    pub hide_file_names: Option<bool>,
    pub hide_project_names: Option<bool>,
    pub hide_branch_names: Option<bool>,
    pub hide_dependencies: Option<bool>,
    pub hide_project_folder: Option<bool>,
}

/// A flag as read, or `false` where it was absent.
pub open spec fn flag_or_off(f: Option<bool>) -> bool {
    match f {
        Some(b) => b,
        None => false,
    }
}

/// A text as read, or empty where it was absent.
pub open spec fn text_or_empty(t: Option<String>) -> Seq<char> {
    match t {
        Some(s) => s@,
        None => Seq::empty(),
    }
}

/// Whether every setting is at its default: empty texts and flags off.
pub open spec fn is_default_settings(s: Settings) -> bool {
    &&& !s.debug
    &&& s.api_key@.len() == 0
    &&& s.api_key_vault_cmd@.len() == 0
    &&& s.api_url@.len() == 0
    &&& !s.hide_file_names
    &&& !s.hide_project_names
    &&& !s.hide_branch_names
    &&& !s.hide_dependencies
    &&& !s.hide_project_folder
}

/// Whether `s` holds what `raw` holds, with each absent key at its default.
pub open spec fn completes(raw: RawSettings, s: Settings) -> bool {
    &&& s.debug == flag_or_off(raw.debug)
    &&& s.api_key@ == text_or_empty(raw.api_key)
    &&& s.api_key_vault_cmd@ == text_or_empty(raw.api_key_vault_cmd)
    &&& s.api_url@ == text_or_empty(raw.api_url)
    &&& s.hide_file_names == flag_or_off(raw.hide_file_names)
    &&& s.hide_project_names == flag_or_off(raw.hide_project_names)
    &&& s.hide_branch_names == flag_or_off(raw.hide_branch_names)
    &&& s.hide_dependencies == flag_or_off(raw.hide_dependencies)
    &&& s.hide_project_folder == flag_or_off(raw.hide_project_folder)
}

fn flag_value(f: Option<bool>) -> (r: bool)
    ensures
        r == flag_or_off(f),
{
    match f {
        Some(b) => b,
        None => false,
    }
}

fn text_value(t: Option<String>) -> (r: String)
    ensures
        r@ == text_or_empty(t),
{
    match t {
        Some(s) => s,
        None => String::new(),
    }
}

impl Default for Settings {
    fn default() -> (r: Settings)
        ensures
            is_default_settings(r),
    {
        Settings {
            debug: false,
            api_key: String::new(),
            api_key_vault_cmd: String::new(),
            api_url: String::new(),
            hide_file_names: false,
            hide_project_names: false,
            hide_branch_names: false,
            hide_dependencies: false,
            hide_project_folder: false,
        }
    }
}

impl Settings {
    /// Completes what was read from a file: each absent key takes its
    /// default, an empty text or `false`.
    pub fn from_raw(raw: RawSettings) -> (r: Settings)
        ensures
            completes(raw, r),
    {
        Settings {
            debug: flag_value(raw.debug),
            api_key: text_value(raw.api_key),
            api_key_vault_cmd: text_value(raw.api_key_vault_cmd),
            api_url: text_value(raw.api_url),
            hide_file_names: flag_value(raw.hide_file_names),
            hide_project_names: flag_value(raw.hide_project_names),
            hide_branch_names: flag_value(raw.hide_branch_names),
            hide_dependencies: flag_value(raw.hide_dependencies),
            hide_project_folder: flag_value(raw.hide_project_folder),
        }
    }
}

} // verus!
