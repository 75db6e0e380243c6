//! The settings of a profile, and what is derived from them: the chat
//! backend's address and model, the two modes, and where the external
//! tools are found.

use crate::text::{
    clone_optional, ends_with, has_suffix, non_blank, normalize_optional, sanitize, sanitized,
    trim, trimmed,
};
use vstd::prelude::*;
use vstd::string::*;

verus! {

/// The settings of a profile as they are stored.
#[derive(Debug)]
pub struct ProfileSettings {
    pub version: i32,
    pub openclaw_path: Option<String>,
    pub openclaw_profile: Option<String>,
    /// The base address of the chat backend.
    pub ollama_base_url: Option<String>,
    /// The model of the chat backend.
    pub ollama_model: Option<String>,
    /// Whether any shell command may run without asking.
    pub dev_full_exec_auto: Option<bool>,
    /// Whether requests for action are met with tool calls.
    pub auto_do_mode: Option<bool>,
}

/// `ProfileSettings` with its texts as sequences of characters.
pub ghost struct ProfileSettingsView {
    pub version: i32,
    pub openclaw_path: Option<Seq<char>>,
    pub openclaw_profile: Option<Seq<char>>,
    pub ollama_base_url: Option<Seq<char>>,
    pub ollama_model: Option<Seq<char>>,
    pub dev_full_exec_auto: Option<bool>,
    pub auto_do_mode: Option<bool>,
}

impl View for ProfileSettings {
    type V = ProfileSettingsView;

    open spec fn view(&self) -> ProfileSettingsView {
        ProfileSettingsView {
            version: self.version,
            openclaw_path: self.openclaw_path.deep_view(),
            openclaw_profile: self.openclaw_profile.deep_view(),
            ollama_base_url: self.ollama_base_url.deep_view(),
            ollama_model: self.ollama_model.deep_view(),
            dev_full_exec_auto: self.dev_full_exec_auto,
            auto_do_mode: self.auto_do_mode,
        }
    }
}

impl Clone for ProfileSettings {
    fn clone(&self) -> (r: Self)
        ensures
            r == *self,
    {
        ProfileSettings {
            version: self.version,
            openclaw_path: clone_optional(&self.openclaw_path),
            openclaw_profile: clone_optional(&self.openclaw_profile),
            ollama_base_url: clone_optional(&self.ollama_base_url),
            ollama_model: clone_optional(&self.ollama_model),
            dev_full_exec_auto: self.dev_full_exec_auto,
            auto_do_mode: self.auto_do_mode,
        }
    }
}

impl Default for ProfileSettings {
    /// Settings in which nothing is set.
    fn default() -> (r: Self)
        ensures
            r@ == ProfileSettingsView::unset(),
    {
        ProfileSettings {
            version: 0,
            openclaw_path: None,
            openclaw_profile: None,
            ollama_base_url: None,
            ollama_model: None,
            dev_full_exec_auto: None,
            auto_do_mode: None,
        }
    }
}

/// The base address of the chat backend where none is set.
pub open spec fn default_base_url() -> Seq<char> {
    "http://localhost:11434"@
}

/// The model of the chat backend where none is set.
pub open spec fn default_model() -> Seq<char> {
    "ollama/huihui_ai/qwen3-abliterated:8b"@
}

impl ProfileSettingsView {
    /// Settings in which nothing is set.
    pub open spec fn unset() -> ProfileSettingsView {
        ProfileSettingsView {
            version: 0,
            openclaw_path: None,
            openclaw_profile: None,
            ollama_base_url: None,
            ollama_model: None,
            dev_full_exec_auto: None,
            auto_do_mode: None,
        }
    }

    /// The settings of a profile that has stored none.
    pub open spec fn initial() -> ProfileSettingsView {
        ProfileSettingsView {
            version: 1,
            openclaw_path: None,
            openclaw_profile: None,
            ollama_base_url: Some(default_base_url()),
            ollama_model: Some(default_model()),
            dev_full_exec_auto: Some(false),
            auto_do_mode: Some(false),
        }
    }

    /// Stored settings with their gaps filled: version zero counts as
    /// one, a missing address or model is the default one, and a missing
    /// mode is off.
    pub open spec fn backfilled(self) -> ProfileSettingsView {
        ProfileSettingsView {
            version: if self.version == 0 {
                1
            } else {
                self.version
            },
            ollama_base_url: match self.ollama_base_url {
                Some(u) => Some(u),
                None => Some(default_base_url()),
            },
            ollama_model: match self.ollama_model {
                Some(m) => Some(m),
                None => Some(default_model()),
            },
            dev_full_exec_auto: match self.dev_full_exec_auto {
                Some(b) => Some(b),
                None => Some(false),
            },
            auto_do_mode: match self.auto_do_mode {
                Some(b) => Some(b),
                None => Some(false),
            },
            ..self
        }
    }

    /// The base address of the chat backend.
    pub open spec fn base_url(self) -> Seq<char> {
        match self.ollama_base_url {
            Some(u) => u,
            None => default_base_url(),
        }
    }

    /// The model of the chat backend, with its provider prefix.
    pub open spec fn model_id(self) -> Seq<char> {
        match self.ollama_model {
            Some(m) => m,
            None => default_model(),
        }
    }

    /// Whether any shell command may run.
    pub open spec fn full_exec(self) -> bool {
        self.dev_full_exec_auto == Some(true)
    }

    /// Whether requests for action are met with tool calls.
    pub open spec fn auto_act(self) -> bool {
        self.auto_do_mode == Some(true)
    }
}

impl ProfileSettings {
    /// The settings of a profile that has stored none.
    pub fn initial() -> (r: Self)
        ensures
            r@ == ProfileSettingsView::initial(),
    {
        ProfileSettings {
            version: 1,
            openclaw_path: None,
            openclaw_profile: None,
            ollama_base_url: Some(String::from_str("http://localhost:11434")),
            ollama_model: Some(String::from_str("ollama/huihui_ai/qwen3-abliterated:8b")),
            dev_full_exec_auto: Some(false),
            auto_do_mode: Some(false),
        }
    }

    /// The base address of the chat backend.
    pub fn base_url(&self) -> (r: String)
        ensures
            r@ == self@.base_url(),
    {
        match &self.ollama_base_url {
            Some(u) => u.clone(),
            None => String::from_str("http://localhost:11434"),
        }
    }

    /// The model of the chat backend, with its provider prefix.
    pub fn model_id(&self) -> (r: String)
        ensures
            r@ == self@.model_id(),
    {
        match &self.ollama_model {
            Some(m) => m.clone(),
            None => String::from_str("ollama/huihui_ai/qwen3-abliterated:8b"),
        }
    }

    /// Whether any shell command may run.
    pub fn full_exec(&self) -> (r: bool)
        ensures
            r == self@.full_exec(),
    {
        match self.dev_full_exec_auto {
            Some(b) => b,
            None => false,
        }
    }

    /// Whether requests for action are met with tool calls.
    pub fn auto_act(&self) -> (r: bool)
        ensures
            r == self@.auto_act(),
    {
        match self.auto_do_mode {
            Some(b) => b,
            None => false,
        }
    }
}

/// The view of optional stored settings.
pub open spec fn stored_view(stored: Option<ProfileSettings>) -> Option<ProfileSettingsView> {
    match stored {
        Some(s) => Some(s@),
        None => None,
    }
}

/// The settings of a profile, from what is stored for it: the initial
/// settings where nothing is stored, else the stored ones with their gaps
/// filled.
pub fn load_settings(stored: Option<ProfileSettings>) -> (r: ProfileSettings)
    ensures
        r@ == (match stored_view(stored) {
            Some(s) => s.backfilled(),
            None => ProfileSettingsView::initial(),
        }),
{
    let mut s = match stored {
        Some(s) => s,
        None => { return ProfileSettings::initial(); },
    };
    if s.version == 0 {
        s.version = 1;
    }
    if s.ollama_base_url.is_none() {
        s.ollama_base_url = Some(String::from_str("http://localhost:11434"));
    }
    if s.ollama_model.is_none() {
        s.ollama_model = Some(String::from_str("ollama/huihui_ai/qwen3-abliterated:8b"));
    }
    if s.dev_full_exec_auto.is_none() {
        s.dev_full_exec_auto = Some(false);
    }
    if s.auto_do_mode.is_none() {
        s.auto_do_mode = Some(false);
    }
    s
}

/// What a search for a program found: the trimmed output of the search
/// where it succeeded and printed something.
pub open spec fn which_found(success: bool, stdout: Seq<char>) -> Option<Seq<char>> {
    if success && trimmed(stdout).len() > 0 {
        Some(trimmed(stdout))
    } else {
        None
    }
}

/// Reads the outcome of a search for a program on the search path.
pub fn which(success: bool, stdout: &str) -> (r: Option<String>)
    ensures
        r.deep_view() == which_found(success, stdout@),
{
    if !success {
        return None;
    }
    let p = trim(stdout);
    if p.as_str().unicode_len() == 0 {
        None
    } else {
        Some(p)
    }
}

/// Where the script runner is looked for when the search path has none.
pub open spec fn brew_node() -> Seq<char> {
    "/opt/homebrew/bin/node"@
}

/// The script runner that is taken when no other is found.
pub open spec fn fallback_node() -> Seq<char> {
    "/Users/aasish/.nvm/versions/node/v22.22.0/bin/node"@
}

/// The tool that is taken when no other is found.
pub open spec fn fallback_openclaw() -> Seq<char> {
    "/Users/aasish/.nvm/versions/node/v22.22.0/bin/openclaw"@
}

/// The script runner: the one on the search path, else the packaged one
/// where it exists, else the fallback.
pub open spec fn node_bin(found: Option<Seq<char>>, brew_exists: bool) -> Seq<char> {
    match found {
        Some(p) => p,
        None => if brew_exists {
            brew_node()
        } else {
            fallback_node()
        },
    }
}

/// Chooses the script runner from what the search path has (`found`) and
/// whether the packaged one exists.
pub fn resolve_node_bin(found: Option<String>, brew_exists: bool) -> (r: String)
    ensures
        r@ == node_bin(found.deep_view(), brew_exists),
{
    match found {
        Some(p) => p,
        None => {
            if brew_exists {
                String::from_str("/opt/homebrew/bin/node")
            } else {
                String::from_str("/Users/aasish/.nvm/versions/node/v22.22.0/bin/node")
            }
        },
    }
}

/// Whether a path names a script that needs the script runner.
pub fn is_node_script(path: &str) -> (r: bool)
    ensures
        r == (has_suffix(path@, ".mjs"@) || has_suffix(path@, ".js"@)),
{
    ends_with(path, ".mjs") || ends_with(path, ".js")
}

/// The tool: the one the settings name, else the one on the search path,
/// else the fallback.
pub open spec fn openclaw_bin(settings: ProfileSettingsView, found: Option<Seq<char>>) -> Seq<char> {
    match settings.openclaw_path {
        Some(p) => p,
        None => match found {
            Some(p) => p,
            None => fallback_openclaw(),
        },
    }
}

/// Chooses the tool from the settings and from what the search path has.
pub fn resolve_openclaw_bin(settings: &ProfileSettings, found: Option<String>) -> (r: String)
    ensures
        r@ == openclaw_bin(settings@, found.deep_view()),
{
    match &settings.openclaw_path {
        Some(p) => p.clone(),
        None => match found {
            Some(p) => p,
            None => String::from_str("/Users/aasish/.nvm/versions/node/v22.22.0/bin/openclaw"),
        },
    }
}

/// The tool profile of a profile: the one the settings name, trimmed,
/// where that is not blank; else `ocd-` and the profile's name with every
/// character that is no ASCII letter or digit replaced by a hyphen.
pub open spec fn openclaw_profile(settings: ProfileSettingsView, profile_id: Seq<char>) -> Seq<
    char,
> {
    match non_blank(settings.openclaw_profile) {
        Some(p) => p,
        None => "ocd-"@ + sanitized(profile_id),
    }
}

/// Chooses the tool profile of a profile.
pub fn resolve_openclaw_profile(settings: &ProfileSettings, profile_id: &str) -> (r: String)
    ensures
        r@ == openclaw_profile(settings@, profile_id@),
{
    match &settings.openclaw_profile {
        Some(p) => {
            let t = trim(p.as_str());
            if t.as_str().unicode_len() > 0 {
                return t;
            }
        },
        None => {},
    }
    let safe = sanitize(profile_id);
    let mut name = String::from_str("ocd-");
    name.append(safe.as_str());
    name
}

/// Sets where the tool is found; a blank path unsets it. The version
/// becomes one.
pub fn settings_set_openclaw_path(s: &mut ProfileSettings, openclaw_path: Option<String>)
    ensures
        final(s)@ == (ProfileSettingsView {
            version: 1,
            openclaw_path: non_blank(openclaw_path.deep_view()),
            ..old(s)@
        }),
{
    s.version = 1;
    s.openclaw_path = normalize_optional(openclaw_path);
}

/// Sets the base address of the chat backend; a blank one unsets it.
pub fn settings_set_ollama_base_url(s: &mut ProfileSettings, ollama_base_url: Option<String>)
    ensures
        final(s)@ == (ProfileSettingsView {
            ollama_base_url: non_blank(ollama_base_url.deep_view()),
            ..old(s)@
        }),
{
    s.ollama_base_url = normalize_optional(ollama_base_url);
}

/// Sets the model of the chat backend; a blank one unsets it.
pub fn settings_set_ollama_model(s: &mut ProfileSettings, ollama_model: Option<String>)
    ensures
        final(s)@ == (ProfileSettingsView {
            ollama_model: non_blank(ollama_model.deep_view()),
            ..old(s)@
        }),
{
    s.ollama_model = normalize_optional(ollama_model);
}

/// Sets whether any shell command may run.
pub fn settings_set_dev_full_exec_auto(s: &mut ProfileSettings, enabled: bool)
    ensures
        final(s)@ == (ProfileSettingsView { dev_full_exec_auto: Some(enabled), ..old(s)@ }),
{
    s.dev_full_exec_auto = Some(enabled);
}

/// Sets whether requests for action are met with tool calls.
pub fn settings_set_auto_do_mode(s: &mut ProfileSettings, enabled: bool)
    ensures
        final(s)@ == (ProfileSettingsView { auto_do_mode: Some(enabled), ..old(s)@ }),
{
    s.auto_do_mode = Some(enabled);
}

} // verus!
