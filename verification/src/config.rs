//! Configuration records -- the API provider settings and the application
//! settings -- their defaults, their validation, and the paths under which
//! the configuration store keeps them.

use crate::strutil::{all_blank, is_all_blank};
use vstd::prelude::*;
use vstd::string::StringExecFns;

verus! {

/// Settings for reaching a model provider's API.
#[derive(Debug)]
pub struct ApiConfig {
    pub provider: String,
    pub api_key: Option<String>,
    pub base_url: String,
    pub model: String,
    pub timeout: u64,
    pub proxy: Option<String>,
}

/// The field values every fresh [`ApiConfig`] gets besides its provider.
pub open spec fn api_config_base_fields(c: ApiConfig) -> bool {
    &&& c.api_key is None
    &&& c.base_url@ == "https://api.openai.com/v1"@
    &&& c.model@ == "gpt-4"@
    &&& c.timeout == 30
    &&& c.proxy is None
}

impl ApiConfig {
    /// A configuration for the given provider, with the stock defaults for
    /// everything else.
    pub fn new(provider: String) -> (c: ApiConfig)
        ensures
            c.provider == provider,
            api_config_base_fields(c),
    {
        ApiConfig {
            provider,
            api_key: None,
            base_url: String::from_str("https://api.openai.com/v1"),
            model: String::from_str("gpt-4"),
            timeout: 30,
            proxy: None,
        }
    }

    /// Whether the configuration can be used: provider, API key, and base
    /// URL all carry more than whitespace (a missing key counts as blank).
    pub fn is_valid(&self) -> (r: bool)
        ensures
            r == (!all_blank(self.provider@) && (self.api_key is Some && !all_blank(
                self.api_key->0@,
            )) && !all_blank(self.base_url@)),
    {
        if is_all_blank(self.provider.as_str()) {
            return false;
        }
        match &self.api_key {
            None => false,
            Some(key) => {
                if is_all_blank(key.as_str()) {
                    false
                } else {
                    !is_all_blank(self.base_url.as_str())
                }
            },
        }
    }
}

impl Default for ApiConfig {
    /// The stock configuration: the default provider with the stock fields.
    fn default() -> (c: ApiConfig)
        ensures
            c.provider@ == "openai"@,
            api_config_base_fields(c),
    {
        ApiConfig::new(String::from_str("openai"))
    }
}

/// Application-wide settings.
#[derive(Debug)]
pub struct AppConfig {
    pub workspace_path: String,
    pub language: String,
    pub theme: String,
    pub font_size: u32,
    pub auto_save: bool,
    pub auto_save_interval: u64,
}

/// The field values every fresh [`AppConfig`] gets besides its workspace
/// path.
pub open spec fn app_config_base_fields(c: AppConfig) -> bool {
    &&& c.language@ == "zh-CN"@
    &&& c.theme@ == "light"@
    &&& c.font_size == 14
    &&& c.auto_save
    &&& c.auto_save_interval == 30
}

/// Whether a configuration passes [`validate_config`]: a non-blank workspace
/// path, a font size between 8 and 72, and an auto-save interval between 5
/// and 300 seconds.
pub open spec fn valid_app_config(c: AppConfig) -> bool {
    &&& !all_blank(c.workspace_path@)
    &&& 8 <= c.font_size <= 72
    &&& 5 <= c.auto_save_interval <= 300
}

impl AppConfig {
    /// A configuration rooted at the given workspace path, with the stock
    /// defaults for everything else.
    pub fn new(workspace_path: String) -> (c: AppConfig)
        ensures
            c.workspace_path == workspace_path,
            app_config_base_fields(c),
    {
        AppConfig {
            workspace_path,
            language: String::from_str("zh-CN"),
            theme: String::from_str("light"),
            font_size: 14,
            auto_save: true,
            auto_save_interval: 30,
        }
    }

    /// The stock configuration for a user with the given home directory: the
    /// workspace lives under `cto-skills/workspace` in it.
    pub fn default_for_home(home: &str) -> (c: AppConfig)
        ensures
            c.workspace_path@ == home@ + "/cto-skills/workspace"@,
            app_config_base_fields(c),
    {
        AppConfig::new(String::from_str(home).concat("/cto-skills/workspace"))
    }
}

/// Checks a configuration: `Ok(true)` exactly when it is valid, else the
/// message naming the first check that failed, in the order workspace path,
/// font size, auto-save interval.
pub fn validate_config(config: &AppConfig) -> (r: Result<bool, String>)
    ensures
        r is Ok <==> valid_app_config(*config),
        r is Ok ==> r->Ok_0,
        all_blank(config.workspace_path@) ==> r is Err && r->Err_0@
            == "Workspace path cannot be empty"@,
        !all_blank(config.workspace_path@) && !(8 <= config.font_size <= 72) ==> r is Err
            && r->Err_0@ == "Font size must be between 8 and 72"@,
        !all_blank(config.workspace_path@) && 8 <= config.font_size <= 72 && !(5
            <= config.auto_save_interval <= 300) ==> r is Err && r->Err_0@
            == "Auto save interval must be between 5 and 300 seconds"@,
{
    if is_all_blank(config.workspace_path.as_str()) {
        return Err(String::from_str("Workspace path cannot be empty"));
    }
    if config.font_size < 8 || config.font_size > 72 {
        return Err(String::from_str("Font size must be between 8 and 72"));
    }
    if config.auto_save_interval < 5 || config.auto_save_interval > 300 {
        return Err(String::from_str("Auto save interval must be between 5 and 300 seconds"));
    }
    Ok(true)
}

/// The configuration store's knowledge of where everything lives: the
/// workspace root it was constructed with.
pub struct ConfigService {
    root: String,
}

impl View for ConfigService {
    type V = Seq<char>;

    closed spec fn view(&self) -> Seq<char> {
        self.root@
    }
}

impl ConfigService {
    /// A store rooted at the given workspace directory.
    pub fn new(root: String) -> (s: ConfigService)
        ensures
            s@ == root@,
    {
        ConfigService { root }
    }

    /// The directory holding the configuration files.
    pub fn config_dir(&self) -> (r: String)
        ensures
            r@ == self@ + "/config"@,
    {
        let mut p = self.root.clone();
        p.append("/config");
        p
    }

    /// The file holding the API configuration.
    pub fn api_config_path(&self) -> (r: String)
        ensures
            r@ == self@ + "/config/api_config.json"@,
    {
        let mut p = self.root.clone();
        p.append("/config/api_config.json");
        p
    }

    /// The file holding the application configuration.
    pub fn app_config_path(&self) -> (r: String)
        ensures
            r@ == self@ + "/config/app_config.json"@,
    {
        let mut p = self.root.clone();
        p.append("/config/app_config.json");
        p
    }

    /// The directory holding the chat history.
    pub fn chat_history_dir(&self) -> (r: String)
        ensures
            r@ == self@ + "/chat-history"@,
    {
        let mut p = self.root.clone();
        p.append("/chat-history");
        p
    }

    /// The file holding the persisted chat sessions.
    pub fn sessions_path(&self) -> (r: String)
        ensures
            r@ == self@ + "/chat-history/sessions.json"@,
    {
        let mut p = self.root.clone();
        p.append("/chat-history/sessions.json");
        p
    }
}

} // verus!
