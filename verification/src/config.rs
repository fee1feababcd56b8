//! The configuration of the agent and the files it is kept in.
use crate::text::{
    concat, contains, decimal, is_substring, lines, lines_of, occurs_at, parse_u32, parsed_u32,
    replace, replaced, slice, starts_with, str_eq, texts, to_chars, trim, trimmed,
    u32_to_string,
};
use vstd::prelude::*;
use vstd::string::*;

verus! {

/// The whole configuration: read once when the program starts and not changed
/// while it runs.
#[derive(Debug, Clone)]
pub struct Config {
    pub llm: LlmConfig,
    pub security: SecurityConfig,
    /// Regular expressions; a shell command that one of them matches is
    /// labelled as whitelisted.
    pub whitelist: Vec<String>,
}

/// Where the model is reached and how it is asked.
#[derive(Debug, Clone)]
pub struct LlmConfig {
    pub provider: String,
    pub api_url: String,
    pub model: String,
    pub max_tokens: u32,
}

/// What the security gate lets through.
#[derive(Debug, Clone)]
pub struct SecurityConfig {
    pub allow_absolute_paths: bool,
    pub allow_config_path_access: bool,
    /// Extensions with their leading dot, compared case-sensitively.
    pub blocked_extensions: Vec<String>,
    pub allowed_operations: OperationPermissions,
}

/// One permission for each kind of operation.
#[derive(Debug, Clone, Copy)]
pub struct OperationPermissions {
    pub fs_makedir: bool,
    pub fs_makefile: bool,
    pub fs_writefile: bool,
    pub fs_readfile: bool,
    pub fs_listdir: bool,
    pub shell: bool,
}

impl OperationPermissions {
    /// The permission of the operation kind named `kind`; a name that is none
    /// of the six kinds has no permission.
    pub open spec fn permits(self, kind: Seq<char>) -> bool {
        if kind == "fs.makedir"@ {
            self.fs_makedir
        } else if kind == "fs.makefile"@ {
            self.fs_makefile
        } else if kind == "fs.writefile"@ {
            self.fs_writefile
        } else if kind == "fs.readfile"@ {
            self.fs_readfile
        } else if kind == "fs.listdir"@ {
            self.fs_listdir
        } else if kind == "shell"@ {
            self.shell
        } else {
            false
        }
    }

    /// Looks up the permission of the operation kind named `kind`.
    pub fn allows(&self, kind: &str) -> (allowed: bool)
        ensures
            allowed == self.permits(kind@),
    {
        if str_eq(kind, "fs.makedir") {
            self.fs_makedir
        } else if str_eq(kind, "fs.makefile") {
            self.fs_makefile
        } else if str_eq(kind, "fs.writefile") {
            self.fs_writefile
        } else if str_eq(kind, "fs.readfile") {
            self.fs_readfile
        } else if str_eq(kind, "fs.listdir") {
            self.fs_listdir
        } else if str_eq(kind, "shell") {
            self.shell
        } else {
            false
        }
    }
}

/// A name that is none of the six kinds of operation has no permission,
/// whatever the configuration says.
pub proof fn law_unknown_kind_is_denied(permissions: OperationPermissions, kind: Seq<char>)
    requires
        kind != "fs.makedir"@,
        kind != "fs.makefile"@,
        kind != "fs.writefile"@,
        kind != "fs.readfile"@,
        kind != "fs.listdir"@,
        kind != "shell"@,
    ensures
        !permissions.permits(kind),
{
}

impl Config {
    /// Whether this is the configuration of a fresh installation.
    pub open spec fn is_fresh(self) -> bool {
        &&& self.llm.provider@ == "OpenAI"@
        &&& self.llm.api_url@ == "https://api.openai.com/v1"@
        &&& self.llm.model@ == "gpt-4"@
        &&& self.llm.max_tokens == 4096
        &&& self.has_fresh_rules()
    }

    /// Whether the rules are those of a fresh installation, but for the two
    /// switches on paths: every kind of operation is allowed, `.env` is the
    /// one blocked extension, and nothing is whitelisted.
    pub open spec fn has_fresh_rules(self) -> bool {
        &&& texts(self.security.blocked_extensions@) == seq![".env"@]
        &&& self.security.allowed_operations.fs_makedir
        &&& self.security.allowed_operations.fs_makefile
        &&& self.security.allowed_operations.fs_writefile
        &&& self.security.allowed_operations.fs_readfile
        &&& self.security.allowed_operations.fs_listdir
        &&& self.security.allowed_operations.shell
        &&& self.whitelist@.len() == 0
    }
}

impl Default for Config {
    /// The configuration of a fresh installation: every operation allowed,
    /// absolute paths and the configuration directory closed, `.env` blocked,
    /// nothing whitelisted.
    fn default() -> (config: Config)
        ensures
            config.is_fresh(),
            !config.security.allow_absolute_paths,
            !config.security.allow_config_path_access,
    {
        let mut blocked: Vec<String> = Vec::new();
        blocked.push(String::from_str(".env"));
        let config = Config {
            llm: LlmConfig {
                provider: String::from_str("OpenAI"),
                api_url: String::from_str("https://api.openai.com/v1"),
                model: String::from_str("gpt-4"),
                max_tokens: 4096,
            },
            security: SecurityConfig {
                allow_absolute_paths: false,
                allow_config_path_access: false,
                blocked_extensions: blocked,
                allowed_operations: OperationPermissions {
                    fs_makedir: true,
                    fs_makefile: true,
                    fs_writefile: true,
                    fs_readfile: true,
                    fs_listdir: true,
                    shell: true,
                },
            },
            whitelist: Vec::new(),
        };
        assert(texts(config.security.blocked_extensions@) =~= seq![".env"@]);
        config
    }
}

/// A setting that can be read and written by its dotted name.
#[derive(Debug, Clone, Copy, PartialEq, Eq, Structural)]
pub enum ConfigKey {
    MaxTokens,
    Model,
    Provider,
    ApiUrl,
    AllowAbsolutePaths,
    AllowConfigPathAccess,
}

/// The setting that `key` names, if it names one.
pub open spec fn key_named(key: Seq<char>) -> Option<ConfigKey> {
    if key == "llm.max_tokens"@ {
        Some(ConfigKey::MaxTokens)
    } else if key == "llm.model"@ {
        Some(ConfigKey::Model)
    } else if key == "llm.provider"@ {
        Some(ConfigKey::Provider)
    } else if key == "llm.api_url"@ {
        Some(ConfigKey::ApiUrl)
    } else if key == "security.allow_absolute_paths"@ {
        Some(ConfigKey::AllowAbsolutePaths)
    } else if key == "security.allow_config_path_access"@ {
        Some(ConfigKey::AllowConfigPathAccess)
    } else {
        None
    }
}

/// `true` or `false`, spelled out.
pub open spec fn bool_text(value: bool) -> Seq<char> {
    if value {
        "true"@
    } else {
        "false"@
    }
}

/// The truth value that `text` spells, if it is exactly `true` or `false`.
pub open spec fn parsed_bool(text: Seq<char>) -> Option<bool> {
    if text == "true"@ {
        Some(true)
    } else if text == "false"@ {
        Some(false)
    } else {
        None
    }
}

/// Why a setting could not be read or written.
#[derive(Debug)]
pub enum ConfigError {
    /// The key names no setting.
    UnknownKey(String),
    /// The value given for a number is no unsigned 32-bit number.
    InvalidNumber(String),
    /// The value given for a switch is neither `true` nor `false`.
    InvalidBool(String),
}

/// What a [`ConfigError`] says, with its texts as sequences of characters.
pub enum ConfigErrorView {
    UnknownKey(Seq<char>),
    InvalidNumber(Seq<char>),
    InvalidBool(Seq<char>),
}

impl View for ConfigError {
    type V = ConfigErrorView;

    open spec fn view(&self) -> ConfigErrorView {
        match self {
            ConfigError::UnknownKey(key) => ConfigErrorView::UnknownKey(key@),
            ConfigError::InvalidNumber(value) => ConfigErrorView::InvalidNumber(value@),
            ConfigError::InvalidBool(value) => ConfigErrorView::InvalidBool(value@),
        }
    }
}

impl ConfigError {
    /// The message shown to the operator.
    pub open spec fn message_text(self) -> Seq<char> {
        match self {
            ConfigError::UnknownKey(key) => "Unknown config key: "@ + key@,
            ConfigError::InvalidNumber(value) => "Invalid number: "@ + value@,
            ConfigError::InvalidBool(value) => "Invalid boolean: "@ + value@,
        }
    }

    /// The message shown to the operator.
    pub fn message(&self) -> (text: String)
        ensures
            text@ == self.message_text(),
    {
        match self {
            ConfigError::UnknownKey(key) => crate::text::concat("Unknown config key: ", key.as_str()),
            ConfigError::InvalidNumber(value) => crate::text::concat(
                "Invalid number: ",
                value.as_str(),
            ),
            ConfigError::InvalidBool(value) => crate::text::concat(
                "Invalid boolean: ",
                value.as_str(),
            ),
        }
    }
}

impl ConfigKey {
    /// Finds the setting that `key` names.
    pub fn parse(key: &str) -> (r: Option<ConfigKey>)
        ensures
            r == key_named(key@),
    {
        if str_eq(key, "llm.max_tokens") {
            Some(ConfigKey::MaxTokens)
        } else if str_eq(key, "llm.model") {
            Some(ConfigKey::Model)
        } else if str_eq(key, "llm.provider") {
            Some(ConfigKey::Provider)
        } else if str_eq(key, "llm.api_url") {
            Some(ConfigKey::ApiUrl)
        } else if str_eq(key, "security.allow_absolute_paths") {
            Some(ConfigKey::AllowAbsolutePaths)
        } else if str_eq(key, "security.allow_config_path_access") {
            Some(ConfigKey::AllowConfigPathAccess)
        } else {
            None
        }
    }
}

impl Config {
    /// The value of a setting, as text.
    pub open spec fn value_of(self, key: ConfigKey) -> Seq<char> {
        match key {
            ConfigKey::MaxTokens => decimal(self.llm.max_tokens as nat),
            ConfigKey::Model => self.llm.model@,
            ConfigKey::Provider => self.llm.provider@,
            ConfigKey::ApiUrl => self.llm.api_url@,
            ConfigKey::AllowAbsolutePaths => bool_text(self.security.allow_absolute_paths),
            ConfigKey::AllowConfigPathAccess => bool_text(self.security.allow_config_path_access),
        }
    }

    /// Whether `value` can be given to the setting `key`.
    pub open spec fn accepts(key: ConfigKey, value: Seq<char>) -> bool {
        match key {
            ConfigKey::MaxTokens => parsed_u32(value) is Some,
            ConfigKey::AllowAbsolutePaths | ConfigKey::AllowConfigPathAccess => parsed_bool(
                value,
            ) is Some,
            _ => true,
        }
    }

    /// Whether `after` is `self` with the setting `key` given the value
    /// `value` and nothing else changed.
    pub open spec fn updated(self, key: ConfigKey, value: Seq<char>, after: Config) -> bool {
        &&& after.whitelist == self.whitelist
        &&& after.security.blocked_extensions == self.security.blocked_extensions
        &&& after.security.allowed_operations == self.security.allowed_operations
        &&& after.llm.max_tokens == if key == ConfigKey::MaxTokens {
            parsed_u32(value).unwrap()
        } else {
            self.llm.max_tokens
        }
        &&& after.llm.model@ == if key == ConfigKey::Model {
            value
        } else {
            self.llm.model@
        }
        &&& after.llm.provider@ == if key == ConfigKey::Provider {
            value
        } else {
            self.llm.provider@
        }
        &&& after.llm.api_url@ == if key == ConfigKey::ApiUrl {
            value
        } else {
            self.llm.api_url@
        }
        &&& after.security.allow_absolute_paths == if key == ConfigKey::AllowAbsolutePaths {
            parsed_bool(value).unwrap()
        } else {
            self.security.allow_absolute_paths
        }
        &&& after.security.allow_config_path_access == if key
            == ConfigKey::AllowConfigPathAccess {
            parsed_bool(value).unwrap()
        } else {
            self.security.allow_config_path_access
        }
    }
}

fn bool_to_string(value: bool) -> (s: String)
    ensures
        s@ == bool_text(value),
{
    if value {
        String::from_str("true")
    } else {
        String::from_str("false")
    }
}

fn parse_bool(text: &str) -> (r: Option<bool>)
    ensures
        r == parsed_bool(text@),
{
    if str_eq(text, "true") {
        Some(true)
    } else if str_eq(text, "false") {
        Some(false)
    } else {
        None
    }
}

/// The name of the configuration directory, which lies in the user's home.
pub const CONFIG_DIR_NAME: &'static str = ".aish";

/// The name of the file, in the configuration directory, that holds the
/// settings.
pub const CONFIG_FILE_NAME: &'static str = "config.toml";

/// The name of the file that holds the API key.
pub const ENV_FILE_NAME: &'static str = "tokens.env";

/// The name of the file that holds the ignore patterns.
pub const IGNORE_FILE_NAME: &'static str = ".aishignore";

/// The name of the file that holds the system prompt.
pub const SYSTEM_PROMPT_FILE_NAME: &'static str = "system_prompt.txt";

/// Where the configuration is kept: the configuration directory and the
/// files in it. How the names of the files are joined to the name of the
/// directory is a matter of the platform and is left to the caller.
#[derive(Debug, Clone)]
pub struct ConfigManager {
    config_dir: String,
    config_path: String,
    env_path: String,
    ignore_path: String,
    system_prompt_path: String,
}

impl ConfigManager {
    /// The manager of the configuration kept in the directory `config_dir`,
    /// with the settings in `config_path`, the API key in `env_path`, the
    /// ignore patterns in `ignore_path` and the system prompt in
    /// `system_prompt_path`.
    pub fn new(
        config_dir: String,
        config_path: String,
        env_path: String,
        ignore_path: String,
        system_prompt_path: String,
    ) -> (manager: ConfigManager)
        ensures
            manager.config_dir() == config_dir@,
            manager.config_path() == config_path@,
            manager.env_path() == env_path@,
            manager.ignore_path() == ignore_path@,
            manager.system_prompt_path() == system_prompt_path@,
    {
        ConfigManager { config_dir, config_path, env_path, ignore_path, system_prompt_path }
    }

    /// The configuration directory.
    pub closed spec fn config_dir(self) -> Seq<char> {
        self.config_dir@
    }

    /// The file that holds the settings.
    pub closed spec fn config_path(self) -> Seq<char> {
        self.config_path@
    }

    /// The file that holds the API key.
    pub closed spec fn env_path(self) -> Seq<char> {
        self.env_path@
    }

    /// The file that holds the ignore patterns.
    pub closed spec fn ignore_path(self) -> Seq<char> {
        self.ignore_path@
    }

    /// The file that holds the system prompt.
    pub closed spec fn system_prompt_path(self) -> Seq<char> {
        self.system_prompt_path@
    }

    /// Whether the program has been set up: both the settings file and the
    /// file with the API key were found.
    pub fn is_initialized(&self, config_found: bool, env_found: bool) -> (ready: bool)
        ensures
            ready == (config_found && env_found),
    {
        config_found && env_found
    }

    /// The configuration directory.
    pub fn get_config_dir(&self) -> (dir: &String)
        ensures
            dir@ == self.config_dir(),
    {
        &self.config_dir
    }

    /// The file that holds the settings.
    pub fn get_config_path(&self) -> (path: &String)
        ensures
            path@ == self.config_path(),
    {
        &self.config_path
    }

    /// The file that holds the API key.
    pub fn get_env_path(&self) -> (path: &String)
        ensures
            path@ == self.env_path(),
    {
        &self.env_path
    }

    /// The file that holds the ignore patterns.
    pub fn get_ignore_path(&self) -> (path: &String)
        ensures
            path@ == self.ignore_path(),
    {
        &self.ignore_path
    }

    /// The file that holds the system prompt.
    pub fn get_system_prompt_path(&self) -> (path: &String)
        ensures
            path@ == self.system_prompt_path(),
    {
        &self.system_prompt_path
    }

    /// The ignore patterns that the ignore file holds, one for each line;
    /// none where the file could not be read.
    pub fn load_ignore_patterns(&self, content: Option<&str>) -> (patterns: Vec<String>)
        ensures
            texts(patterns@) == match content {
                Some(text) => lines_of(text@),
                None => Seq::empty(),
            },
    {
        match content {
            Some(text) => lines(text),
            None => {
                let patterns: Vec<String> = Vec::new();
                patterns
            },
        }
    }

    /// The value of the setting named `key` in `config`, as text. Fails
    /// exactly where `key` names no setting.
    pub fn get_config_value(&self, config: &Config, key: &str) -> (r: Result<String, ConfigError>)
        ensures
            match r {
                Ok(value) => key_named(key@) matches Some(k) && value@ == config.value_of(k),
                Err(error) => key_named(key@) is None && error@ == ConfigErrorView::UnknownKey(
                    key@,
                ),
            },
    {
        match ConfigKey::parse(key) {
            Some(ConfigKey::MaxTokens) => Ok(u32_to_string(config.llm.max_tokens)),
            Some(ConfigKey::Model) => Ok(config.llm.model.clone()),
            Some(ConfigKey::Provider) => Ok(config.llm.provider.clone()),
            Some(ConfigKey::ApiUrl) => Ok(config.llm.api_url.clone()),
            Some(ConfigKey::AllowAbsolutePaths) => Ok(
                bool_to_string(config.security.allow_absolute_paths),
            ),
            Some(ConfigKey::AllowConfigPathAccess) => Ok(
                bool_to_string(config.security.allow_config_path_access),
            ),
            None => Err(ConfigError::UnknownKey(String::from_str(key))),
        }
    }

    /// Gives the setting named `key` the value `value`. Fails, and leaves
    /// `config` as it was, where `key` names no setting or `value` is not of
    /// the setting's type.
    pub fn set_config_value(&self, config: &mut Config, key: &str, value: &str) -> (r: Result<
        (),
        ConfigError,
    >)
        ensures
            match r {
                Ok(()) => key_named(key@) matches Some(k) && Config::accepts(k, value@)
                    && old(config).updated(k, value@, *final(config)),
                Err(error) => *final(config) == *old(config) && error@ == match key_named(key@) {
                    None => ConfigErrorView::UnknownKey(key@),
                    Some(ConfigKey::MaxTokens) => ConfigErrorView::InvalidNumber(value@),
                    Some(_) => ConfigErrorView::InvalidBool(value@),
                } && !(key_named(key@) matches Some(k) && Config::accepts(k, value@)),
            },
    {
        match ConfigKey::parse(key) {
            Some(ConfigKey::MaxTokens) => match parse_u32(value) {
                Some(number) => {
                    config.llm.max_tokens = number;
                    Ok(())
                },
                None => Err(ConfigError::InvalidNumber(String::from_str(value))),
            },
            Some(ConfigKey::Model) => {
                config.llm.model = String::from_str(value);
                Ok(())
            },
            Some(ConfigKey::Provider) => {
                config.llm.provider = String::from_str(value);
                Ok(())
            },
            Some(ConfigKey::ApiUrl) => {
                config.llm.api_url = String::from_str(value);
                Ok(())
            },
            Some(ConfigKey::AllowAbsolutePaths) => match parse_bool(value) {
                Some(flag) => {
                    config.security.allow_absolute_paths = flag;
                    Ok(())
                },
                None => Err(ConfigError::InvalidBool(String::from_str(value))),
            },
            Some(ConfigKey::AllowConfigPathAccess) => match parse_bool(value) {
                Some(flag) => {
                    config.security.allow_config_path_access = flag;
                    Ok(())
                },
                None => Err(ConfigError::InvalidBool(String::from_str(value))),
            },
            None => Err(ConfigError::UnknownKey(String::from_str(key))),
        }
    }
}

/// What is known of the machine that the agent runs on. What is not known is
/// shown by a fixed word.
#[derive(Debug)]
pub struct HostFacts {
    pub hostname: Option<String>,
    pub os: Option<String>,
    pub distribution: Option<String>,
    pub user: Option<String>,
}

/// The text of `known`, or `fallback` where nothing is known.
pub open spec fn known_or(known: Option<String>, fallback: Seq<char>) -> Seq<char> {
    match known {
        Some(text) => text@,
        None => fallback,
    }
}

/// The system prompt of a fresh installation. It holds a placeholder for
/// each thing that is filled in later: `{{HOSTNAME}}`, `{{OS}}`,
/// `{{DISTRIBUTION}}` and `{{USER}}` when the prompt is loaded, `{{CWD}}` and
/// `{{FLAGS}}` each time the model is asked.
pub open spec fn default_system_prompt() -> Seq<char> {
    "You are an assistant that works in the user's shell. You turn what the user asks for into shell commands and file operations, and you carry them out with the tools you are given.\n\nSystem:\n- Hostname: {{HOSTNAME}}\n- Operating system: {{OS}}\n- Distribution: {{DISTRIBUTION}}\n- User: {{USER}}\n- Working directory: {{CWD}}\n\nWorkspace:\n{{FLAGS}}\n\nRules:\n- Use the tools to act; do not ask the user to run commands for you.\n- Prefer relative paths below the working directory.\n- Take one step at a time and look at what a tool gave back before you take the next.\n- When the task is done, answer in plain text and say briefly what you did.\n"@
}

/// `prompt` with what is known of the machine filled in: the host name for
/// `{{HOSTNAME}}`, the operating system for `{{OS}}`, the distribution for
/// `{{DISTRIBUTION}}` and the user for `{{USER}}`, in this order. Any other
/// placeholder stays.
pub open spec fn with_host_facts(prompt: Seq<char>, facts: HostFacts) -> Seq<char> {
    replaced(
        replaced(
            replaced(
                replaced(prompt, "{{HOSTNAME}}"@, known_or(facts.hostname, "unknown"@)),
                "{{OS}}"@,
                known_or(facts.os, "Linux"@),
            ),
            "{{DISTRIBUTION}}"@,
            known_or(facts.distribution, "Unknown"@),
        ),
        "{{USER}}"@,
        known_or(facts.user, "unknown"@),
    )
}

/// The system prompt of a fresh installation.
pub fn get_default_system_prompt() -> (prompt: String)
    ensures
        prompt@ == default_system_prompt(),
{
    String::from_str(
        "You are an assistant that works in the user's shell. You turn what the user asks for into shell commands and file operations, and you carry them out with the tools you are given.\n\nSystem:\n- Hostname: {{HOSTNAME}}\n- Operating system: {{OS}}\n- Distribution: {{DISTRIBUTION}}\n- User: {{USER}}\n- Working directory: {{CWD}}\n\nWorkspace:\n{{FLAGS}}\n\nRules:\n- Use the tools to act; do not ask the user to run commands for you.\n- Prefer relative paths below the working directory.\n- Take one step at a time and look at what a tool gave back before you take the next.\n- When the task is done, answer in plain text and say briefly what you did.\n",
    )
}

fn replace_known(prompt: &str, placeholder: &str, known: &Option<String>, fallback: &str) -> (out:
    String)
    ensures
        out@ == replaced(prompt@, placeholder@, known_or(*known, fallback@)),
{
    match known {
        Some(text) => replace(prompt, placeholder, text.as_str()),
        None => replace(prompt, placeholder, fallback),
    }
}

/// Fills what is known of the machine into `prompt`.
pub fn replace_system_prompt_placeholders(prompt: &str, facts: &HostFacts) -> (out: String)
    ensures
        out@ == with_host_facts(prompt@, *facts),
{
    let named = replace_known(prompt, "{{HOSTNAME}}", &facts.hostname, "unknown");
    let with_os = replace_known(named.as_str(), "{{OS}}", &facts.os, "Linux");
    let with_distribution = replace_known(
        with_os.as_str(),
        "{{DISTRIBUTION}}",
        &facts.distribution,
        "Unknown",
    );
    replace_known(with_distribution.as_str(), "{{USER}}", &facts.user, "unknown")
}

impl ConfigManager {
    /// The system prompt: the one that is stored, or the default one where
    /// none is stored yet, with what is known of the machine filled in.
    pub fn load_system_prompt(&self, stored: Option<&str>, facts: &HostFacts) -> (prompt: String)
        ensures
            prompt@ == with_host_facts(
                match stored {
                    Some(text) => text@,
                    None => default_system_prompt(),
                },
                *facts,
            ),
    {
        match stored {
            Some(text) => replace_system_prompt_placeholders(text, facts),
            None => {
                let default_prompt = get_default_system_prompt();
                replace_system_prompt_placeholders(default_prompt.as_str(), facts)
            },
        }
    }
}

/// The value of a setting in a release file: what stands between its double
/// quotes if it begins and ends with one, else the value without the white
/// space around it.
pub open spec fn release_value(value: Seq<char>) -> Seq<char> {
    if value.len() >= 2 && value[0] == '"' && value.last() == '"' {
        value.subrange(1, value.len() - 1)
    } else {
        trimmed(value)
    }
}

/// The name of the distribution that a line of `os-release` gives: the value
/// of `PRETTY_NAME`, or that of `NAME` where the file has no `PRETTY_NAME` at
/// all (`has_pretty_name`).
pub open spec fn release_line_name(line: Seq<char>, has_pretty_name: bool) -> Option<Seq<char>> {
    if occurs_at(line, 0, "PRETTY_NAME="@) {
        Some(release_value(line.skip(12)))
    } else if occurs_at(line, 0, "NAME="@) && !has_pretty_name {
        Some(release_value(line.skip(5)))
    } else {
        None
    }
}

/// The name that the first of `lines` gives that gives one.
pub open spec fn release_name(lines: Seq<Seq<char>>, has_pretty_name: bool) -> Option<Seq<char>>
    decreases lines.len(),
{
    if lines.len() == 0 {
        None
    } else {
        match release_line_name(lines[0], has_pretty_name) {
            Some(name) => Some(name),
            None => release_name(lines.skip(1), has_pretty_name),
        }
    }
}

/// The name of the distribution: the one that `os-release` gives; else what
/// `redhat-release` holds; else `Debian` and what `debian_version` holds. Each
/// argument is the text of the file, if it could be read.
pub open spec fn distribution(
    os_release: Option<Seq<char>>,
    redhat_release: Option<Seq<char>>,
    debian_version: Option<Seq<char>>,
) -> Option<Seq<char>> {
    let named = match os_release {
        Some(text) => release_name(lines_of(text), is_substring(text, "PRETTY_NAME"@)),
        None => None,
    };
    match named {
        Some(name) => Some(name),
        None => match redhat_release {
            Some(text) => Some(trimmed(text)),
            None => match debian_version {
                Some(text) => Some("Debian "@ + trimmed(text)),
                None => None,
            },
        },
    }
}

fn read_release_value(line: &str, from: usize) -> (value: String)
    requires
        from <= line@.len(),
    ensures
        value@ == release_value(line@.skip(from as int)),
{
    let chars = to_chars(line);
    let n = chars.len();
    if n - from >= 2 && chars[from] == '"' && chars[n - 1] == '"' {
        slice(&chars, from + 1, n - 1)
    } else {
        let rest = slice(&chars, from, n);
        trim(rest.as_str())
    }
}

fn name_of_release_line(line: &str, has_pretty_name: bool) -> (name: Option<String>)
    ensures
        (match name {
            Some(text) => Some(text@),
            None => None,
        }) == release_line_name(line@, has_pretty_name),
{
    proof {
        reveal_strlit("PRETTY_NAME=");
        reveal_strlit("NAME=");
    }
    if starts_with(line, "PRETTY_NAME=") {
        Some(read_release_value(line, 12))
    } else if starts_with(line, "NAME=") && !has_pretty_name {
        Some(read_release_value(line, 5))
    } else {
        None
    }
}

fn name_in_release(text: &str) -> (name: Option<String>)
    ensures
        (match name {
            Some(found) => Some(found@),
            None => None,
        }) == release_name(lines_of(text@), is_substring(text@, "PRETTY_NAME"@)),
{
    let has_pretty_name = contains(text, "PRETTY_NAME");
    let all = lines(text);
    let mut i: usize = 0;
    proof {
        assert(texts(all@).skip(0) =~= texts(all@));
    }
    while i < all.len()
        invariant
            i <= all.len(),
            texts(all@) == lines_of(text@),
            has_pretty_name == is_substring(text@, "PRETTY_NAME"@),
            release_name(lines_of(text@), has_pretty_name) == release_name(
                texts(all@).skip(i as int),
                has_pretty_name,
            ),
        decreases all.len() - i,
    {
        proof {
            assert(texts(all@).skip(i as int).skip(1) =~= texts(all@).skip(i + 1));
        }
        if let Some(name) = name_of_release_line(all[i].as_str(), has_pretty_name) {
            return Some(name);
        }
        i += 1;
    }
    None
}

/// The name of the distribution, read from the release files that could be
/// read.
pub fn get_distribution(
    os_release: Option<&str>,
    redhat_release: Option<&str>,
    debian_version: Option<&str>,
) -> (name: Option<String>)
    ensures
        (match name {
            Some(found) => Some(found@),
            None => None,
        }) == distribution(
            match os_release {
                Some(text) => Some(text@),
                None => None,
            },
            match redhat_release {
                Some(text) => Some(text@),
                None => None,
            },
            match debian_version {
                Some(text) => Some(text@),
                None => None,
            },
        ),
{
    let named = match os_release {
        Some(text) => name_in_release(text),
        None => None,
    };
    if let Some(name) = named {
        return Some(name);
    }
    if let Some(text) = redhat_release {
        return Some(trim(text));
    }
    match debian_version {
        Some(text) => {
            let version = trim(text);
            Some(concat("Debian ", version.as_str()))
        },
        None => None,
    }
}

} // verus!
