//! The first set-up: from what the operator answered to a configuration.
use crate::config::Config;
use crate::text::{parse_u32, parsed_u32, str_eq};
use vstd::prelude::*;
use vstd::string::*;

verus! {

/// A service that the agent can be set up for: its name, where it is reached
/// and the model that is asked there.
#[derive(Debug, Clone, Copy)]
pub struct Provider {
    pub name: &'static str,
    pub api_url: &'static str,
    pub model: &'static str,
}

/// What the operator answered.
#[derive(Debug)]
pub struct InitAnswers {
    /// The name of the service that was chosen.
    pub provider: String,
    /// The address that was given, asked only for a service of one's own.
    pub api_url: String,
    /// The model that was given, asked only for a service of one's own.
    pub model: String,
    /// What was typed for the largest number of tokens.
    pub max_tokens: String,
    pub allow_absolute_paths: bool,
    pub allow_config_path_access: bool,
}

/// Whether the service named `name` is one of the operator's own, for which
/// the address and the model are asked.
pub open spec fn is_custom(name: Seq<char>) -> bool {
    name == "Custom"@
}

/// The address of the service named `name`, if it is one that is known.
pub open spec fn known_url(name: Seq<char>) -> Option<Seq<char>> {
    if name == "OpenAI"@ {
        Some("https://api.openai.com/v1"@)
    } else if name == "OpenRouter"@ {
        Some("https://openrouter.ai/api/v1"@)
    } else if name == "Custom"@ {
        Some(""@)
    } else {
        None
    }
}

/// The model of the service named `name`, if it is one that is known.
pub open spec fn known_model(name: Seq<char>) -> Option<Seq<char>> {
    if name == "OpenAI"@ {
        Some("gpt-4"@)
    } else if name == "OpenRouter"@ {
        Some("openai/gpt-4"@)
    } else if name == "Custom"@ {
        Some(""@)
    } else {
        None
    }
}

/// The services that are offered, in the order in which they are shown. The
/// last one stands for a service of the operator's own.
pub fn providers() -> (list: Vec<Provider>)
    ensures
        list@.len() == 3,
        forall|i: int|
            0 <= i < 3 ==> known_url(#[trigger] list@[i].name@) == Some(list@[i].api_url@)
                && known_model(list@[i].name@) == Some(list@[i].model@),
        list@[0].name@ == "OpenAI"@,
        list@[1].name@ == "OpenRouter"@,
        list@[2].name@ == "Custom"@,
{
    proof {
        reveal_strlit("OpenAI");
        reveal_strlit("OpenRouter");
        reveal_strlit("Custom");
        assert("OpenRouter"@.len() == 10);
        assert("OpenAI"@[0] == 'O');
    }
    vec![
        Provider { name: "OpenAI", api_url: "https://api.openai.com/v1", model: "gpt-4" },
        Provider {
            name: "OpenRouter",
            api_url: "https://openrouter.ai/api/v1",
            model: "openai/gpt-4",
        },
        Provider { name: "Custom", api_url: "", model: "" },
    ]
}

/// Whether the address and the model are asked for the service named `name`.
pub fn asks_for_details(name: &str) -> (custom: bool)
    ensures
        custom == is_custom(name@),
{
    str_eq(name, "Custom")
}

/// The configuration that the answers make. It is the configuration of a
/// fresh installation but for the service, the limit and the two switches.
/// The address and the model are those that were given for a service of
/// one's own, and those of the service otherwise. A limit that is no number
/// leaves the limit of a fresh installation.
pub fn run_init_wizard(answers: InitAnswers) -> (config: Config)
    requires
        known_url(answers.provider@) is Some,
    ensures
        config.llm.provider@ == answers.provider@,
        config.llm.api_url@ == if is_custom(answers.provider@) {
            answers.api_url@
        } else {
            known_url(answers.provider@).unwrap()
        },
        config.llm.model@ == if is_custom(answers.provider@) {
            answers.model@
        } else {
            known_model(answers.provider@).unwrap()
        },
        config.llm.max_tokens == match parsed_u32(answers.max_tokens@) {
            Some(limit) => limit,
            None => 4096,
        },
        config.security.allow_absolute_paths == answers.allow_absolute_paths,
        config.security.allow_config_path_access == answers.allow_config_path_access,
        config.has_fresh_rules(),
{
    let mut config = Config::default();
    if str_eq(answers.provider.as_str(), "Custom") {
        config.llm.api_url = answers.api_url;
        config.llm.model = answers.model;
    } else if str_eq(answers.provider.as_str(), "OpenAI") {
        config.llm.api_url = String::from_str("https://api.openai.com/v1");
        config.llm.model = String::from_str("gpt-4");
    } else {
        config.llm.api_url = String::from_str("https://openrouter.ai/api/v1");
        config.llm.model = String::from_str("openai/gpt-4");
    }
    config.llm.provider = answers.provider;
    match parse_u32(answers.max_tokens.as_str()) {
        Some(limit) => {
            config.llm.max_tokens = limit;
        },
        None => {},
    }
    config.security.allow_absolute_paths = answers.allow_absolute_paths;
    config.security.allow_config_path_access = answers.allow_config_path_access;
    config
}

} // verus!
