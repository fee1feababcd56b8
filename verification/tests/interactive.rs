use aish::cli::init::{asks_for_details, providers, run_init_wizard, InitAnswers};
use aish::cli::interactive::{interpret, ReplStep};

#[test]
fn a_request_is_submitted_without_the_white_space_around_it() {
    assert!(matches!(interpret(false, Some("  list files \n")), ReplStep::Submit(t) if t == "list files"));
    assert!(matches!(interpret(false, Some("quit now")), ReplStep::Submit(t) if t == "quit now"));
    assert!(matches!(interpret(false, Some("exits")), ReplStep::Submit(_)));
    assert!(matches!(interpret(false, Some("qu it")), ReplStep::Submit(_)));
}

#[test]
fn an_empty_line_is_passed_over() {
    assert!(matches!(interpret(false, Some("")), ReplStep::Again));
    assert!(matches!(interpret(false, Some("  \t ")), ReplStep::Again));
    assert!(matches!(interpret(true, Some("")), ReplStep::Again));
}

#[test]
fn quit_and_exit_end_the_mode_in_any_case() {
    for word in ["quit", "exit", "QUIT", "Exit", "  eXiT  ", "qUiT\n"] {
        assert!(
            matches!(interpret(false, Some(word)), ReplStep::Exit { announce: true }),
            "{:?}",
            word
        );
    }
}

#[test]
fn words_with_other_letters_do_not_end_the_mode() {
    for word in ["quıt", "ｑuit", "exıt", "qu\u{130}t"] {
        assert!(matches!(interpret(false, Some(word)), ReplStep::Submit(_)), "{:?}", word);
        assert!(word.to_lowercase() != "quit" && word.to_lowercase() != "exit");
    }
}

#[test]
fn an_abandoned_prompt_ends_the_mode() {
    assert!(matches!(interpret(false, None), ReplStep::Exit { announce: false }));
    assert!(matches!(interpret(true, None), ReplStep::Exit { announce: true }));
}

#[test]
fn three_providers_are_offered() {
    let offered = providers();
    let names: Vec<&str> = offered.iter().map(|p| p.name).collect();
    assert_eq!(names, vec!["OpenAI", "OpenRouter", "Custom"]);
    assert_eq!(offered[0].api_url, "https://api.openai.com/v1");
    assert_eq!(offered[0].model, "gpt-4");
    assert_eq!(offered[1].api_url, "https://openrouter.ai/api/v1");
    assert_eq!(offered[1].model, "openai/gpt-4");
    assert_eq!(offered[2].api_url, "");
    assert!(asks_for_details("Custom"));
    assert!(!asks_for_details("OpenAI"));
    assert!(!asks_for_details("custom"));
}

fn answers(provider: &str, max_tokens: &str) -> InitAnswers {
    InitAnswers {
        provider: provider.to_string(),
        api_url: "http://localhost:8080/v1".to_string(),
        model: "local-model".to_string(),
        max_tokens: max_tokens.to_string(),
        allow_absolute_paths: true,
        allow_config_path_access: false,
    }
}

#[test]
fn a_known_provider_brings_its_address_and_model() {
    let config = run_init_wizard(answers("OpenRouter", "2048"));
    assert_eq!(config.llm.provider, "OpenRouter");
    assert_eq!(config.llm.api_url, "https://openrouter.ai/api/v1");
    assert_eq!(config.llm.model, "openai/gpt-4");
    assert_eq!(config.llm.max_tokens, 2048);
    assert!(config.security.allow_absolute_paths);
    assert!(!config.security.allow_config_path_access);
    assert_eq!(config.security.blocked_extensions, vec![".env".to_string()]);
    assert!(config.security.allowed_operations.shell);
    assert!(config.whitelist.is_empty());
    let config = run_init_wizard(answers("OpenAI", "2048"));
    assert_eq!(config.llm.api_url, "https://api.openai.com/v1");
    assert_eq!(config.llm.model, "gpt-4");
}

#[test]
fn a_custom_provider_takes_what_was_given() {
    let config = run_init_wizard(answers("Custom", "100"));
    assert_eq!(config.llm.provider, "Custom");
    assert_eq!(config.llm.api_url, "http://localhost:8080/v1");
    assert_eq!(config.llm.model, "local-model");
    assert_eq!(config.llm.max_tokens, 100);
}

#[test]
fn a_limit_that_is_no_number_leaves_the_default() {
    assert_eq!(run_init_wizard(answers("OpenAI", "lots")).llm.max_tokens, 4096);
    assert_eq!(run_init_wizard(answers("OpenAI", "")).llm.max_tokens, 4096);
    assert_eq!(run_init_wizard(answers("OpenAI", "-1")).llm.max_tokens, 4096);
    assert_eq!(run_init_wizard(answers("OpenAI", "0")).llm.max_tokens, 0);
}
