use aish::approval::{Answer, Approval, ApprovalPolicy, InputCancelled};
use aish::config::{Config, ConfigManager};
use aish::dispatch::Operation;
use aish::security::SecurityValidator;

fn manager_at(home: &str) -> ConfigManager {
    let dir = std::path::Path::new(home).join(".aish");
    let file = |name: &str| dir.join(name).to_string_lossy().into_owned();
    ConfigManager::new(
        dir.to_string_lossy().into_owned(),
        file("config.toml"),
        file("tokens.env"),
        file(".aishignore"),
        file("system_prompt.txt"),
    )
}

fn gate(whitelist: &[&str]) -> SecurityValidator {
    let mut config = Config::default();
    config.whitelist = whitelist.iter().map(|p| p.to_string()).collect();
    SecurityValidator::new(config, manager_at("/home/operator"), &Vec::new())
}

fn shell(command: &str) -> Operation {
    Operation::Shell { command: command.to_string() }
}

#[test]
fn accept_all_approves_whatever_the_whitelist_says() {
    let policy = ApprovalPolicy::new(true);
    assert!(policy.is_accept_all());
    let listing = gate(&["^ls"]);
    let empty = gate(&[]);
    for answer in [Answer::Accept, Answer::Reject, Answer::Cancelled] {
        assert_eq!(policy.should_execute(&listing, &shell("ls -la"), answer), Ok(true));
        assert_eq!(policy.should_execute(&listing, &shell("rm -rf /"), answer), Ok(true));
        assert_eq!(policy.should_execute(&empty, &shell("ls -la"), answer), Ok(true));
    }
}

#[test]
fn interactive_returns_the_choice_of_the_operator() {
    let policy = ApprovalPolicy::new(false);
    assert!(!policy.is_accept_all());
    for validator in [gate(&["^ls"]), gate(&[])] {
        let operation = shell("ls -la");
        assert_eq!(policy.should_execute(&validator, &operation, Answer::Accept), Ok(true));
        assert_eq!(policy.should_execute(&validator, &operation, Answer::Reject), Ok(false));
        assert_eq!(
            policy.should_execute(&validator, &operation, Answer::Cancelled),
            Err(InputCancelled)
        );
    }
}

#[test]
fn whitelist_only_changes_the_label_in_accept_all() {
    let policy = ApprovalPolicy::new(true);
    let validator = gate(&["^ls"]);
    assert_eq!(policy.label(&validator, &shell("ls -la")), Approval::Whitelisted);
    assert_eq!(policy.label(&validator, &shell("cat x")), Approval::Automatic);
    assert_eq!(policy.label(&gate(&[]), &shell("ls -la")), Approval::Automatic);
}

#[test]
fn only_shell_commands_are_ever_whitelisted() {
    let policy = ApprovalPolicy::new(true);
    let validator = gate(&["."]);
    let read = Operation::ReadFile { path: "ls".to_string() };
    assert_eq!(policy.label(&validator, &read), Approval::Automatic);
    assert_eq!(policy.label(&validator, &shell("ls")), Approval::Whitelisted);
}

#[test]
fn interactive_approval_is_labelled_as_the_operators() {
    let policy = ApprovalPolicy::new(false);
    assert_eq!(policy.label(&gate(&["^ls"]), &shell("ls -la")), Approval::Operator);
    assert_eq!(policy.label(&gate(&[]), &shell("ls -la")), Approval::Operator);
}
