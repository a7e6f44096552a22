use ai_research_agent::agent::AgentError;
use ai_research_agent::classify::{classify_failure, Hint};
use ai_research_agent::config::{Config, ConfigError};
use ai_research_agent::session::{interpret_line, select_mode, Command, Mode};

#[test]
fn connection_refused_hints_start_backend() {
    let h = classify_failure("error sending request: connection refused (os error 111)");
    assert_eq!(h, Some(Hint::StartBackend));
    assert!(h.unwrap().text().contains("ollama serve"));
}

#[test]
fn missing_model_hints_install() {
    let h = classify_failure("model 'llama9' not found, try pulling it first");
    assert_eq!(h, Some(Hint::InstallModel));
    assert!(h.unwrap().text().contains("ollama pull"));
}

#[test]
fn unrelated_failure_has_no_hint() {
    assert_eq!(classify_failure("request timed out"), None);
    assert_eq!(classify_failure(""), None);
}

#[test]
fn connection_signature_wins_over_model() {
    assert_eq!(
        classify_failure("model server: connection refused"),
        Some(Hint::StartBackend)
    );
}

#[test]
fn mode_selection() {
    assert!(matches!(select_mode(None, true, false), Ok(Mode::Interactive)));
    assert!(matches!(
        select_mode(Some("q".to_string()), true, true),
        Ok(Mode::Interactive)
    ));
    match select_mode(Some("query text".to_string()), false, false) {
        Ok(Mode::Full(q)) => assert_eq!(q, "query text"),
        _ => panic!("expected full mode"),
    }
    match select_mode(Some("q".to_string()), false, true) {
        Ok(Mode::Quick(q)) => assert_eq!(q, "q"),
        _ => panic!("expected quick mode"),
    }
    assert!(matches!(select_mode(None, false, false), Err(AgentError::EmptyQuery)));
}

#[test]
fn interactive_commands() {
    assert!(matches!(interpret_line("quit\n"), Command::Quit));
    assert!(matches!(interpret_line("  EXIT  "), Command::Quit));
    assert!(matches!(interpret_line("Clear\n"), Command::Clear));
    assert!(matches!(interpret_line("   \n"), Command::Skip));
    match interpret_line("  What is Rust?\n") {
        Command::Ask(q) => assert_eq!(q, "What is Rust?"),
        _ => panic!("expected a question"),
    }
    match interpret_line("quit now") {
        Command::Ask(q) => assert_eq!(q, "quit now"),
        _ => panic!("expected a question"),
    }
}

#[test]
fn config_validation() {
    assert_eq!(Config::default().validate(), Ok(()));
    let c = Config::new(String::new(), "http://h".to_string(), 3);
    assert_eq!(c.validate(), Err(ConfigError::EmptyModel));
    let c = Config::new("m".to_string(), "localhost:11434".to_string(), 3);
    assert_eq!(c.validate(), Err(ConfigError::InvalidHost));
    let c = Config::new("m".to_string(), "https://".to_string(), 3);
    assert_eq!(c.validate(), Err(ConfigError::InvalidHost));
    let c = Config::new("m".to_string(), "https://h".to_string(), 0);
    assert_eq!(c.validate(), Err(ConfigError::NoSearchResults));
    let c = Config::new("m".to_string(), "https://h".to_string(), 1);
    assert_eq!(c.validate(), Ok(()));
}
