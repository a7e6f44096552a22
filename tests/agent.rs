use ai_research_agent::agent::{AgentError, ResearchAgent, SearchResult, TURN_BUDGET};
use ai_research_agent::config::Config;
use ai_research_agent::prompt::{chat_system_prompt, RESEARCH_SYSTEM_PROMPT};

fn hit(title: &str, snippet: &str, url: &str) -> SearchResult {
    SearchResult {
        title: title.to_string(),
        snippet: snippet.to_string(),
        url: url.to_string(),
    }
}

#[test]
fn test_agent_creation() {
    let config = Config::default();
    let agent = ResearchAgent::new(config);

    assert_eq!(agent.config().model, "llama3.2");
    assert!(agent.history().is_empty());
}

#[test]
fn test_system_prompt_not_empty() {
    assert!(!RESEARCH_SYSTEM_PROMPT.is_empty());
    assert!(RESEARCH_SYSTEM_PROMPT.contains("research"));
}

#[test]
fn test_chat_system_prompt_not_empty() {
    let prompt = chat_system_prompt();
    assert!(!prompt.is_empty());
    assert!(prompt.contains("history"));
}

#[test]
fn test_clear_history() {
    let config = Config::default();
    let mut agent = ResearchAgent::new(config);

    assert!(agent.history().is_empty());

    agent.chat("test", Ok("response".to_string())).unwrap();
    assert_eq!(agent.history().len(), 1);

    agent.clear_history();
    assert!(agent.history().is_empty());
}

#[test]
fn test_history_getter() {
    let config = Config::default();
    let agent = ResearchAgent::new(config);

    assert_eq!(agent.history().len(), 0);
}

#[test]
fn chat_turns_are_recorded_in_call_order() {
    let mut agent = ResearchAgent::new(Config::default());
    let calls = [("q1", "a1"), ("q2", "a2"), ("q3", "a3")];
    for (q, a) in calls.iter() {
        let r = agent.chat(q, Ok(a.to_string())).unwrap();
        assert_eq!(r, *a);
    }
    let h = agent.history();
    assert_eq!(h.len(), 3);
    for (i, (q, a)) in calls.iter().enumerate() {
        assert_eq!(h[i].0, *q);
        assert_eq!(h[i].1, *a);
    }
}

#[test]
fn chat_failure_keeps_history() {
    let mut agent = ResearchAgent::new(Config::default());
    agent.chat("first", Ok("one".to_string())).unwrap();
    let r = agent.chat("second", Err("connection refused".to_string()));
    match r {
        Err(AgentError::Completion(m)) => {
            assert_eq!(m, "Agent execution failed: connection refused")
        }
        _ => panic!("expected a completion failure"),
    }
    assert_eq!(agent.history().len(), 1);
    assert_eq!(agent.history()[0].0, "first");
}

#[test]
fn chat_rejects_empty_query() {
    let mut agent = ResearchAgent::new(Config::default());
    assert!(matches!(
        agent.chat("", Ok("x".to_string())),
        Err(AgentError::EmptyQuery)
    ));
    assert!(agent.history().is_empty());
    assert!(matches!(agent.chat_request(""), Err(AgentError::EmptyQuery)));
}

#[test]
fn clear_history_on_empty_is_noop() {
    let mut agent = ResearchAgent::new(Config::default());
    agent.clear_history();
    assert!(agent.history().is_empty());
    agent.clear_history();
    assert!(agent.history().is_empty());
}

#[test]
fn chat_request_carries_history_and_budget() {
    let mut agent = ResearchAgent::new(Config::default());
    let first = agent.chat_request("What is Rust?").ok().unwrap();
    assert!(first.preamble.contains("No previous conversation."));
    assert!(!first.preamble.contains("{history}"));
    assert_eq!(first.turn_budget, TURN_BUDGET);
    assert_eq!(first.turn_budget, 5);
    assert_eq!(first.model, "llama3.2");
    assert_eq!(first.host, "http://localhost:11434");
    assert_eq!(first.tool.name, "web_search");
    assert_eq!(first.tool.max_results, 5);
    assert_eq!(
        first.message,
        "Research and answer the following question. Use the web_search tool to find current information, then provide a comprehensive summary with sources:\n\nWhat is Rust?"
    );

    agent.chat("q1", Ok("a1".to_string())).unwrap();
    agent.chat("q2", Ok("a2".to_string())).unwrap();
    let next = agent.chat_request("q3").ok().unwrap();
    let block = "[Turn 1]\nUser: q1\nAI: a1\n\n[Turn 2]\nUser: q2\nAI: a2";
    assert!(next.preamble.contains(block));
    assert!(!next.preamble.contains("No previous conversation."));
    assert!(next.preamble.starts_with("\nYou are an AI research assistant."));
    assert!(next.preamble.contains(&format!("CONVERSATION HISTORY:\n{}\n\nWhen the user asks", block)));
}

#[test]
fn research_uses_fixed_preamble() {
    let mut agent = ResearchAgent::new(Config::default());
    agent.chat("q1", Ok("a1".to_string())).unwrap();
    let req = agent.research_request("topic").ok().unwrap();
    assert_eq!(req.preamble, RESEARCH_SYSTEM_PROMPT);
    assert!(req.message.starts_with("Research the following topic thoroughly."));
    assert!(req.message.ends_with("\n\ntopic"));
    assert_eq!(agent.research("topic", Ok("summary".to_string())).ok().unwrap(), "summary");
    match agent.research("topic", Err("boom".to_string())) {
        Err(AgentError::Completion(m)) => assert_eq!(m, "Agent execution failed: boom"),
        _ => panic!("expected a completion failure"),
    }
    assert_eq!(agent.history().len(), 1);
}

#[test]
fn quick_search_without_results_names_query() {
    let agent = ResearchAgent::new(Config::default());
    let out = agent.quick_search("rust async", Ok(Vec::new())).ok().unwrap();
    assert_eq!(out, "No results found for: rust async");
    assert!(!out.contains("1."));
}

#[test]
fn quick_search_lists_results_in_adapter_order() {
    let agent = ResearchAgent::new(Config::default());
    let results = vec![
        hit("Zeta", "last letter", "https://z.example"),
        hit("Alpha", "first letter", "https://a.example"),
    ];
    let out = agent.quick_search("letters", Ok(results)).ok().unwrap();
    assert_eq!(
        out,
        "## Search Results\n\n1. **Zeta**\n   last letter\n   URL: https://z.example\n\n2. **Alpha**\n   first letter\n   URL: https://a.example\n"
    );
    assert!(!out.contains("3."));
}

#[test]
fn quick_search_numbers_past_nine() {
    let agent = ResearchAgent::new(Config::default());
    let mut results = Vec::new();
    for i in 0..12 {
        results.push(hit(&format!("t{}", i), "s", "u"));
    }
    let out = agent.quick_search("many", Ok(results)).ok().unwrap();
    assert!(out.contains("12. **t11**\n"));
    assert!(out.contains("10. **t9**\n"));
    assert!(!out.contains("13."));
}

#[test]
fn quick_search_failure_keeps_context() {
    let agent = ResearchAgent::new(Config::default());
    match agent.quick_search("q", Err("timed out".to_string())) {
        Err(AgentError::Search(m)) => assert_eq!(m, "Search failed: timed out"),
        _ => panic!("expected a search failure"),
    }
}

#[test]
fn error_messages() {
    assert_eq!(AgentError::EmptyQuery.message(), "No query provided");
    assert_eq!(AgentError::Search("x".to_string()).message(), "x");
}
