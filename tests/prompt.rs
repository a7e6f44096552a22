use ai_research_agent::prompt::{decimal_text, fill_template, render_chat_preamble, render_history};

#[test]
fn empty_history_renders_sentinel() {
    let h: Vec<(String, String)> = Vec::new();
    assert_eq!(render_history(&h), "No previous conversation.");
    let p = render_chat_preamble(&h);
    assert!(p.contains("CONVERSATION HISTORY:\nNo previous conversation.\n"));
}

#[test]
fn two_turns_render_in_order() {
    let h = vec![
        ("q1".to_string(), "a1".to_string()),
        ("q2".to_string(), "a2".to_string()),
    ];
    assert_eq!(
        render_history(&h),
        "[Turn 1]\nUser: q1\nAI: a1\n\n[Turn 2]\nUser: q2\nAI: a2"
    );
}

#[test]
fn decimal_numbers() {
    assert_eq!(decimal_text(0), "0");
    assert_eq!(decimal_text(7), "7");
    assert_eq!(decimal_text(10), "10");
    assert_eq!(decimal_text(12345), "12345");
}

#[test]
fn template_replaces_every_placeholder() {
    assert_eq!(fill_template("a{x}b{x}", "{x}", "Z"), "aZbZ");
    assert_eq!(fill_template("none here", "{x}", "Z"), "none here");
    assert_eq!(fill_template("é{x}ü", "{x}", "ñ"), "éñü");
    assert_eq!(fill_template("abc", "", "Z"), "abc");
}
