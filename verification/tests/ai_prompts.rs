use riptsk::ai_prompts::{
    ask_system, generate_body_system, generate_commit_message_system,
    generate_issue_content_system, generate_pr_description_system, house_rules, summarize_system,
    suggest_project_key_system, triage_system, update_pr_description_system, ASK, GENERATE_BODY,
    GENERATE_COMMIT_MESSAGE, GENERATE_ISSUE_CONTENT, GENERATE_PR_DESCRIPTION, HOUSE_RULES,
    SUGGEST_PROJECT_KEY, SUMMARIZE, TRIAGE, UPDATE_PR_DESCRIPTION,
};

#[test]
fn house_rules_is_non_empty() {
    assert!(!HOUSE_RULES.is_empty());
}

#[test]
fn every_task_prompt_is_non_empty() {
    for prompt in [
        GENERATE_ISSUE_CONTENT,
        GENERATE_BODY,
        SUGGEST_PROJECT_KEY,
        GENERATE_PR_DESCRIPTION,
        TRIAGE,
        SUMMARIZE,
        ASK,
        UPDATE_PR_DESCRIPTION,
        GENERATE_COMMIT_MESSAGE,
    ] {
        assert!(!prompt.is_empty());
    }
}

#[test]
fn every_composed_system_includes_house_rules() {
    for system in [
        generate_issue_content_system(),
        generate_body_system(),
        suggest_project_key_system(),
        generate_pr_description_system(),
        triage_system(),
        summarize_system(),
        ask_system(),
        update_pr_description_system(),
        generate_commit_message_system(),
    ] {
        assert!(system.starts_with(HOUSE_RULES));
    }
}

#[test]
fn house_rules_bans_known_anti_patterns() {
    let rules = house_rules();
    assert!(rules.contains("Looking at"));
    assert!(rules.contains("Would you like"));
    assert!(rules.contains("Let me know"));
}

#[test]
fn composed_prompt_is_rules_blank_line_task() {
    assert_eq!(triage_system(), format!("{HOUSE_RULES}\n\n{TRIAGE}"));
}
