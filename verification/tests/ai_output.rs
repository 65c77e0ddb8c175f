use riptsk::ai::{
    ai_command_failure, ask_input, classify_and_hint, format_stderr_lines, parse_issue_content_output,
    parse_triage_output, project_key_request, sanitize_issue_body, truncate_preview,
    validate_commit_message_output, AiErrorKind, GeneratedIssueContent, TITLE_MAX_LEN,
};
use riptsk::error::RiptskError;

// The AI command's standard output, as `sh -c` prints it for each command
// template of the original scenarios, is what these tests feed the parser.

#[test]
fn generate_issue_content_parses_valid_json() {
    let output = "{\"title\":\"Fix login\",\"body\":\"## Description\\n\\nDetails\"}";
    let result = parse_issue_content_output(output).expect("issue content");
    assert_eq!(
        result,
        GeneratedIssueContent {
            title: "Fix login".into(),
            body: "## Description\n\nDetails".into(),
        }
    );
}

#[test]
fn generate_issue_content_rejects_non_json_prose() {
    let output = "Investigate mobile timeout\n\n## Description\n\nDetails";
    let err = parse_issue_content_output(output).expect_err("non-json prose should be rejected");
    assert!(err.to_string().contains("malformed JSON"));
}

#[test]
fn generate_issue_content_rejects_empty_output() {
    let err = parse_issue_content_output("").expect_err("empty output");
    assert!(err.to_string().contains("empty output"));
}

#[test]
fn sanitize_strips_preface_rule_and_trailing_question() {
    let input = "I'll generate a concise issue body for this GitHub issue. Based on the context, here's a suggested format:\n\n---\n\n## Description\n\nFix the login bug.\n\n- [ ] Reproduce\n- [ ] Patch\n\n---\n\nWould you like me to adjust the description, add more detail, or modify any of the checklist items?";
    let sanitized = sanitize_issue_body(input).expect("sanitized body");
    assert!(sanitized.starts_with("## Description"));
    assert!(sanitized.ends_with("- [ ] Patch"));
    assert!(!sanitized.contains("I'll generate"));
    assert!(!sanitized.contains("Would you like me"));
}

#[test]
fn sanitize_strips_preface_only_when_no_rule() {
    let input = "Here's the issue body:\n\n## Description\n\nFix bug.";
    let sanitized = sanitize_issue_body(input).expect("sanitized body");
    assert_eq!(sanitized, "## Description\n\nFix bug.");
}

#[test]
fn sanitize_passthrough_clean_body() {
    let input = "## Description\n\nFix bug.";
    let sanitized = sanitize_issue_body(input).expect("sanitized body");
    assert_eq!(sanitized, input);
}

#[test]
fn sanitize_preserves_internal_horizontal_rule() {
    let input = "## Section A\n\nBody.\n\n---\n\n## Section B\n\nMore body.";
    let sanitized = sanitize_issue_body(input).expect("sanitized body");
    assert_eq!(sanitized, input);
}

#[test]
fn sanitize_preserves_body_starting_with_rule() {
    let input = "---\n\n## Description\n\nFix bug.";
    let sanitized = sanitize_issue_body(input).expect("sanitized body");
    assert_eq!(sanitized, input);
}

#[test]
fn sanitize_preserves_yaml_example_with_dashes() {
    let input = "## Description\n\n```yaml\n---\nfake: frontmatter\n---\n```\n";
    let sanitized = sanitize_issue_body(input).expect("sanitized body");
    assert_eq!(sanitized, input.trim());
}

#[test]
fn sanitize_strips_only_matching_trailing_question() {
    let input = "## Description\n\nFix bug.\n\nWould you like me to adjust the description?";
    let sanitized = sanitize_issue_body(input).expect("sanitized body");
    assert_eq!(sanitized, "## Description\n\nFix bug.");
}

#[test]
fn sanitize_preserves_legitimate_question_in_body() {
    let input = "## Description\n\nWhy does the login form reject valid emails?";
    let sanitized = sanitize_issue_body(input).expect("sanitized body");
    assert_eq!(sanitized, input);
}

#[test]
fn sanitize_returns_error_when_emptied() {
    let input = "I'll generate a body.\n\n---\n\nWould you like me to adjust?";
    let err = sanitize_issue_body(input).expect_err("empty sanitized body");
    assert!(err.to_string().contains("removed all content"));
}

#[test]
fn generate_body_returns_sanitized_output() {
    let output = "I'll generate a concise issue body. Based on the context, here's a suggested format:\n\n---\n\n## Description\n\nFix the login bug.\n\n- [ ] Reproduce\n- [ ] Patch\n\n---\n\nWould you like me to adjust the description?";
    let result = sanitize_issue_body(output).expect("sanitized body");
    assert_eq!(
        result,
        "## Description\n\nFix the login bug.\n\n- [ ] Reproduce\n- [ ] Patch"
    );
}

#[test]
fn generate_issue_content_sanitizes_parsed_body() {
    let output = "{\"title\":\"Fix login\",\"body\":\"I'll generate a concise issue body. Based on the context, here's a suggested format:\\n\\n---\\n\\n## Description\\n\\nFix the login bug.\\n\\n- [ ] Reproduce\\n- [ ] Patch\\n\\n---\\n\\nWould you like me to adjust the description?\"}";
    let result = parse_issue_content_output(output).expect("issue content");
    assert_eq!(result.title, "Fix login");
    assert_eq!(
        result.body,
        "## Description\n\nFix the login bug.\n\n- [ ] Reproduce\n- [ ] Patch"
    );
}

#[test]
fn generate_issue_content_rejects_prosed_fallback_body() {
    let output = "I'll generate a concise issue body. Based on the context, here's a suggested format:\n\n---\n\n# Investigate mobile timeout\n\n## Description\n\nDetails\n\n---\n\nWould you like me to adjust the description?";
    let err = parse_issue_content_output(output).expect_err("prose fallback should be rejected");
    assert!(err.to_string().contains("malformed JSON"));
}

#[test]
fn generate_issue_content_rejects_fenced_json() {
    let output = "```json\n{\"title\":\"Fix login\",\"body\":\"Details\"}\n```";
    let err = parse_issue_content_output(output).expect_err("fenced json should be rejected");
    assert!(err.to_string().contains("fenced output"));
}

#[test]
fn generate_issue_content_rejects_extra_keys() {
    let output = "{\"title\":\"Fix login\",\"body\":\"Details\",\"notes\":\"z\"}";
    let err = parse_issue_content_output(output).expect_err("extra keys should be rejected");
    assert!(err.to_string().contains("malformed JSON"));
}

#[test]
fn generate_issue_content_rejects_multiline_title() {
    let output = "{\"title\":\"line1\\nline2\",\"body\":\"Details\"}";
    let err = parse_issue_content_output(output).expect_err("multiline title should be rejected");
    assert!(err.to_string().contains("multiline title"));
}

#[test]
fn generate_issue_content_rejects_question_title() {
    let output = "{\"title\":\"What should we do?\",\"body\":\"Details\"}";
    let err = parse_issue_content_output(output).expect_err("question title should be rejected");
    assert!(err.to_string().contains("question title"));
}

#[test]
fn generate_issue_content_rejects_conversational_title() {
    let output = "{\"title\":\"Looking at the diff, you've made two important improvements...\",\"body\":\"Details\"}";
    let err =
        parse_issue_content_output(output).expect_err("conversational title should be rejected");
    assert!(err.to_string().contains("conversational"));
}

#[test]
fn generate_issue_content_rejects_overlong_title() {
    let title = "a".repeat(TITLE_MAX_LEN + 1);
    let output = format!("{{\"title\":\"{title}\",\"body\":\"Details\"}}");
    let err = parse_issue_content_output(&output).expect_err("overlong title should be rejected");
    assert!(err.to_string().contains("exceeds"));
}

#[test]
fn generate_issue_content_strips_trailing_prose_from_json_body() {
    let output = "{\"title\":\"Fix login\",\"body\":\"## Description\\n\\nDetails\\n\\nWould you like me to commit these changes?\"}";
    let result = parse_issue_content_output(output).expect("issue content");
    assert_eq!(result.body, "## Description\n\nDetails");
}

#[test]
fn generate_issue_content_real_example_a_rejected() {
    let output = "Looking at the diff, you've made two important improvements to the agent Dockerfile:\n\n1. **Retry loop for package installation** — Wraps `zypper install` in a 3-attempt loop with metadata refresh between retries to handle temporary CDN 404s\n2. **Pre-create bind mount parent directories** — Creates `.local/lib` and `.local/state/agent-cost` with correct ownership before the non-root user runs, preventing Docker's auto-creation as root:root from breaking writes\n\nWould you like me to commit these changes? I can use the `/commit` skill to create a conventional commit with the full context.";
    let err = parse_issue_content_output(output).expect_err("real example a should be rejected");
    assert!(err.to_string().contains("malformed JSON"));
}

#[test]
fn generate_issue_content_real_example_b_rejected() {
    let output = "Looking at these changes, I can see you're adding support for:\n1. **MCP auth caching** (`.agent.json` and `mcp-needs-auth-cache.json` to sync files)\n2. **Plugins directory** (adding `plugins/` to linked directories)\n\nWhat would you like me to do with these changes?\n- Commit them (with a commit message)?\n- Review them for completeness?";
    let err = parse_issue_content_output(output).expect_err("real example b should be rejected");
    assert!(err.to_string().contains("malformed JSON"));
}

#[test]
fn commit_message_validator_accepts_valid_message() {
    let message = "feat(cli): add new flag\n\nDetail line.";
    assert_eq!(
        validate_commit_message_output(message).expect("valid commit message"),
        message
    );
}

#[test]
fn commit_message_validator_rejects_fenced() {
    let err = validate_commit_message_output("```text\nfeat(cli): add new flag\n```")
        .expect_err("fenced commit message should be rejected");
    assert!(err.to_string().contains("fenced commit message"));
}

#[test]
fn commit_message_validator_rejects_conversational() {
    let err = validate_commit_message_output(
        "Looking at the diff, you've made two important improvements...",
    )
    .expect_err("conversational commit subject should be rejected");
    assert!(
        err.to_string().contains("exceeds 72 chars")
            || err.to_string().contains("ends with a period")
            || err.to_string().contains("conventional commits")
            || err.to_string().contains("conversational opener")
    );
}

#[test]
fn commit_message_validator_rejects_invalid_subject() {
    let err = validate_commit_message_output("added a thing\n\nDetail line.")
        .expect_err("invalid subject should be rejected");
    assert!(err.to_string().contains("conventional commits"));
}

#[test]
fn commit_message_validator_rejects_overlong_subject() {
    let subject = format!("feat: {}", "a".repeat(67));
    let err = validate_commit_message_output(&subject)
        .expect_err("overlong subject should be rejected");
    assert!(err.to_string().contains("exceeds 72 chars"));
}

#[test]
fn commit_message_validator_rejects_overlong_body_line() {
    let message = format!("feat(cli): add new flag\n\n{}", "a".repeat(73));
    let err = validate_commit_message_output(&message)
        .expect_err("overlong body line should be rejected");
    assert!(err.to_string().contains("body line exceeds 72 chars"));
}

#[test]
fn commit_message_validator_rejects_missing_blank_line() {
    let err = validate_commit_message_output("feat(cli): add new flag\nDetail line.")
        .expect_err("missing blank line should be rejected");
    assert!(err.to_string().contains("missing blank line"));
}

#[test]
fn commit_message_validator_rejects_trailing_period() {
    let err = validate_commit_message_output("feat(cli): add new flag.\n\nDetail line.")
        .expect_err("trailing period should be rejected");
    assert!(err.to_string().contains("ends with a period"));
}

#[test]
fn commit_message_validator_accepts_multibyte_subject_within_char_limit() {
    let subject = format!("feat(cli): {}", "é".repeat(61));
    assert_eq!(subject.chars().count(), 72);
    assert!(subject.len() > 72);
    let result = validate_commit_message_output(&subject)
        .expect("multibyte subject within char limit should be accepted");
    assert_eq!(result, subject);
}

#[test]
fn commit_message_validator_accepts_multibyte_body_within_char_limit() {
    let body_line = "é".repeat(72);
    let message = format!("feat(cli): add\n\n{body_line}");
    assert!(body_line.len() > 72);
    let result = validate_commit_message_output(&message)
        .expect("multibyte body line within char limit should be accepted");
    assert_eq!(result, message);
}

#[test]
fn generate_issue_content_rejects_smart_apostrophe_conversational_title() {
    let output = "{\"title\":\"I\u{2019}ll fix the bug\",\"body\":\"Details\"}";
    let err = parse_issue_content_output(output)
        .expect_err("smart-apostrophe conversational title should be rejected");
    assert!(err.to_string().contains("conversational"));
}

#[test]
fn generate_issue_content_rejects_fullwidth_question_title() {
    let output = "{\"title\":\"What now\u{FF1F}\",\"body\":\"Details\"}";
    let err = parse_issue_content_output(output)
        .expect_err("fullwidth question title should be rejected");
    assert!(err.to_string().contains("question title"));
}

#[test]
fn auth_like_output_classifies_as_auth() {
    let (kind, hint) = classify_and_hint("401 unauthorized token missing", "1");
    assert_eq!(kind, AiErrorKind::Auth);
    assert_eq!(hint, "check the API token or key used by ai.command");
}

#[test]
fn token_limit_output_is_not_auth() {
    let (kind, _) = classify_and_hint("max tokens exceeded", "1");
    assert_eq!(kind, AiErrorKind::Execution);
}

#[test]
fn missing_command_classifies_as_config() {
    let (kind, _) = classify_and_hint("sh: 1: nonexistent_command_xyz_12345: not found", "127");
    assert_eq!(kind, AiErrorKind::Config);
    let (kind, _) = classify_and_hint("sh: 1: nonexistent_command_xyz_12345: not found", "1");
    assert_eq!(kind, AiErrorKind::Execution);
}

#[test]
fn network_output_classifies_as_network() {
    let (kind, _) = classify_and_hint("HTTP 503 Service Unavailable", "1");
    assert_eq!(kind, AiErrorKind::Network);
}

#[test]
fn failure_report_prefers_stdout_when_stderr_empty() {
    let err = ai_command_failure("echo 'error on stdout'; exit 1", Some(1), "error on stdout\n", "");
    let message = err.to_string();
    assert!(message.starts_with("ai.command failed (exit status 1)\n  command: echo 'error on stdout'; exit 1\n  stderr:\n    <empty>\n  stdout:\n    error on stdout\n  hint: "));
    assert!(matches!(err, RiptskError::General(_)));
}

#[test]
fn failure_report_redacts_system_and_input() {
    let err = ai_command_failure("false {{system}} {{input}}", Some(1), "", "");
    let message = err.to_string();
    assert!(message.contains("command: false '<redacted>' '<redacted>'"));
    assert!(message.contains("hint:"));
}

#[test]
fn failure_report_for_signal_says_unknown() {
    let err = ai_command_failure("x", None, "", "401 unauthorized");
    assert!(err.to_string().starts_with("ai.command failed (exit status unknown)"));
    assert!(matches!(err, RiptskError::Auth(_)));
}

#[test]
fn stderr_lines_are_indented_and_capped_at_five() {
    assert_eq!(format_stderr_lines(""), "    <empty>");
    assert_eq!(format_stderr_lines("a\nb"), "    a\n    b");
    assert_eq!(format_stderr_lines("1\n2\n3\n4\n5\n6\n7"), "    1\n    2\n    3\n    4\n    5");
}

#[test]
fn preview_is_cut_to_two_hundred_chars() {
    let long = "x".repeat(250);
    let cut = truncate_preview(&long);
    assert_eq!(cut.chars().count(), 200);
    assert!(cut.ends_with("..."));
    assert_eq!(truncate_preview("short"), "short");
}

#[test]
fn triage_reads_status_priority_and_string_labels() {
    let t = parse_triage_output("{\"status\":\"todo\",\"priority\":\"high\",\"labels\":[\"bug\",3,\"ui\"]}")
        .expect("triage");
    assert_eq!(t.state.as_deref(), Some("todo"));
    assert_eq!(t.priority.as_deref(), Some("high"));
    assert_eq!(t.labels, vec!["bug".to_string(), "ui".to_string()]);
    let empty = parse_triage_output("[1,2]").expect("non-object");
    assert_eq!(empty.state, None);
    assert!(empty.labels.is_empty());
    let err = parse_triage_output("not json").expect_err("invalid");
    assert!(err.to_string().starts_with("invalid AI triage response: "));
}

#[test]
fn project_key_request_lists_taken_keys() {
    let (system, input) =
        project_key_request("riptsk", "github", &vec!["ABC".to_string(), "DEF".to_string()]);
    assert!(system.ends_with("\n\nAlready-taken keys to avoid: ABC, DEF"));
    assert_eq!(input, "repo: riptsk\nbackend: github\n");
    assert_eq!(ask_input("why?", "ctx"), "Question: why?\n\nIssues:\nctx");
}
