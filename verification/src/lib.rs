//! Plain-text issue tracking for the terminal: the decision logic behind the
//! `tsk` command line, with its contracts.

pub mod text;
pub mod error;
pub mod ai_prompts;
pub mod backend;
pub mod domain;
pub mod regex_match;
pub mod shell_quote;
pub mod timestamps;
pub mod json_read;
pub mod json_text;
pub mod base64_form;
pub mod command_template;
pub mod ai;
pub mod jira;
pub mod jira_api;
pub mod github_checks;
pub mod pull_request;
pub mod cli;
pub mod issues;
pub mod issue_create;
pub mod init;
pub mod done;
pub mod git;
pub mod gitlab;
pub mod picker;
pub mod templates;
pub mod sync;
pub mod branch;
pub mod start;
pub mod commit;
pub mod ai_commands;
pub mod config_cmd;
pub mod work_clone;
pub mod views;
pub mod recur;
pub mod github_records;
pub mod workflow_yaml;
pub mod required_contexts;
pub mod done_flow;
