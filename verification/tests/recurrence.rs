use riptsk::cli::{ConfigScope, RecurArgs, RecurNewArgs, RecurSubcommand};
use riptsk::domain::{IssueFrontmatter, IssueState, Priority};
use riptsk::error::RiptskError;
use riptsk::recur::{
    apply_recurrence, contains_id, new_recurrence, parse_frequency, recur_run_commit_message,
    recurrence_layer, recurrence_new_args, recurrence_template_name, run, skip_target,
    summarize_recurrence_writes, RecurRequirement, RecurrenceFrequency, RecurringDef,
};

fn weekly_args() -> RecurNewArgs {
    RecurNewArgs {
        id: "standup".into(),
        title_pattern: "Standup {date}".into(),
        frequency: "weekly".into(),
        day_of_week: Some("Monday".into()),
        ..Default::default()
    }
}

fn config_message(r: Result<RecurringDef, RiptskError>) -> String {
    match r {
        Err(RiptskError::Config(m)) => m,
        other => panic!("expected a config error, got {other:?}"),
    }
}

fn frontmatter() -> IssueFrontmatter {
    IssueFrontmatter {
        id: "T-1".to_string(),
        title: "Weekly review".to_string(),
        status: IssueState::Todo,
        board: "personal".to_string(),
        project: "test".to_string(),
        org: None,
        priority: None,
        labels: vec!["old".into()],
        assignees: Vec::new(),
        milestone: None,
        state_reason: None,
        cycle: None,
        order: Some(3),
        gitlab: None,
        github: None,
        jira: None,
        local_updated_at: "2025-01-01T00:00:00Z".to_string(),
        due: None,
        weight: None,
        confidential: None,
        discussion_locked: None,
        issue_type: None,
        locked: None,
        lock_reason: None,
        recurring: None,
        remote_deleted: false,
        id_slug: None,
        branch: None,
        pr_url: None,
        pr_number: None,
    }
}

#[test]
fn frequency_names_round_trip() {
    for f in [
        RecurrenceFrequency::Daily,
        RecurrenceFrequency::Weekly,
        RecurrenceFrequency::Monthly,
        RecurrenceFrequency::Yearly,
    ] {
        assert_eq!(parse_frequency(f.as_str()), Some(f));
    }
    assert_eq!(parse_frequency("hourly"), None);
}

#[test]
fn state_and_priority_names_round_trip() {
    for s in [
        IssueState::Backlog,
        IssueState::Todo,
        IssueState::InProgress,
        IssueState::Review,
        IssueState::Done,
    ] {
        assert_eq!(IssueState::from_name(s.as_str()), Some(s));
    }
    for p in [Priority::Low, Priority::Medium, Priority::High, Priority::Urgent] {
        assert_eq!(Priority::from_name(p.as_str()), Some(p));
    }
    assert_eq!(IssueState::from_name("Done"), None);
}

#[test]
fn new_weekly_recurrence_is_built_from_the_arguments() {
    let def = new_recurrence(weekly_args(), &vec!["other".into()], "2025-03-01").unwrap();
    assert_eq!(def.id, "standup");
    assert_eq!(def.template, "task");
    assert_eq!(def.frequency, RecurrenceFrequency::Weekly);
    assert_eq!(def.day_of_week, Some("monday".to_string()));
    assert_eq!(def.start, Some("2025-03-01".to_string()));
    assert_eq!(def.last_run, None);
}

#[test]
fn new_recurrence_refusals() {
    let dup = new_recurrence(weekly_args(), &vec!["standup".into()], "2025-03-01");
    assert_eq!(config_message(dup), "duplicate recurrence id: standup");

    let mut bad_freq = weekly_args();
    bad_freq.frequency = "hourly".into();
    assert_eq!(
        config_message(new_recurrence(bad_freq, &Vec::new(), "2025-03-01")),
        "invalid frequency: hourly"
    );

    let mut no_day = weekly_args();
    no_day.day_of_week = None;
    assert_eq!(
        config_message(new_recurrence(no_day, &Vec::new(), "2025-03-01")),
        "day_of_week is required for weekly recurrences"
    );

    let mut bad_day = weekly_args();
    bad_day.day_of_week = Some("Funday".into());
    assert_eq!(
        config_message(new_recurrence(bad_day, &Vec::new(), "2025-03-01")),
        "invalid day_of_week: Funday (expected: monday-sunday)"
    );

    let mut monthly = weekly_args();
    monthly.frequency = "monthly".into();
    monthly.day_of_week = None;
    assert_eq!(
        config_message(new_recurrence(monthly.clone(), &Vec::new(), "2025-03-01")),
        "day_of_month is required for monthly recurrences"
    );
    monthly.day_of_month = Some(32);
    assert_eq!(
        config_message(new_recurrence(monthly.clone(), &Vec::new(), "2025-03-01")),
        "day_of_month must be 1-31, got 32"
    );
    monthly.day_of_month = Some(15);
    let def = new_recurrence(monthly, &Vec::new(), "2025-03-01").unwrap();
    assert_eq!(def.day_of_month, Some(15));

    let mut bad_start = weekly_args();
    bad_start.start = Some("2025-13-40".into());
    assert!(matches!(
        new_recurrence(bad_start, &Vec::new(), "2025-03-01"),
        Err(RiptskError::Config(_))
    ));

    let mut good_dates = weekly_args();
    good_dates.start = Some("2025-01-06".into());
    good_dates.end = Some("2025-12-29".into());
    let def = new_recurrence(good_dates, &Vec::new(), "2025-03-01").unwrap();
    assert_eq!(def.start, Some("2025-01-06".to_string()));
    assert_eq!(def.end, Some("2025-12-29".to_string()));

    let mut bad_status = weekly_args();
    bad_status.status = Some("later".into());
    assert!(matches!(
        new_recurrence(bad_status, &Vec::new(), "2025-03-01"),
        Err(RiptskError::Other(_))
    ));
}

#[test]
fn template_names_of_definitions() {
    assert_eq!(recurrence_template_name("templates/weekly-review.md"), "weekly-review");
    assert_eq!(recurrence_template_name("bug.md"), "bug");
    assert_eq!(recurrence_template_name("task"), "task");
    assert_eq!(recurrence_template_name("templates/bug"), "templates/bug");
}

#[test]
fn due_definition_becomes_new_arguments_and_patch() {
    let mut def = new_recurrence(weekly_args(), &Vec::new(), "2025-03-01").unwrap();
    def.template = "templates/weekly-review.md".into();
    def.status = Some(IssueState::Backlog);
    def.labels = vec!["ritual".into()];
    def.assignee = Some("me".into());
    let args = recurrence_new_args(&def, "Standup 2025-03-03".into());
    assert_eq!(args.title.as_deref(), Some("Standup 2025-03-03"));
    assert_eq!(args.template.as_deref(), Some("weekly-review"));
    assert_eq!(args.status.as_deref(), Some("backlog"));
    assert!(!args.ai && !args.edit);

    let mut fm = frontmatter();
    apply_recurrence(&mut fm, &def);
    assert_eq!(fm.recurring.as_deref(), Some("standup"));
    assert_eq!(fm.labels, vec!["ritual".to_string()]);
    assert_eq!(fm.assignees, vec!["me".to_string()]);
    assert_eq!(fm.org, None);
    assert_eq!(fm.order, Some(3));
}

#[test]
fn recurrence_layer_prefers_local_then_user_then_system() {
    let local = vec!["a".to_string()];
    let user = vec!["a".to_string(), "b".to_string()];
    let system = vec!["c".to_string()];
    assert_eq!(recurrence_layer("a", Some(&local), Some(&user), Some(&system)), Some(ConfigScope::Local));
    assert_eq!(recurrence_layer("b", Some(&local), Some(&user), Some(&system)), Some(ConfigScope::User));
    assert_eq!(recurrence_layer("c", None, Some(&user), Some(&system)), Some(ConfigScope::System));
    assert_eq!(recurrence_layer("d", Some(&local), Some(&user), Some(&system)), None);
    assert!(contains_id(&user, "b"));
}

#[test]
fn skip_needs_a_known_id() {
    let known = vec!["standup".to_string()];
    assert_eq!(skip_target(Some("standup".into()), &known).unwrap(), "standup");
    match skip_target(None, &known) {
        Err(RiptskError::General(m)) => assert_eq!(m, "missing recurrence id"),
        other => panic!("unexpected {other:?}"),
    }
    match skip_target(Some("nope".into()), &known) {
        Err(RiptskError::Config(m)) => assert_eq!(m, "unknown recurrence id: nope"),
        other => panic!("unexpected {other:?}"),
    }
}

#[test]
fn writes_are_counted_per_file() {
    let writes = vec![
        (ConfigScope::User, "/u/config.toml".to_string()),
        (ConfigScope::Local, "/l/config.toml".to_string()),
        (ConfigScope::User, "/u/config.toml".to_string()),
    ];
    assert_eq!(
        summarize_recurrence_writes(writes),
        vec![
            (ConfigScope::User, "/u/config.toml".to_string(), 2),
            (ConfigScope::Local, "/l/config.toml".to_string(), 1),
        ]
    );
}

#[test]
fn recur_dispatch_and_commit_message() {
    let (sub, need) = run(RecurArgs { subcommand: None });
    assert!(matches!(sub, RecurSubcommand::List));
    assert_eq!(need, RecurRequirement::InitializedStore);
    let (sub, need) = run(RecurArgs { subcommand: Some(RecurSubcommand::Run { date: None }) });
    assert!(matches!(sub, RecurSubcommand::Run { .. }));
    assert_eq!(need, RecurRequirement::SharedLayer);
    assert_eq!(recur_run_commit_message("T-9", "Standup"), "riptask: recur run T-9 - Standup");
}
