use riptsk::cli::{ConfigScope, ScopeFlags};
use riptsk::domain::BoardConfig;
use riptsk::error::RiptskError;
use riptsk::init::{
    classify_partial, git_init_failure_message, init_preflight, scope_from_choice, LayerInventory,
    LayerProbe, LayerStatus, PartialAi, PartialConfig, PartialDefaults, PartialSync, PartialUi,
};

#[test]
fn classify_empty_partial() {
    assert!(matches!(
        classify_partial(PartialConfig::default()),
        LayerStatus::Empty
    ));
}

#[test]
fn classify_complete_partial_ignores_empty_projects_and_recurring() {
    let status = classify_partial(PartialConfig {
        defaults: Some(PartialDefaults::default()),
        boards: vec![BoardConfig {
            name: "personal".into(),
            statuses: Vec::new(),
        }],
        ui: Some(PartialUi::default()),
        ai: Some(PartialAi::default()),
        sync: Some(PartialSync::default()),
        ..Default::default()
    });
    assert!(matches!(status, LayerStatus::Complete));
}

#[test]
fn classify_partial_sections() {
    let status = classify_partial(PartialConfig {
        defaults: Some(PartialDefaults::default()),
        ..Default::default()
    });
    assert!(matches!(status, LayerStatus::Partial { .. }));
}

#[test]
fn partial_labels_list_sections() {
    let status = classify_partial(PartialConfig {
        ui: Some(PartialUi::default()),
        sync: Some(PartialSync::default()),
        ..Default::default()
    });
    assert_eq!(status.label(), "Partial(ui,sync)");
    let only_auto = classify_partial(PartialConfig {
        auto_commit: Some(true),
        ..Default::default()
    });
    assert_eq!(only_auto.label(), "Partial");
    assert_eq!(LayerStatus::Missing.label(), "Missing");
    assert_eq!(
        LayerStatus::Invalid {
            error: "x".into()
        }
        .label(),
        "Invalid"
    );
}

fn probe(scope: ConfigScope, status: LayerStatus) -> LayerProbe {
    LayerProbe {
        scope,
        path: Some(format!("/cfg/{}", scope.label())),
        status,
    }
}

#[test]
fn preflight_refuses_complete_and_invalid() {
    let inventory = LayerInventory {
        system: probe(ConfigScope::System, LayerStatus::Complete),
        user: probe(
            ConfigScope::User,
            LayerStatus::Invalid {
                error: "bad".into(),
            },
        ),
        local: probe(ConfigScope::Local, LayerStatus::Missing),
    };
    match init_preflight(&inventory, ConfigScope::System, false) {
        Err(RiptskError::General(m)) => assert_eq!(
            m,
            "system config is already complete at /cfg/system. Use --force to overwrite."
        ),
        other => panic!("unexpected {other:?}"),
    }
    match init_preflight(&inventory, ConfigScope::User, true) {
        Err(RiptskError::Config(m)) => assert_eq!(
            m,
            "user config at /cfg/user is invalid: bad. Fix or remove it before initializing."
        ),
        other => panic!("unexpected {other:?}"),
    }
    let notes = init_preflight(&inventory, ConfigScope::Local, false).expect("local ok");
    assert_eq!(notes.len(), 1);
    assert!(notes[0].starts_with("note: a complete config also exists at system (/cfg/system)."));
    assert!(init_preflight(&inventory, ConfigScope::System, true)
        .expect("forced")
        .is_empty());
}

#[test]
fn scope_flags_and_choices() {
    let flags = ScopeFlags {
        system: false,
        user: true,
        local: true,
    };
    assert_eq!(flags.scope(), Some(ConfigScope::User));
    assert_eq!(ScopeFlags::default().scope(), None);
    assert_eq!(scope_from_choice("local"), Some(ConfigScope::Local));
    assert_eq!(scope_from_choice("abort"), None);
    assert_eq!(git_init_failure_message("  \n"), "git init failed");
    assert_eq!(
        git_init_failure_message(" fatal: x \n"),
        "git init failed: fatal: x"
    );
}
