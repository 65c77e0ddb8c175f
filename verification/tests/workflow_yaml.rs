use riptsk::github_checks::{workflow_matches_pr, OnTriggers};
use riptsk::workflow_yaml::{parse_workflow_spec, workflow_spec_at};

const CI: &str = "name: CI\non:\n  pull_request:\n    branches: [main]\n    branches-ignore: release\n  push:\n    branches:\n      - main\n  workflow_dispatch:\njobs:\n  build:\n    runs-on: ubuntu-latest\n";

#[test]
fn mapping_triggers_are_read() {
    let spec = parse_workflow_spec(CI).expect("workflow");
    assert_eq!(spec.name.as_deref(), Some("CI"));
    assert_eq!(spec.path, "");
    match &spec.on {
        OnTriggers::Mapping(m) => {
            let pr = m.pull_request.as_ref().expect("pull_request");
            assert_eq!(pr.branches, vec!["main".to_string()]);
            assert_eq!(pr.branches_ignore, vec!["release".to_string()]);
            assert_eq!(m.push.as_ref().unwrap().branches, vec!["main".to_string()]);
            assert!(m.pull_request_target.is_none());
            assert!(m.workflow_dispatch && !m.schedule && !m.repository_dispatch);
        }
        other => panic!("unexpected {other:?}"),
    }
    assert!(workflow_matches_pr(&spec, "main", "feature"));
    assert!(!workflow_matches_pr(&spec, "develop", "feature"));
}

#[test]
fn yaml_single_and_list_triggers() {
    let single = parse_workflow_spec("on: push\n").unwrap();
    assert!(matches!(single.on, OnTriggers::Single(ref s) if s == "push"));
    assert_eq!(single.name, None);
    let list = parse_workflow_spec("name: L\non: [push, 3, pull_request]\n").unwrap();
    assert!(matches!(list.on, OnTriggers::List(ref v) if *v == vec!["push".to_string(), "pull_request".to_string()]));
    let none = parse_workflow_spec("name: N\n").unwrap();
    assert!(matches!(none.on, OnTriggers::Absent));
}

#[test]
fn non_workflow_texts() {
    assert!(parse_workflow_spec("[unclosed").is_none());
    assert!(parse_workflow_spec("- a\n- b\n").is_none());
    assert!(parse_workflow_spec("just text").is_none());
}

#[test]
fn workflow_specs_at_paths() {
    let (spec, warning) = workflow_spec_at(".github/workflows/ci.yml", Some("on: push\n"));
    assert_eq!(warning, None);
    assert_eq!(spec.path, ".github/workflows/ci.yml");
    assert_eq!(spec.name.as_deref(), Some(".github/workflows/ci.yml"));
    let (spec, warning) = workflow_spec_at("w.yml", Some("[broken"));
    assert_eq!(warning.as_deref(), Some("could not parse workflow w.yml; including conservatively"));
    assert!(matches!(spec.on, OnTriggers::Mapping(ref m) if m.pull_request.is_some()));
    let (_, warning) = workflow_spec_at("w.yml", None);
    assert_eq!(warning.as_deref(), Some("could not read workflow w.yml; including conservatively"));
}
