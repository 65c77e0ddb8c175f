use riptsk::required_contexts::{
    extract_classic_required_contexts, extract_ruleset_required_contexts, JsonNode,
};

fn s(text: &str) -> JsonNode {
    JsonNode::Str(text.to_string())
}

fn obj(members: Vec<(&str, JsonNode)>) -> JsonNode {
    JsonNode::Object(members.into_iter().map(|(k, v)| (k.to_string(), v)).collect())
}

fn status_rule(contexts: &[&str]) -> JsonNode {
    obj(vec![
        ("type", s("required_status_checks")),
        (
            "parameters",
            obj(vec![(
                "required_status_checks",
                JsonNode::Array(contexts.iter().map(|c| obj(vec![("context", s(c))])).collect()),
            )]),
        ),
    ])
}

#[test]
fn extracts_required_contexts_from_rulesets() {
    let contexts = extract_ruleset_required_contexts(&JsonNode::Array(vec![status_rule(&["ci", "lint"])]));
    assert_eq!(contexts, vec!["ci".to_string(), "lint".to_string()]);
}

#[test]
fn extracts_classic_required_contexts() {
    let contexts = extract_classic_required_contexts(&obj(vec![(
        "contexts",
        JsonNode::Array(vec![s("build"), s("test")]),
    )]));
    assert_eq!(contexts, vec!["build".to_string(), "test".to_string()]);
}

#[test]
fn ruleset_rules_member_and_other_rule_types() {
    let value = obj(vec![(
        "rules",
        JsonNode::Array(vec![
            obj(vec![("type", s("deletion"))]),
            status_rule(&["a"]),
            obj(vec![
                ("type", s("required_status_checks")),
                (
                    "parameters",
                    obj(vec![(
                        "required_status_checks",
                        JsonNode::Array(vec![obj(vec![("integration_id", JsonNode::Other)]), obj(vec![("context", s("b"))])]),
                    )]),
                ),
            ]),
        ]),
    )]);
    assert_eq!(extract_ruleset_required_contexts(&value), vec!["a".to_string(), "b".to_string()]);
}

#[test]
fn required_contexts_of_unexpected_shapes_are_empty() {
    assert!(extract_ruleset_required_contexts(&JsonNode::Other).is_empty());
    assert!(extract_ruleset_required_contexts(&obj(vec![("rules", s("x"))])).is_empty());
    assert!(extract_classic_required_contexts(&JsonNode::Array(vec![s("a")])).is_empty());
    let mixed = obj(vec![("contexts", JsonNode::Array(vec![s("a"), JsonNode::Other, s("c")]))]);
    assert_eq!(extract_classic_required_contexts(&mixed), vec!["a".to_string(), "c".to_string()]);
}
