use riptsk::cli::{root_help_template, sorted_names};

fn names(v: &[&str]) -> Vec<String> {
    v.iter().map(|s| s.to_string()).collect()
}

#[test]
fn names_are_sorted_like_sort_unstable() {
    let input = names(&["status", "close", "reorder-up", "reorder", "new", "close"]);
    let mut expected = input.clone();
    expected.sort_unstable();
    assert_eq!(sorted_names(&input), expected);
    assert_eq!(sorted_names(&Vec::new()), Vec::<String>::new());
}

#[test]
fn root_help_template_pads_names_to_the_longest() {
    let groups = vec![
        (
            "Issue Management".to_string(),
            vec![
                ("close".to_string(), "Close an issue".to_string()),
                ("new".to_string(), "Create a new issue".to_string()),
            ],
        ),
        (
            "Views & Boards".to_string(),
            vec![("reorder-down".to_string(), "Move down".to_string())],
        ),
    ];
    let template = root_help_template(&groups);
    assert_eq!(
        template,
        "{about-with-newline}Usage: {usage}\n\n\
         Issue Management:\n  close         Close an issue\n  new           Create a new issue\n\n\
         Views & Boards:\n  reorder-down  Move down\n\n\
         Options:\n{options}\n"
    );
}

#[test]
fn root_help_template_without_groups() {
    assert_eq!(
        root_help_template(&Vec::new()),
        "{about-with-newline}Usage: {usage}\n\nOptions:\n{options}\n"
    );
}
