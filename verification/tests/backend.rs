use riptsk::backend::{DeleteOutcome, MergeMethod, PrChecksStatus};

#[test]
fn default_merge_method_is_rebase() {
    assert_eq!(MergeMethod::default(), MergeMethod::Rebase);
}

#[test]
fn other_defaults() {
    assert_eq!(PrChecksStatus::default(), PrChecksStatus::NoChecks);
    assert_eq!(DeleteOutcome::default(), DeleteOutcome::HardDeleted);
}
