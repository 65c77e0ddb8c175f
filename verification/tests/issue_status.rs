use riptsk::error::RiptskError;
use riptsk::issues::{conflict_count_note, conflict_plain_line, required_status, status_id_and_state};

#[test]
fn status_argument_naming_a_state_is_the_status() {
    assert_eq!(status_id_and_state(Some("done".into()), None), (None, Some("done".to_string())));
    assert_eq!(
        status_id_and_state(Some("TSK-1".into()), None),
        (Some("TSK-1".to_string()), None)
    );
    assert_eq!(
        status_id_and_state(Some("done".into()), Some("todo".into())),
        (Some("done".to_string()), Some("todo".to_string()))
    );
    assert_eq!(status_id_and_state(None, None), (None, None));
}

#[test]
fn status_is_required() {
    assert_eq!(required_status(Some("review".into())), Ok("review".to_string()));
    assert_eq!(required_status(None), Err(RiptskError::General("<status> required".into())));
}

#[test]
fn ls_conflict_lines() {
    assert_eq!(conflict_plain_line("TSK-7"), "!\tTSK-7\t\tCONFLICT\t\tUnresolved conflict");
    assert_eq!(conflict_count_note(3), "\n3 issues have unresolved conflicts (tsk ls --conflicts)");
}
