use native_commands::error::ErrorKind;
use native_commands::trash::{move_to_trash, trash_result};

#[test]
fn trash_refuses_a_blank_path() {
    for blank in ["", " ", "\t \n"] {
        for exists in [false, true] {
            let error = move_to_trash(blank, exists).unwrap_err();
            assert_eq!(error.kind, ErrorKind::InvalidInput);
            assert_eq!(error.message, "Target path was empty.");
        }
    }
}

#[test]
fn trash_reports_a_missing_path() {
    let error = move_to_trash("  /no/such/file.txt ", false).unwrap_err();
    assert_eq!(error.kind, ErrorKind::NotFound);
    assert_eq!(error.message, "Path does not exist: /no/such/file.txt");
}

#[test]
fn trash_hands_on_the_trimmed_path() {
    assert_eq!(move_to_trash(" /home/u/old notes.txt\n", true), Ok("/home/u/old notes.txt".to_string()));
    assert_eq!(move_to_trash("relative.txt", true), Ok("relative.txt".to_string()));
}

#[test]
fn trash_succeeds_when_the_entry_was_taken() {
    assert_eq!(trash_result(None), Ok(()));
}

#[test]
fn trash_passes_a_refusal_on_as_io_error() {
    let error = trash_result(Some("Permission denied (os error 13)".to_string())).unwrap_err();
    assert_eq!(error.kind, ErrorKind::IoError);
    assert_eq!(error.message, "Permission denied (os error 13)");
}
