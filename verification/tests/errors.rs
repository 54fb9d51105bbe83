//! Tests of the error taxonomy and its operator-visible reporting.

use gas_profiler::errors::{Error, Kind};

#[test]
fn create_file_message_names_the_path() {
    let error = Error(Kind::CreateFile {
        path: String::from("/tmp/trace.folded"),
        cause: String::from("permission denied"),
    });
    assert_eq!(
        error.message(),
        "cannot create output file. path=/tmp/trace.folded"
    );
    assert_eq!(error.cause_message(), "permission denied");
}

#[test]
fn flush_file_message_is_fixed() {
    let error = Error(Kind::FlushFile {
        cause: String::from("broken pipe"),
    });
    assert_eq!(error.message(), "cannot flush output buffer");
    assert_eq!(error.cause_message(), "broken pipe");
}

#[test]
fn report_after_flush_failure_has_nonempty_causal_chain() {
    // A flush failure at guard release is reported as a header plus an
    // indexed causal chain, never propagated.
    let error = Error(Kind::FlushFile {
        cause: String::from("device full"),
    });
    let lines = error.report_lines();
    assert_eq!(lines.len(), 3);
    assert_eq!(lines[0], "Error:");
    assert_eq!(lines[1], "    0: cannot flush output buffer");
    assert_eq!(lines[2], "    1: device full");
    assert!(lines.len() > 1);
}

#[test]
fn report_of_create_failure_chains_path_and_cause() {
    let error = Error(Kind::CreateFile {
        path: String::from("out.folded"),
        cause: String::from("is a directory"),
    });
    let lines = error.report_lines();
    assert_eq!(
        lines,
        vec![
            String::from("Error:"),
            String::from("    0: cannot create output file. path=out.folded"),
            String::from("    1: is a directory"),
        ]
    );
}
