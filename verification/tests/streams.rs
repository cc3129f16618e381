//! Batch helpers and standard-stream resolution.

use clircle::{output_among_inputs, stdout_among_inputs, Clircle, Error, Identifier, Stdio};

use nix::fcntl::{open, OFlag};
use nix::sys::stat::Mode;
use nix::unistd::close;

fn make_file(path: &std::path::Path) -> Identifier {
    let fd = open(
        path,
        OFlag::O_CREAT | OFlag::O_WRONLY,
        Mode::from_bits_truncate(0o600),
    )
    .expect("Could not create test file.");
    nix::unistd::write(fd, b"x").expect("Error filling test file");
    close(fd).expect("Error closing test file");
    Identifier::from_path(path.to_str().expect("path was not UTF-8"))
        .expect("Error deriving identity")
}

#[test]
fn test_output_among_inputs_returns_first_match() {
    let dir = tempfile::tempdir().expect("Couldn't create tempdir.");
    let file_a = make_file(&dir.path().join("a"));
    let file_b = make_file(&dir.path().join("b"));
    let file_a_again = Identifier::from_path(
        dir.path().join("a").to_str().expect("path was not UTF-8"),
    )
    .expect("Error deriving identity");

    let outputs = [file_a, file_b];
    let inputs = [file_a_again];

    let found = output_among_inputs(&outputs, &inputs).expect("No common identifier found");
    assert!(*found == outputs[0]);
    assert!(*found == inputs[0]);

    // No element of `outputs` is among an empty input list.
    let empty: [Identifier; 0] = [];
    assert!(output_among_inputs(&outputs, &empty).is_none());
    // And nothing is found when the files are all distinct.
    let (only_b, only_a) = (&outputs[1..], &inputs[..]);
    assert!(output_among_inputs(only_b, only_a).is_none());
}

#[test]
fn test_stdout_among_inputs_matches_resolved_stdout() {
    // Under the test harness stdout is ordinarily a pipe or a file, never a
    // terminal, so resolution is expected to succeed; a terminal would be
    // refused and resolution would report exactly that.
    match Identifier::try_from_stdio(Stdio::Stdout) {
        Ok(stdout_id) => {
            let inputs = [stdout_id];
            assert!(stdout_among_inputs(&inputs));
        }
        Err(e) => {
            assert!(matches!(e, Error::IsTerminal));
        }
    }

    // Nothing equality-matches an empty input list, whether or not stdout
    // resolves.
    let empty: [Identifier; 0] = [];
    assert!(!stdout_among_inputs(&empty));
}

#[test]
fn test_stdout_among_inputs_false_for_unrelated_files() {
    let dir = tempfile::tempdir().expect("Couldn't create tempdir.");
    let file_a = make_file(&dir.path().join("a"));
    let inputs = [file_a];
    assert!(!stdout_among_inputs(&inputs));
}

#[test]
fn test_stdio_fd_mapping() {
    assert_eq!(clircle::stdio_fd(Stdio::Stdin), 0);
    assert_eq!(clircle::stdio_fd(Stdio::Stdout), 1);
    assert_eq!(clircle::stdio_fd(Stdio::Stderr), 2);
}

#[test]
fn test_resolved_stdio_is_borrowed() {
    // A resolved standard stream is never owned: dropping its identity must
    // leave the stream open. Writing to stderr still succeeds afterwards.
    if let Ok(id) = Identifier::try_from_stdio(Stdio::Stderr) {
        assert!(id.into_inner().is_none());
    }
    nix::unistd::write(2, b"").expect("stderr should still be open");
}

#[test]
fn test_terminal_gate_decides_exactly_on_the_probe_report() {
    // A probe that says "terminal" is refused with the distinct error; a
    // cleared or unanswerable probe lets resolution go on.
    assert_eq!(clircle::terminal_gate(Ok(true)), Some(Error::IsTerminal));
    assert_eq!(clircle::terminal_gate(Ok(false)), None);
    assert_eq!(clircle::terminal_gate(Err(9)), None);
}

#[test]
fn test_resolved_among_maps_an_unresolved_stream_to_false() {
    let dir = tempfile::tempdir().expect("Couldn't create tempdir.");
    let file_a = make_file(&dir.path().join("a"));
    let file_b = make_file(&dir.path().join("b"));
    let file_a_again = Identifier::from_path(
        dir.path().join("a").to_str().expect("path was not UTF-8"),
    )
    .expect("Error deriving identity");

    let inputs = [file_a];
    assert!(!clircle::resolved_among(None::<Identifier>, &inputs));
    assert!(clircle::resolved_among(Some(file_a_again), &inputs));
    assert!(!clircle::resolved_among(Some(file_b), &inputs));
}
