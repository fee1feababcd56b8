use aish::shell::ShellExecutor;

fn strings(items: &[&str]) -> Vec<String> {
    items.iter().map(|s| s.to_string()).collect()
}

#[test]
fn output_holds_both_streams_and_the_exit_code() {
    let output = ShellExecutor::execute(&strings(&["out"]), &strings(&["err"]), Some(3));
    assert_eq!(output, "out\nerr\n\n--- Process exited with code: 3 ---\n");
    assert!(output.contains("out"));
    assert!(output.contains("err"));
    assert!(output.contains("3"));
}

#[test]
fn output_keeps_the_order_of_each_stream() {
    let output = ShellExecutor::execute(&strings(&["1", "2", "3"]), &strings(&["a", "b"]), Some(0));
    assert_eq!(output, "1\n2\n3\na\nb\n");
}

#[test]
fn success_has_no_marker() {
    assert_eq!(ShellExecutor::execute(&strings(&["done"]), &strings(&[]), Some(0)), "done\n");
    assert_eq!(ShellExecutor::execute(&strings(&[]), &strings(&[]), Some(0)), "");
}

#[test]
fn a_process_without_exit_code_has_no_marker() {
    assert_eq!(ShellExecutor::execute(&strings(&["partial"]), &strings(&[]), None), "partial\n");
}

#[test]
fn marker_names_the_code() {
    assert_eq!(ShellExecutor::exit_marker(127), "\n--- Process exited with code: 127 ---\n");
    assert_eq!(ShellExecutor::exit_marker(-1), "\n--- Process exited with code: -1 ---\n");
    assert_eq!(
        ShellExecutor::execute(&strings(&[]), &strings(&[]), Some(1)),
        "\n--- Process exited with code: 1 ---\n"
    );
}

#[test]
fn empty_lines_are_kept() {
    assert_eq!(ShellExecutor::execute(&strings(&["", "x", ""]), &strings(&[""]), Some(0)), "\nx\n\n\n");
}

#[test]
fn record_line_adds_the_line_and_a_line_feed() {
    let mut record = String::from("first\n");
    ShellExecutor::record_line(&mut record, "second");
    assert_eq!(record, "first\nsecond\n");
}

#[test]
fn interpreter_is_that_of_the_platform() {
    let unix = ShellExecutor::interpreter(false);
    assert_eq!((unix.program, unix.flag), ("sh", "-c"));
    let windows = ShellExecutor::interpreter(true);
    assert_eq!((windows.program, windows.flag), ("cmd", "/C"));
}
