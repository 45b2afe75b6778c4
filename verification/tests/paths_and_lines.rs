use fanout::lines::split_lines;
use fanout::paths::generate_stdout_file;

#[test]
fn path_without_prefix() {
    let p = generate_stdout_file(
        &"out".to_string(),
        &None,
        &"echo".to_string(),
        &"alpha".to_string(),
    );
    assert_eq!(p, "out/echo_alpha.stdout");
}

#[test]
fn path_with_prefix() {
    let p = generate_stdout_file(
        &"dir".to_string(),
        &Some("pre".to_string()),
        &"cmd".to_string(),
        &"x".to_string(),
    );
    assert_eq!(p, "dir/pre#cmd_x.stdout");
}

#[test]
fn path_underscores_spaces_after_trim() {
    let p = generate_stdout_file(
        &".".to_string(),
        &None,
        &"nmap".to_string(),
        &" -sV 1.2.3.4 \n".to_string(),
    );
    assert_eq!(p, "./nmap_-sV_1.2.3.4.stdout");
}

#[test]
fn path_generation_deterministic() {
    let dir = "out".to_string();
    let prefix = Some("p".to_string());
    let command = "scan".to_string();
    let line = " a b ".to_string();
    let first = generate_stdout_file(&dir, &prefix, &command, &line);
    let second = generate_stdout_file(&dir, &prefix, &command, &line);
    assert_eq!(first, second);
}

#[test]
fn colliding_lines_share_a_path() {
    let dir = "out".to_string();
    let command = "echo".to_string();
    let p1 = generate_stdout_file(&dir, &None, &command, &"a b".to_string());
    let p2 = generate_stdout_file(&dir, &None, &command, &"a_b".to_string());
    assert_eq!(p1, p2);
    assert_eq!(p1, "out/echo_a_b.stdout");
}

#[test]
fn splits_lines_and_strips_endings() {
    assert_eq!(split_lines("alpha\nbeta\n"), vec!["alpha", "beta"]);
    assert_eq!(split_lines("alpha\nbeta"), vec!["alpha", "beta"]);
    assert_eq!(split_lines("a\r\nb\r\n"), vec!["a", "b"]);
}

#[test]
fn blank_lines_preserved() {
    assert_eq!(split_lines("a\n\nb\n"), vec!["a", "", "b"]);
    assert_eq!(split_lines("\n\n"), vec!["", ""]);
}

#[test]
fn empty_input_has_no_lines() {
    assert!(split_lines("").is_empty());
}

#[test]
fn lone_carriage_return_is_kept() {
    assert_eq!(split_lines("x\r"), vec!["x\r"]);
}
