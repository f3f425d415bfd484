use monitor::path::{base_name_of, has_slash, join_path_of, local_path_of};

#[test]
fn base_name_strips_directories() {
    assert_eq!(base_name_of("/usr/bin/ls"), "ls");
    assert_eq!(base_name_of("./scripts/run.sh"), "run.sh");
    assert_eq!(base_name_of("a/b"), "b");
}

#[test]
fn base_name_of_a_plain_name_is_the_name() {
    assert_eq!(base_name_of("ls"), "ls");
    assert_eq!(base_name_of("failing-program"), "failing-program");
    assert_eq!(base_name_of(""), "");
}

#[test]
fn base_name_after_a_trailing_slash_is_empty() {
    assert_eq!(base_name_of("dir/"), "");
    assert_eq!(base_name_of("/"), "");
}

#[test]
fn base_name_counts_characters_not_bytes() {
    assert_eq!(base_name_of("/höme/prüfung"), "prüfung");
}

#[test]
fn has_slash_finds_the_separator() {
    assert_eq!(has_slash("ls"), false);
    assert_eq!(has_slash(""), false);
    assert_eq!(has_slash("./ls"), true);
    assert_eq!(has_slash("/usr/bin/ls"), true);
    assert_eq!(has_slash("dir/"), true);
}

#[test]
fn join_puts_one_slash_between_directory_and_name() {
    assert_eq!(join_path_of("/usr/bin", "ls"), "/usr/bin/ls");
    assert_eq!(join_path_of("/usr/bin/", "ls"), "/usr/bin/ls");
    assert_eq!(join_path_of("/", "ls"), "/ls");
    assert_eq!(join_path_of("bin", "ls"), "bin/ls");
}

#[test]
fn join_with_an_empty_directory_is_the_name() {
    assert_eq!(join_path_of("", "ls"), "ls");
}

#[test]
fn local_path_marks_a_plain_name_as_a_path() {
    assert_eq!(local_path_of("tool"), "./tool");
    assert_eq!(local_path_of("./tool"), "./tool");
    assert_eq!(local_path_of("sub/tool"), "sub/tool");
    assert_eq!(local_path_of("/opt/tool"), "/opt/tool");
}
