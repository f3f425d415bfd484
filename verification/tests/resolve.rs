use monitor::command::{CommandSpec, ResolvedCommand};
use monitor::error::MonitorError;
use monitor::resolve::{candidate_of, resolve, search_candidates};

fn words(items: &[&str]) -> Vec<String> {
    items.iter().map(|item| item.to_string()).collect()
}

fn command(items: &[&str]) -> CommandSpec {
    CommandSpec::from_tokens(words(items)).unwrap()
}

#[test]
fn candidates_follow_the_search_path() {
    assert_eq!(
        search_candidates("ls", "/usr/local/bin:/usr/bin:/bin"),
        words(&["/usr/local/bin/ls", "/usr/bin/ls", "/bin/ls"])
    );
}

#[test]
fn an_empty_entry_of_the_search_path_is_the_current_directory() {
    assert_eq!(search_candidates("ls", "/bin::/opt/"), words(&["/bin/ls", "./ls", "/opt/ls"]));
    assert_eq!(search_candidates("ls", ""), words(&["./ls"]));
    assert_eq!(candidate_of("", "ls"), "./ls");
    assert_eq!(candidate_of("/bin", "ls"), "/bin/ls");
}

#[test]
fn a_path_is_not_looked_for_on_the_search_path() {
    assert_eq!(search_candidates("./ls", "/usr/bin:/bin"), Vec::<String>::new());
    assert_eq!(search_candidates("/usr/bin/ls", "/usr/bin:/bin"), Vec::<String>::new());
}

#[test]
fn the_first_executable_candidate_is_taken() {
    let resolved = resolve(
        command(&["ls", "-l"]),
        "/usr/local/bin:/usr/bin:/bin",
        &vec![false, true, true],
        false,
    );
    assert_eq!(
        resolved,
        Ok(ResolvedCommand { program: "/usr/bin/ls".to_string(), args: words(&["-l"]) })
    );
}

#[test]
fn the_search_path_comes_before_the_current_directory() {
    let resolved = resolve(command(&["ls"]), "/usr/bin:/bin", &vec![false, true], true);
    assert_eq!(resolved, Ok(ResolvedCommand { program: "/bin/ls".to_string(), args: Vec::new() }));
}

#[test]
fn a_name_absent_from_the_search_path_is_taken_from_the_current_directory() {
    let resolved = resolve(command(&["tool", "x"]), "/usr/bin:/bin", &vec![false, false], true);
    assert_eq!(
        resolved,
        Ok(ResolvedCommand { program: "./tool".to_string(), args: words(&["x"]) })
    );
}

#[test]
fn a_path_is_taken_as_it_is() {
    let relative = resolve(command(&["sub/tool"]), "/usr/bin", &Vec::new(), true);
    assert_eq!(
        relative,
        Ok(ResolvedCommand { program: "sub/tool".to_string(), args: Vec::new() })
    );
    let absolute = resolve(command(&["/opt/tool"]), "/usr/bin", &Vec::new(), true);
    assert_eq!(
        absolute,
        Ok(ResolvedCommand { program: "/opt/tool".to_string(), args: Vec::new() })
    );
}

#[test]
fn a_command_found_nowhere_is_not_found() {
    let missing = resolve(command(&["nope", "-v"]), "/usr/bin:/bin", &vec![false, false], false);
    assert_eq!(missing, Err(MonitorError::CommandNotFound("nope".to_string())));
    let path = resolve(command(&["./nope"]), "/usr/bin:/bin", &Vec::new(), false);
    assert_eq!(path, Err(MonitorError::CommandNotFound("./nope".to_string())));
}

#[test]
fn probes_without_a_candidate_do_not_count() {
    let extra = resolve(command(&["ls"]), "/bin", &vec![false, true, true], false);
    assert_eq!(extra, Err(MonitorError::CommandNotFound("ls".to_string())));
    let for_a_path = resolve(command(&["./ls"]), "/bin", &vec![true], false);
    assert_eq!(for_a_path, Err(MonitorError::CommandNotFound("./ls".to_string())));
}

#[test]
fn candidates_without_a_probe_count_as_absent() {
    let short = resolve(command(&["ls"]), "/usr/bin:/bin", &vec![false], true);
    assert_eq!(short, Ok(ResolvedCommand { program: "./ls".to_string(), args: Vec::new() }));
}
