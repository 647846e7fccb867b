use board_link::process::{
    explorer_outcome, finish_build, finish_flash, finish_run, plan_build, plan_explorer,
    plan_flash, plan_run, plan_terminal_build, project_dir_of, tag_line, tag_lines, Origin,
    RunError,
};

fn strings(items: &[&str]) -> Vec<String> {
    items.iter().map(|s| s.to_string()).collect()
}

#[test]
fn project_dir_two_levels_up() {
    assert_eq!(project_dir_of("proj/src/main.rs"), Some("proj".to_string()));
    assert_eq!(project_dir_of("/home/u/proj/src/main.rs"), Some("/home/u/proj".to_string()));
    assert_eq!(project_dir_of("src/main.rs"), Some("".to_string()));
    assert_eq!(project_dir_of("main.rs"), None);
    assert_eq!(project_dir_of("/"), None);
}

#[test]
fn build_refused_without_manifest() {
    let dir = Some("proj".to_string());
    match plan_build(&dir, false) {
        Err(e) => assert_eq!(e, RunError::ManifestNotFound("proj".to_string())),
        Ok(_) => panic!("a build without manifest must be refused"),
    }
}

#[test]
fn build_refused_without_project_dir() {
    assert!(matches!(plan_build(&None, true), Err(RunError::InvalidPath)));
}

#[test]
fn build_runs_cargo_build_in_project() {
    let inv = plan_build(&Some("proj".to_string()), true).ok().unwrap();
    assert_eq!(inv.program, "cargo");
    assert_eq!(inv.args, strings(&["build"]));
    assert_eq!(inv.dir, Some("proj".to_string()));
    assert!(inv.capture);
}

#[test]
fn run_opens_terminal_with_port() {
    let dir = Some("proj".to_string());
    let inv = plan_run(&dir, true, &Some("COM3".to_string())).ok().unwrap();
    assert_eq!(inv.program, "cmd");
    assert_eq!(inv.args, strings(&["/C", "start", "cmd", "/K", "cargo run", "--port COM3"]));
    assert_eq!(inv.dir, dir);
    assert!(!inv.capture);
    let plain = plan_run(&Some("proj".to_string()), true, &None).ok().unwrap();
    assert_eq!(plain.args, strings(&["/C", "start", "cmd", "/K", "cargo run"]));
}

#[test]
fn run_refused_without_manifest() {
    let r = plan_run(&Some("p".to_string()), false, &None);
    assert!(matches!(r, Err(RunError::ManifestNotFound(d)) if d == "p"));
    assert!(matches!(plan_run(&None, true, &None), Err(RunError::InvalidPath)));
}

#[test]
fn flash_refused_without_artifact() {
    assert!(matches!(plan_flash("COM3", "target/app.elf", false), Err(RunError::ArtifactNotFound)));
}

#[test]
fn flash_invokes_flashing_tool() {
    let inv = plan_flash("COM3", "target/app.elf", true).ok().unwrap();
    assert_eq!(inv.program, "ravedude");
    assert_eq!(inv.args, strings(&["uno", "-P", "COM3", "-cb", "57600", "target/app.elf"]));
    assert_eq!(inv.dir, None);
    assert!(inv.capture);
}

#[test]
fn terminal_build_and_explorer() {
    let t = plan_terminal_build("proj");
    assert_eq!(t.program, "cmd");
    assert_eq!(t.args, strings(&["/C", "start", "cmd", "/K", "cargo build"]));
    assert_eq!(t.dir, Some("proj".to_string()));
    let e = plan_explorer("C:\\x\\a.rs");
    assert_eq!(e.program, "explorer");
    assert_eq!(e.args, strings(&["/select,", "C:\\x\\a.rs"]));
    assert_eq!(explorer_outcome(true), Ok(()));
    assert_eq!(explorer_outcome(false), Err(RunError::ExplorerFailed));
}

#[test]
fn outcomes_after_wait() {
    assert_eq!(finish_build(Ok(())), Ok(()));
    assert_eq!(finish_build(Err("gone".to_string())), Err(RunError::Wait("gone".to_string())));
    assert_eq!(finish_flash(Ok(())), Ok("Project flashed to controller.".to_string()));
    assert_eq!(finish_flash(Err("w".to_string())), Err(RunError::Wait("w".to_string())));
    assert_eq!(
        finish_run(Ok(())),
        Ok("CMD opened successfully. Running `cargo run`.".to_string())
    );
    assert_eq!(finish_run(Err("no cmd".to_string())), Err(RunError::Spawn("no cmd".to_string())));
}

#[test]
fn lines_tagged_by_origin() {
    assert_eq!(tag_line("Compiling", Origin::Output), "Compiling");
    assert_eq!(tag_line("oops", Origin::Error), "ERROR: oops");
    assert_eq!(tag_line("", Origin::Error), "ERROR: ");
}

#[test]
fn streamed_lines_keep_count_and_order() {
    let out = strings(&["a", "b", "c"]);
    let err = strings(&["x", "y"]);
    let out_events = tag_lines(&out, Origin::Output);
    let err_events = tag_lines(&err, Origin::Error);
    assert_eq!(out_events, out);
    assert_eq!(err_events, strings(&["ERROR: x", "ERROR: y"]));
    assert_eq!(out_events.len() + err_events.len(), 5);
    assert_eq!(tag_lines(&Vec::new(), Origin::Error), Vec::<String>::new());
}
