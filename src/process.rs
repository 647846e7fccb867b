//! External build and flash processes: what is launched for each command,
//! when a command is refused before anything is launched, and how output
//! lines reach the listener.
use vstd::prelude::*;

use crate::outside::{parent_of, path_parent};

verus! {

/// Which stream of a process a line came from.
#[derive(Debug, Clone, Copy, PartialEq, Eq)]
pub enum Origin {
    Output,
    Error,
}

/// A process to launch: program, arguments, working directory, and whether
/// its output streams are captured and forwarded line by line.
pub struct Invocation {
    pub program: String,
    pub args: Vec<String>,
    pub dir: Option<String>,
    pub capture: bool,
}

/// Why a build, run or flash command failed.
#[derive(Debug, PartialEq, Eq)]
pub enum RunError {
    /// No project directory can be derived from the file path.
    InvalidPath,
    /// The project directory holds no build manifest.
    ManifestNotFound(String),
    /// The artifact to flash does not exist.
    ArtifactNotFound,
    /// The process could not be started.
    Spawn(String),
    /// The given stream of the process could not be captured.
    Capture(Origin),
    /// Waiting for the process failed.
    Wait(String),
    /// The file explorer reported failure.
    ExplorerFailed,
}

/// The text of an optional string.
pub open spec fn opt_view(o: Option<String>) -> Option<Seq<char>> {
    match o {
        Some(s) => Some(s@),
        None => None,
    }
}

/// The texts of a sequence of strings.
pub open spec fn arg_views(args: Seq<String>) -> Seq<Seq<char>> {
    args.map_values(|a: String| a@)
}

/// The project directory of a source file: the parent of its parent.
pub open spec fn project_dir_spec(file_path: Seq<char>) -> Option<Seq<char>> {
    match parent_of(file_path) {
        Some(src_dir) => parent_of(src_dir),
        None => None,
    }
}

/// The project directory of the source file `file_path`, one level above the
/// directory that holds it.
pub fn project_dir_of(file_path: &str) -> (r: Option<String>)
    ensures
        opt_view(r) == project_dir_spec(file_path@),
{
    match path_parent(file_path) {
        Some(src_dir) => path_parent(src_dir.as_str()),
        None => None,
    }
}

/// The build of the project in `project_dir`, refused before anything is
/// launched when the directory is unknown or holds no manifest.
pub fn plan_build(project_dir: &Option<String>, manifest_present: bool) -> (r: Result<
    Invocation,
    RunError,
>)
    ensures
        project_dir is None ==> r == Err::<Invocation, RunError>(RunError::InvalidPath),
        *project_dir matches Some(d) ==> (!manifest_present ==> r == Err::<Invocation, RunError>(
            RunError::ManifestNotFound(d),
        )),
        project_dir is Some && manifest_present ==> (r matches Ok(inv) && inv.program@ == "cargo"@
            && arg_views(inv.args@) == seq!["build"@] && inv.dir == *project_dir && inv.capture),
{
    match project_dir {
        None => Err(RunError::InvalidPath),
        Some(d) => {
            if !manifest_present {
                return Err(RunError::ManifestNotFound(d.clone()));
            }
            let args = vec![String::from_str("build")];
            assert(arg_views(args@) =~= seq!["build"@]);
            Ok(Invocation { program: String::from_str("cargo"), args, dir: Some(d.clone()), capture: true })
        },
    }
}

/// The arguments that open a terminal window and run `command` in it.
pub open spec fn terminal_args(command: Seq<char>) -> Seq<Seq<char>> {
    seq!["/C"@, "start"@, "cmd"@, "/K"@, command]
}

/// The arguments of the run command: the terminal arguments, then the
/// selected port as one `--port <p>` argument when there is one.
pub open spec fn run_args(selected_port: Option<String>) -> Seq<Seq<char>> {
    match selected_port {
        Some(p) => terminal_args("cargo run"@).push("--port "@ + p@),
        None => terminal_args("cargo run"@),
    }
}

/// The arguments that open a terminal window running `command`.
fn terminal_command_args(command: &str) -> (r: Vec<String>)
    ensures
        arg_views(r@) == terminal_args(command@),
{
    let r = vec![
        String::from_str("/C"),
        String::from_str("start"),
        String::from_str("cmd"),
        String::from_str("/K"),
        command.to_owned(),
    ];
    assert(arg_views(r@) =~= terminal_args(command@));
    r
}

/// Running the project in `project_dir` in a new terminal window, refused
/// before anything is launched when the directory is unknown or holds no
/// manifest.
pub fn plan_run(project_dir: &Option<String>, manifest_present: bool, selected_port: &Option<
    String,
>) -> (r: Result<Invocation, RunError>)
    ensures
        project_dir is None ==> r == Err::<Invocation, RunError>(RunError::InvalidPath),
        *project_dir matches Some(d) ==> (!manifest_present ==> r == Err::<Invocation, RunError>(
            RunError::ManifestNotFound(d),
        )),
        project_dir is Some && manifest_present ==> (r matches Ok(inv) && inv.program@ == "cmd"@
            && arg_views(inv.args@) == run_args(*selected_port) && inv.dir == *project_dir
            && !inv.capture),
{
    match project_dir {
        None => Err(RunError::InvalidPath),
        Some(d) => {
            if !manifest_present {
                return Err(RunError::ManifestNotFound(d.clone()));
            }
            let mut args = terminal_command_args("cargo run");
            match selected_port {
                Some(p) => {
                    let mut port_arg = String::from_str("--port ");
                    port_arg.append(p.as_str());
                    args.push(port_arg);
                    assert(arg_views(args@) =~= run_args(*selected_port));
                },
                None => {},
            }
            Ok(Invocation { program: String::from_str("cmd"), args, dir: Some(d.clone()), capture: false })
        },
    }
}

/// Opening a terminal window in `project_dir` that builds the project.
pub fn plan_terminal_build(project_dir: &str) -> (r: Invocation)
    ensures
        r.program@ == "cmd"@,
        arg_views(r.args@) == terminal_args("cargo build"@),
        opt_view(r.dir) == Some(project_dir@),
        !r.capture,
{
    let args = terminal_command_args("cargo build");
    Invocation { program: String::from_str("cmd"), args, dir: Some(project_dir.to_owned()), capture: false }
}

/// The arguments of the flashing tool for `port` and `artifact`.
pub open spec fn flash_args(port: Seq<char>, artifact: Seq<char>) -> Seq<Seq<char>> {
    seq!["uno"@, "-P"@, port, "-cb"@, "57600"@, artifact]
}

/// Flashing `artifact` to the controller on `port`, refused before the
/// flashing tool is launched when the artifact does not exist.
pub fn plan_flash(port: &str, artifact: &str, artifact_present: bool) -> (r: Result<
    Invocation,
    RunError,
>)
    ensures
        !artifact_present ==> r == Err::<Invocation, RunError>(RunError::ArtifactNotFound),
        artifact_present ==> (r matches Ok(inv) && inv.program@ == "ravedude"@
            && arg_views(inv.args@) == flash_args(port@, artifact@) && inv.dir is None
            && inv.capture),
{
    if !artifact_present {
        return Err(RunError::ArtifactNotFound);
    }
    let args = vec![
        String::from_str("uno"),
        String::from_str("-P"),
        port.to_owned(),
        String::from_str("-cb"),
        String::from_str("57600"),
        artifact.to_owned(),
    ];
    assert(arg_views(args@) =~= flash_args(port@, artifact@));
    Ok(Invocation { program: String::from_str("ravedude"), args, dir: None, capture: true })
}

/// Showing `path` in the file explorer.
pub fn plan_explorer(path: &str) -> (r: Invocation)
    ensures
        r.program@ == "explorer"@,
        arg_views(r.args@) == seq!["/select,"@, path@],
        r.dir is None,
        !r.capture,
{
    let args = vec![String::from_str("/select,"), path.to_owned()];
    assert(arg_views(args@) =~= seq!["/select,"@, path@]);
    Invocation { program: String::from_str("explorer"), args, dir: None, capture: false }
}

/// The outcome of the file explorer from whether it reported success.
pub fn explorer_outcome(success: bool) -> (r: Result<(), RunError>)
    ensures
        r is Ok <==> success,
        !success ==> r == Err::<(), RunError>(RunError::ExplorerFailed),
{
    if success {
        Ok(())
    } else {
        Err(RunError::ExplorerFailed)
    }
}

/// The outcome of a build once waiting on it ended: only a failure to wait
/// is an error, whatever the build's exit code.
pub fn finish_build(waited: Result<(), String>) -> (r: Result<(), RunError>)
    ensures
        waited is Ok ==> r is Ok,
        waited matches Err(e) ==> r == Err::<(), RunError>(RunError::Wait(e)),
{
    match waited {
        Ok(()) => Ok(()),
        Err(e) => Err(RunError::Wait(e)),
    }
}

/// The outcome of a flash once waiting on it ended: a confirmation, or the
/// failure to wait; the tool's exit code is not consulted.
pub fn finish_flash(waited: Result<(), String>) -> (r: Result<String, RunError>)
    ensures
        waited is Ok ==> (r matches Ok(t) && t@ == "Project flashed to controller."@),
        waited matches Err(e) ==> r == Err::<String, RunError>(RunError::Wait(e)),
{
    match waited {
        Ok(()) => Ok(String::from_str("Project flashed to controller.")),
        Err(e) => Err(RunError::Wait(e)),
    }
}

/// The outcome of opening the run terminal: a confirmation, or why it could
/// not be launched.
pub fn finish_run(launched: Result<(), String>) -> (r: Result<String, RunError>)
    ensures
        launched is Ok ==> (r matches Ok(t) && t@ == "CMD opened successfully. Running `cargo run`."@),
        launched matches Err(e) ==> r == Err::<String, RunError>(RunError::Spawn(e)),
{
    match launched {
        Ok(()) => Ok(String::from_str("CMD opened successfully. Running `cargo run`.")),
        Err(e) => Err(RunError::Spawn(e)),
    }
}

/// The event text for a line from a process stream: error lines carry the
/// prefix `ERROR: `, output lines are forwarded as they are.
pub open spec fn tagged(line: Seq<char>, origin: Origin) -> Seq<char> {
    match origin {
        Origin::Output => line,
        Origin::Error => "ERROR: "@ + line,
    }
}

/// The events for a stream's lines, one per line, in the stream's order.
pub open spec fn tagged_all(lines: Seq<String>, origin: Origin) -> Seq<Seq<char>> {
    lines.map_values(|l: String| tagged(l@, origin))
}

/// Whether `events` is a merge of `a` and `b` that keeps the order within
/// each of them.
pub open spec fn interleaves(events: Seq<Seq<char>>, a: Seq<Seq<char>>, b: Seq<Seq<char>>) -> bool
    decreases events.len(),
{
    if events.len() == 0 {
        a.len() == 0 && b.len() == 0
    } else {
        (a.len() > 0 && events[0] == a[0] && interleaves(events.drop_first(), a.drop_first(), b))
            || (b.len() > 0 && events[0] == b[0] && interleaves(
            events.drop_first(),
            a,
            b.drop_first(),
        ))
    }
}

/// The event text for one line from a process stream.
pub fn tag_line(line: &str, origin: Origin) -> (r: String)
    ensures
        r@ == tagged(line@, origin),
{
    match origin {
        Origin::Output => line.to_owned(),
        Origin::Error => {
            let mut r = String::from_str("ERROR: ");
            r.append(line);
            r
        },
    }
}

/// The events for all lines of one stream, in order.
pub fn tag_lines(lines: &Vec<String>, origin: Origin) -> (r: Vec<String>)
    ensures
        arg_views(r@) == tagged_all(lines@, origin),
{
    let mut r: Vec<String> = Vec::new();
    let mut i: usize = 0;
    while i < lines.len()
        invariant
            i <= lines.len(),
            r@.len() == i,
            arg_views(r@) == tagged_all(lines@.take(i as int), origin),
        decreases lines.len() - i,
    {
        let event = tag_line(lines[i].as_str(), origin);
        let ghost before = r@;
        r.push(event);
        proof {
            let want = tagged_all(lines@.take(i + 1), origin);
            assert forall|j: int| 0 <= j < i + 1 implies arg_views(r@)[j] == want[j] by {
                if j < i {
                    assert(r@[j] == before[j]);
                    assert(arg_views(before)[j] == tagged_all(lines@.take(i as int), origin)[j]);
                }
            }
            assert(arg_views(r@) =~= want);
        }
        i = i + 1;
    }
    assert(lines@.take(lines.len() as int) =~= lines@);
    r
}

/// Any merge of two event sequences holds exactly as many events as the two
/// together.
pub proof fn lemma_interleave_len(events: Seq<Seq<char>>, a: Seq<Seq<char>>, b: Seq<Seq<char>>)
    requires
        interleaves(events, a, b),
    ensures
        events.len() == a.len() + b.len(),
    decreases events.len(),
{
    if events.len() > 0 {
        if a.len() > 0 && events[0] == a[0] && interleaves(events.drop_first(), a.drop_first(), b) {
            lemma_interleave_len(events.drop_first(), a.drop_first(), b);
        } else {
            lemma_interleave_len(events.drop_first(), a, b.drop_first());
        }
    }
}

/// Streaming a process with `out` lines on its output and `err` lines on its
/// error stream: whatever the interleaving the listener sees, it receives
/// one event per line, `out.len() + err.len()` in all, the output lines
/// unchanged and the error lines prefixed, each stream in its own order.
pub proof fn lemma_stream_events(out: Seq<String>, err: Seq<String>, events: Seq<Seq<char>>)
    requires
        interleaves(events, tagged_all(out, Origin::Output), tagged_all(err, Origin::Error)),
    ensures
        events.len() == out.len() + err.len(),
        forall|i: int| 0 <= i < err.len() ==> #[trigger] tagged_all(err, Origin::Error)[i] == "ERROR: "@ + err[i]@,
        forall|i: int| 0 <= i < out.len() ==> #[trigger] tagged_all(out, Origin::Output)[i] == out[i]@,
{
    lemma_interleave_len(events, tagged_all(out, Origin::Output), tagged_all(err, Origin::Error));
}

} // verus!
