//! The command dispatcher as a state machine. The library decides, step by
//! step, which external command to launch, which directory to enter, and
//! which file to write; an unverified shell performs each requested action
//! and reports its outcome as an event. The machine encodes the `new`,
//! `integrate` and `run` verbs, every error being fatal except a launch
//! failure of the primary static-server interpreter, which triggers one
//! attempt with the fallback interpreter.

use vstd::prelude::*;
use vstd::string::StringExecFns;
use crate::text::{chars_of, clone_chars};

verus! {

/// The three verbs of the command-line surface. `New` carries the project
/// name as characters.
pub enum Verb {
    /// Create a new project: scaffold it, add the graphics dependency,
    /// overwrite the entry source, then materialize the scaffold plan.
    New(Vec<char>),
    /// Materialize the scaffold plan in the current directory.
    Integrate,
    /// Build the web artifact, then serve it on port 8000.
    Run,
}

/// The external programs the dispatcher launches, by role.
#[derive(Clone, Copy, Debug, PartialEq, Eq, Structural)]
pub enum Program {
    /// Creates and extends project skeletons.
    NativeToolchain,
    /// Produces the web artifact under `html/` when run with no arguments.
    BuildDriver,
    /// The interpreter tried first to host the static HTTP server.
    InterpreterPrimary,
    /// The interpreter tried when the primary one cannot be launched.
    InterpreterFallback,
}

/// A fixed command invocation the dispatcher can request. The project name
/// for `CreateProject` is the one the verb carried.
#[derive(Clone, Copy, Debug, PartialEq, Eq, Structural)]
pub enum Invocation {
    /// Native toolchain, `new <name>`: create the project skeleton.
    CreateProject,
    /// Native toolchain, `add raylib`: add the graphics dependency.
    AddRaylib,
    /// Build driver with no arguments: produce the web artifact.
    Build,
    /// Primary interpreter, `-m http.server 8000`.
    ServePrimary,
    /// Fallback interpreter, `-m http.server 8000`.
    ServeFallback,
}

/// The steps at which the tool can fail, for error reporting.
#[derive(Clone, Copy, Debug, PartialEq, Eq, Structural)]
pub enum Stage {
    /// Creating the project skeleton.
    CreateProject,
    /// Changing into the freshly created project directory.
    EnterProject,
    /// Adding the graphics dependency.
    AddDependency,
    /// Overwriting the entry source file.
    WriteEntry,
    /// Materializing the scaffold plan.
    WriteScaffolding,
    /// Building the web artifact.
    Build,
    /// Changing into the web output directory.
    EnterHtml,
    /// Hosting the artifact with the primary interpreter.
    ServePrimary,
    /// Hosting the artifact with the fallback interpreter.
    ServeFallback,
}

/// Why the tool aborts. Every error is fatal; the dispatcher distinguishes
/// a program that could not be started from one that ran and exited
/// non-zero, and both from a failed filesystem or environment operation.
#[derive(Clone, Copy, Debug, PartialEq, Eq, Structural)]
pub enum ToolError {
    /// Malformed command line: an empty project name.
    Usage,
    /// A filesystem operation failed at the given stage.
    Io(Stage),
    /// The current directory or its basename could not be read.
    Env,
    /// An external program could not be started.
    Launch(Stage),
    /// An external program ran and exited non-zero.
    Subprocess(Stage),
}

/// What the shell reports after performing an action.
#[derive(Clone, Copy, Debug, PartialEq, Eq, Structural)]
pub enum Event {
    /// The command was started and exited; the flag says whether its exit
    /// status was success.
    Launched(bool),
    /// The operating system could not start the command.
    LaunchFailed,
    /// The filesystem or directory-change operation succeeded.
    IoOk,
    /// The filesystem or directory-change operation failed.
    IoFailed,
}

/// What the dispatcher asks the shell to do next.
#[derive(Clone, Copy, Debug, PartialEq, Eq, Structural)]
pub enum Action {
    /// Launch the given command, wait for it, and report the outcome.
    Launch(Invocation),
    /// Change into the directory named by the `new` verb and report.
    EnterProject,
    /// Change into the web output directory `html` and report.
    EnterHtml,
    /// Write the entry-source template over `src/main.rs`, unconditionally:
    /// the one write not gated on absence, since the skeleton has just
    /// created that file. Report the outcome.
    OverwriteEntry,
    /// Materialize the canonical scaffold plan in the current directory
    /// and report the outcome.
    Materialize,
    /// Exit successfully.
    Finish,
    /// Abort with the given error.
    Fail(ToolError),
}

/// Where the dispatcher stands: which action is pending, or how it ended.
#[derive(Clone, Copy, Debug, PartialEq, Eq, Structural)]
pub enum DispatchState {
    /// `new`: awaiting the outcome of the skeleton creation.
    NewScaffolding,
    /// `new`: awaiting the change into the project directory.
    NewEntering,
    /// `new`: awaiting the outcome of the dependency addition.
    NewAddingDep,
    /// `new`: awaiting the overwrite of the entry source.
    NewWritingEntry,
    /// `new`: awaiting the materialization of the scaffold plan.
    NewMaterializing,
    /// `integrate`: awaiting the materialization of the scaffold plan.
    Materializing,
    /// `run`: awaiting the outcome of the build.
    RunBuilding,
    /// `run`: awaiting the change into `html`.
    RunEnteringHtml,
    /// `run`: awaiting the outcome of the primary interpreter.
    RunServingPrimary,
    /// `run`: awaiting the outcome of the fallback interpreter.
    RunServingFallback,
    /// Finished successfully.
    Succeeded,
    /// Aborted with the given error.
    Failed(ToolError),
}

/// The first state and action of a verb. An empty project name is a usage
/// error; otherwise `new` starts by creating the skeleton, `integrate`
/// materializes at once, and `run` starts by building.
pub open spec fn spec_start(verb: Verb) -> (DispatchState, Action) {
    match verb {
        Verb::New(name) => if name@.len() == 0 {
            (DispatchState::Failed(ToolError::Usage), Action::Fail(ToolError::Usage))
        } else {
            (DispatchState::NewScaffolding, Action::Launch(Invocation::CreateProject))
        },
        Verb::Integrate => (DispatchState::Materializing, Action::Materialize),
        Verb::Run => (DispatchState::RunBuilding, Action::Launch(Invocation::Build)),
    }
}

/// The error a state awaiting a command outcome reports for an event: a
/// launch failure keeps its kind, anything else counts as the command
/// having run and failed.
pub open spec fn spec_command_error(stage: Stage, e: Event) -> ToolError {
    match e {
        Event::LaunchFailed => ToolError::Launch(stage),
        _ => ToolError::Subprocess(stage),
    }
}

/// The transition relation of the dispatcher: from a state and the event
/// reporting the pending action's outcome, the next state and the next
/// action. In a state awaiting a command, `Launched(true)` advances and a
/// launch failure is told apart from a non-zero exit; the one non-fatal
/// case is a launch failure of the primary interpreter, which tries the
/// fallback. In a state awaiting an I/O outcome, `IoOk` advances and
/// anything else is a fatal I/O error. Terminal states repeat their final
/// action.
pub open spec fn spec_next(s: DispatchState, e: Event) -> (DispatchState, Action) {
    match s {
        DispatchState::NewScaffolding => if e == Event::Launched(true) {
            (DispatchState::NewEntering, Action::EnterProject)
        } else {
            let err = spec_command_error(Stage::CreateProject, e);
            (DispatchState::Failed(err), Action::Fail(err))
        },
        DispatchState::NewEntering => if e == Event::IoOk {
            (DispatchState::NewAddingDep, Action::Launch(Invocation::AddRaylib))
        } else {
            (
                DispatchState::Failed(ToolError::Io(Stage::EnterProject)),
                Action::Fail(ToolError::Io(Stage::EnterProject)),
            )
        },
        DispatchState::NewAddingDep => if e == Event::Launched(true) {
            (DispatchState::NewWritingEntry, Action::OverwriteEntry)
        } else {
            let err = spec_command_error(Stage::AddDependency, e);
            (DispatchState::Failed(err), Action::Fail(err))
        },
        DispatchState::NewWritingEntry => if e == Event::IoOk {
            (DispatchState::NewMaterializing, Action::Materialize)
        } else {
            (
                DispatchState::Failed(ToolError::Io(Stage::WriteEntry)),
                Action::Fail(ToolError::Io(Stage::WriteEntry)),
            )
        },
        DispatchState::NewMaterializing => if e == Event::IoOk {
            (DispatchState::Succeeded, Action::Finish)
        } else {
            (
                DispatchState::Failed(ToolError::Io(Stage::WriteScaffolding)),
                Action::Fail(ToolError::Io(Stage::WriteScaffolding)),
            )
        },
        DispatchState::Materializing => if e == Event::IoOk {
            (DispatchState::Succeeded, Action::Finish)
        } else {
            (
                DispatchState::Failed(ToolError::Io(Stage::WriteScaffolding)),
                Action::Fail(ToolError::Io(Stage::WriteScaffolding)),
            )
        },
        DispatchState::RunBuilding => if e == Event::Launched(true) {
            (DispatchState::RunEnteringHtml, Action::EnterHtml)
        } else {
            let err = spec_command_error(Stage::Build, e);
            (DispatchState::Failed(err), Action::Fail(err))
        },
        DispatchState::RunEnteringHtml => if e == Event::IoOk {
            (DispatchState::RunServingPrimary, Action::Launch(Invocation::ServePrimary))
        } else {
            (
                DispatchState::Failed(ToolError::Io(Stage::EnterHtml)),
                Action::Fail(ToolError::Io(Stage::EnterHtml)),
            )
        },
        DispatchState::RunServingPrimary => if e == Event::Launched(true) {
            (DispatchState::Succeeded, Action::Finish)
        } else if e == Event::LaunchFailed {
            (DispatchState::RunServingFallback, Action::Launch(Invocation::ServeFallback))
        } else {
            let err = spec_command_error(Stage::ServePrimary, e);
            (DispatchState::Failed(err), Action::Fail(err))
        },
        DispatchState::RunServingFallback => if e == Event::Launched(true) {
            (DispatchState::Succeeded, Action::Finish)
        } else {
            let err = spec_command_error(Stage::ServeFallback, e);
            (DispatchState::Failed(err), Action::Fail(err))
        },
        DispatchState::Succeeded => (DispatchState::Succeeded, Action::Finish),
        DispatchState::Failed(err) => (DispatchState::Failed(err), Action::Fail(err)),
    }
}

/// Begin dispatching a verb: the initial state and the first action.
pub fn start(verb: &Verb) -> (r: (DispatchState, Action))
    ensures
        r == spec_start(*verb),
{
    match verb {
        Verb::New(name) => if name.len() == 0 {
            (DispatchState::Failed(ToolError::Usage), Action::Fail(ToolError::Usage))
        } else {
            (DispatchState::NewScaffolding, Action::Launch(Invocation::CreateProject))
        },
        Verb::Integrate => (DispatchState::Materializing, Action::Materialize),
        Verb::Run => (DispatchState::RunBuilding, Action::Launch(Invocation::Build)),
    }
}

/// Consume the outcome of the pending action and decide the next one.
pub fn next(s: DispatchState, e: Event) -> (r: (DispatchState, Action))
    ensures
        r == spec_next(s, e),
{
    match s {
        DispatchState::NewScaffolding => if e == Event::Launched(true) {
            (DispatchState::NewEntering, Action::EnterProject)
        } else {
            let err = command_error(Stage::CreateProject, e);
            (DispatchState::Failed(err), Action::Fail(err))
        },
        DispatchState::NewEntering => if e == Event::IoOk {
            (DispatchState::NewAddingDep, Action::Launch(Invocation::AddRaylib))
        } else {
            (
                DispatchState::Failed(ToolError::Io(Stage::EnterProject)),
                Action::Fail(ToolError::Io(Stage::EnterProject)),
            )
        },
        DispatchState::NewAddingDep => if e == Event::Launched(true) {
            (DispatchState::NewWritingEntry, Action::OverwriteEntry)
        } else {
            let err = command_error(Stage::AddDependency, e);
            (DispatchState::Failed(err), Action::Fail(err))
        },
        DispatchState::NewWritingEntry => if e == Event::IoOk {
            (DispatchState::NewMaterializing, Action::Materialize)
        } else {
            (
                DispatchState::Failed(ToolError::Io(Stage::WriteEntry)),
                Action::Fail(ToolError::Io(Stage::WriteEntry)),
            )
        },
        DispatchState::NewMaterializing => if e == Event::IoOk {
            (DispatchState::Succeeded, Action::Finish)
        } else {
            (
                DispatchState::Failed(ToolError::Io(Stage::WriteScaffolding)),
                Action::Fail(ToolError::Io(Stage::WriteScaffolding)),
            )
        },
        DispatchState::Materializing => if e == Event::IoOk {
            (DispatchState::Succeeded, Action::Finish)
        } else {
            (
                DispatchState::Failed(ToolError::Io(Stage::WriteScaffolding)),
                Action::Fail(ToolError::Io(Stage::WriteScaffolding)),
            )
        },
        DispatchState::RunBuilding => if e == Event::Launched(true) {
            (DispatchState::RunEnteringHtml, Action::EnterHtml)
        } else {
            let err = command_error(Stage::Build, e);
            (DispatchState::Failed(err), Action::Fail(err))
        },
        DispatchState::RunEnteringHtml => if e == Event::IoOk {
            (DispatchState::RunServingPrimary, Action::Launch(Invocation::ServePrimary))
        } else {
            (
                DispatchState::Failed(ToolError::Io(Stage::EnterHtml)),
                Action::Fail(ToolError::Io(Stage::EnterHtml)),
            )
        },
        DispatchState::RunServingPrimary => if e == Event::Launched(true) {
            (DispatchState::Succeeded, Action::Finish)
        } else if e == Event::LaunchFailed {
            (DispatchState::RunServingFallback, Action::Launch(Invocation::ServeFallback))
        } else {
            let err = command_error(Stage::ServePrimary, e);
            (DispatchState::Failed(err), Action::Fail(err))
        },
        DispatchState::RunServingFallback => if e == Event::Launched(true) {
            (DispatchState::Succeeded, Action::Finish)
        } else {
            let err = command_error(Stage::ServeFallback, e);
            (DispatchState::Failed(err), Action::Fail(err))
        },
        DispatchState::Succeeded => (DispatchState::Succeeded, Action::Finish),
        DispatchState::Failed(err) => (DispatchState::Failed(err), Action::Fail(err)),
    }
}

/// The error reported for an event in a state awaiting a command outcome.
pub fn command_error(stage: Stage, e: Event) -> (err: ToolError)
    ensures
        err == spec_command_error(stage, e),
{
    match e {
        Event::LaunchFailed => ToolError::Launch(stage),
        _ => ToolError::Subprocess(stage),
    }
}

/// The program an invocation launches.
pub open spec fn spec_invocation_program(inv: Invocation) -> Program {
    match inv {
        Invocation::CreateProject => Program::NativeToolchain,
        Invocation::AddRaylib => Program::NativeToolchain,
        Invocation::Build => Program::BuildDriver,
        Invocation::ServePrimary => Program::InterpreterPrimary,
        Invocation::ServeFallback => Program::InterpreterFallback,
    }
}

/// The program an invocation launches.
pub fn invocation_program(inv: Invocation) -> (p: Program)
    ensures
        p == spec_invocation_program(inv),
{
    match inv {
        Invocation::CreateProject => Program::NativeToolchain,
        Invocation::AddRaylib => Program::NativeToolchain,
        Invocation::Build => Program::BuildDriver,
        Invocation::ServePrimary => Program::InterpreterPrimary,
        Invocation::ServeFallback => Program::InterpreterFallback,
    }
}

/// The name the program is launched under.
pub open spec fn spec_program_name(p: Program) -> Seq<char> {
    match p {
        Program::NativeToolchain => "cargo"@,
        Program::BuildDriver => "make"@,
        Program::InterpreterPrimary => "python3"@,
        Program::InterpreterFallback => "python"@,
    }
}

/// The name the program is launched under.
pub fn program_name(p: Program) -> (name: &'static str)
    ensures
        name@ == spec_program_name(p),
{
    match p {
        Program::NativeToolchain => "cargo",
        Program::BuildDriver => "make",
        Program::InterpreterPrimary => "python3",
        Program::InterpreterFallback => "python",
    }
}

/// The argument list of an invocation, given the project name the `new`
/// verb carries (ignored by the other invocations).
pub open spec fn spec_invocation_args(inv: Invocation, name: Seq<char>) -> Seq<Seq<char>> {
    match inv {
        Invocation::CreateProject => seq!["new"@, name],
        Invocation::AddRaylib => seq!["add"@, "raylib"@],
        Invocation::Build => seq![],
        Invocation::ServePrimary => seq!["-m"@, "http.server"@, "8000"@],
        Invocation::ServeFallback => seq!["-m"@, "http.server"@, "8000"@],
    }
}

/// The argument list of an invocation, as character vectors.
pub fn invocation_args(inv: Invocation, name: &Vec<char>) -> (args: Vec<Vec<char>>)
    ensures
        args@.map_values(|a: Vec<char>| a@) == spec_invocation_args(inv, name@),
{
    let mut args: Vec<Vec<char>> = Vec::new();
    match inv {
        Invocation::CreateProject => {
            args.push(chars_of("new"));
            args.push(clone_chars(name));
        },
        Invocation::AddRaylib => {
            args.push(chars_of("add"));
            args.push(chars_of("raylib"));
        },
        Invocation::Build => {},
        Invocation::ServePrimary => {
            args.push(chars_of("-m"));
            args.push(chars_of("http.server"));
            args.push(chars_of("8000"));
        },
        Invocation::ServeFallback => {
            args.push(chars_of("-m"));
            args.push(chars_of("http.server"));
            args.push(chars_of("8000"));
        },
    }
    proof {
        assert(args@.map_values(|a: Vec<char>| a@) =~= spec_invocation_args(inv, name@));
    }
    args
}

/// The one-line message a fatal error is reported with; it names the
/// operation that failed.
pub open spec fn spec_describe(err: ToolError) -> Seq<char> {
    match err {
        ToolError::Usage => "Project name must not be empty."@,
        ToolError::Env => "Failed to fetch project name."@,
        ToolError::Io(stage) => spec_stage_message(stage),
        ToolError::Launch(stage) => spec_stage_message(stage),
        ToolError::Subprocess(stage) => spec_stage_message(stage),
    }
}

/// The message naming a failed stage.
pub open spec fn spec_stage_message(stage: Stage) -> Seq<char> {
    match stage {
        Stage::CreateProject => "Failed to create new project."@,
        Stage::EnterProject => "Failed to jump to project's directory."@,
        Stage::AddDependency => "Failed to add raylib as a dependency."@,
        Stage::WriteEntry => "Failed to create main.rs."@,
        Stage::WriteScaffolding => "Failed to integrate web scaffolding."@,
        Stage::Build => "Failed to build project."@,
        Stage::EnterHtml => "Failed to jump to project's html."@,
        Stage::ServePrimary => "Failed to run project."@,
        Stage::ServeFallback => "Failed to run project."@,
    }
}

/// The one-line message a fatal error is reported with.
pub fn describe(err: ToolError) -> (msg: String)
    ensures
        msg@ == spec_describe(err),
{
    match err {
        ToolError::Usage => String::from_str("Project name must not be empty."),
        ToolError::Env => String::from_str("Failed to fetch project name."),
        ToolError::Io(stage) => stage_message(stage),
        ToolError::Launch(stage) => stage_message(stage),
        ToolError::Subprocess(stage) => stage_message(stage),
    }
}

/// The state the machine stands in after consuming the first `i` events,
/// starting from `s0`.
pub open spec fn state_at(s0: DispatchState, events: Seq<Event>, i: int) -> DispatchState
    decreases i,
{
    if i <= 0 {
        s0
    } else {
        spec_next(state_at(s0, events, i - 1), events[i - 1]).0
    }
}

/// The action the machine emits on consuming event `i`, starting from `s0`.
pub open spec fn action_at(s0: DispatchState, events: Seq<Event>, i: int) -> Action {
    spec_next(state_at(s0, events, i), events[i]).1
}

/// The fallback interpreter is reserved for a missing primary binary: its
/// launch is requested exactly when the primary server's launch failed, and
/// from no other state or event. A primary server that ran and exited
/// non-zero is a fatal subprocess failure instead.
pub proof fn lemma_fallback_only_on_launch_failure(s: DispatchState, e: Event)
    ensures
        spec_next(DispatchState::RunServingPrimary, e).1 == Action::Launch(
            Invocation::ServeFallback,
        ) <==> e == Event::LaunchFailed,
        e == Event::Launched(false) ==> spec_next(DispatchState::RunServingPrimary, e).1
            == Action::Fail(ToolError::Subprocess(Stage::ServePrimary)),
        spec_next(s, e).1 == Action::Launch(Invocation::ServeFallback) ==> s
            == DispatchState::RunServingPrimary && e == Event::LaunchFailed,
{
}

/// A build that does not exit successfully aborts the `run` verb at once:
/// the directory change into the web output and the launch of an
/// interpreter are requested only after a successful build and a
/// successful directory change, respectively.
pub proof fn lemma_build_failure_stops_run(s: DispatchState, e: Event)
    ensures
        e != Event::Launched(true) ==> spec_next(DispatchState::RunBuilding, e)
            == (
            DispatchState::Failed(spec_command_error(Stage::Build, e)),
            Action::Fail(spec_command_error(Stage::Build, e)),
        ),
        spec_next(s, e).1 == Action::EnterHtml ==> s == DispatchState::RunBuilding && e
            == Event::Launched(true),
        spec_next(s, e).1 == Action::Launch(Invocation::ServePrimary) ==> s
            == DispatchState::RunEnteringHtml && e == Event::IoOk,
{
}

/// The states of the `new` verb before the dependency addition has
/// succeeded, and the terminal failure states.
pub open spec fn before_dependency_added(s: DispatchState) -> bool {
    match s {
        DispatchState::NewScaffolding => true,
        DispatchState::NewEntering => true,
        DispatchState::NewAddingDep => true,
        DispatchState::Failed(e) => true,
        _ => false,
    }
}

/// While the dependency addition of `new` has not succeeded, the machine
/// stays short of the writing states and never asks for a write.
proof fn lemma_before_add_stays(events: Seq<Event>, i: int)
    requires
        0 <= i <= events.len(),
        forall|j: int|
            0 <= j < events.len() ==> !(state_at(DispatchState::NewScaffolding, events, j)
                == DispatchState::NewAddingDep && events[j] == Event::Launched(true)),
    ensures
        before_dependency_added(state_at(DispatchState::NewScaffolding, events, i)),
    decreases i,
{
    if i > 0 {
        lemma_before_add_stays(events, i - 1);
        assert(!(state_at(DispatchState::NewScaffolding, events, i - 1)
            == DispatchState::NewAddingDep && events[i - 1] == Event::Launched(true)));
    }
}

/// If the dependency-add step of `new` never succeeds, the dispatcher never
/// asks for the entry-source overwrite nor for the materialization of the
/// scaffold plan: a failed `new` leaves no partial state beyond what the
/// native toolchain itself created.
pub proof fn lemma_new_add_failure_no_writes(events: Seq<Event>, i: int)
    requires
        0 <= i < events.len(),
        forall|j: int|
            0 <= j < events.len() ==> !(state_at(DispatchState::NewScaffolding, events, j)
                == DispatchState::NewAddingDep && events[j] == Event::Launched(true)),
    ensures
        action_at(DispatchState::NewScaffolding, events, i) != Action::OverwriteEntry,
        action_at(DispatchState::NewScaffolding, events, i) != Action::Materialize,
{
    lemma_before_add_stays(events, i);
    assert(!(state_at(DispatchState::NewScaffolding, events, i) == DispatchState::NewAddingDep
        && events[i] == Event::Launched(true)));
}

/// The message naming a failed stage.
pub fn stage_message(stage: Stage) -> (msg: String)
    ensures
        msg@ == spec_stage_message(stage),
{
    match stage {
        Stage::CreateProject => String::from_str("Failed to create new project."),
        Stage::EnterProject => String::from_str("Failed to jump to project's directory."),
        Stage::AddDependency => String::from_str("Failed to add raylib as a dependency."),
        Stage::WriteEntry => String::from_str("Failed to create main.rs."),
        Stage::WriteScaffolding => String::from_str("Failed to integrate web scaffolding."),
        Stage::Build => String::from_str("Failed to build project."),
        Stage::EnterHtml => String::from_str("Failed to jump to project's html."),
        Stage::ServePrimary => String::from_str("Failed to run project."),
        Stage::ServeFallback => String::from_str("Failed to run project."),
    }
}

} // verus!
