//! Start of the process: the benchmark probe and the activation of a running instance.

use crate::text::{concat2, str_eq, trim, trimmed};
use vstd::prelude::*;

verus! {

pub const BENCHMARK_PROBE_ARGUMENT: &'static str = "--clipline-benchmark-probe";

/// Whether one of the arguments asks for the benchmark probe.
pub fn benchmark_probe_requested(arguments: &Vec<String>) -> (r: bool)
    ensures
        r == exists|i: int|
            0 <= i < arguments@.len() && #[trigger] arguments@[i]@ == BENCHMARK_PROBE_ARGUMENT@,
{
    let mut i: usize = 0;
    while i < arguments.len()
        invariant
            i <= arguments@.len(),
            forall|k: int|
                0 <= k < i ==> #[trigger] arguments@[k]@ != BENCHMARK_PROBE_ARGUMENT@,
        decreases arguments@.len() - i,
    {
        if str_eq(arguments[i].as_str(), BENCHMARK_PROBE_ARGUMENT) {
            assert(arguments@[i as int]@ == BENCHMARK_PROBE_ARGUMENT@);
            return true;
        }
        i += 1;
    }
    false
}

/// A shell is safe to benchmark when it is optimised and still keeps its assertions,
/// which keep it from changing the autostart registry.
pub fn benchmark_shell_is_safe(debug_assertions: bool, opt_level: &str) -> (r: bool)
    ensures
        r == (debug_assertions && trimmed(opt_level@) != ""@ && trimmed(opt_level@) != "0"@
            && trimmed(opt_level@) != "unknown"@),
{
    let level = trim(opt_level);
    debug_assertions && !(str_eq(level.as_str(), "") || str_eq(level.as_str(), "0") || str_eq(
        level.as_str(),
        "unknown",
    ))
}

/// `true` or `false`.
pub open spec fn bool_text(b: bool) -> Seq<char> {
    if b {
        "true"@
    } else {
        "false"@
    }
}

fn bool_str(b: bool) -> (s: &'static str)
    ensures
        s@ == bool_text(b),
{
    if b {
        "true"
    } else {
        "false"
    }
}

/// The line that the benchmark probe prints.
pub fn benchmark_probe_line(debug_assertions: bool, opt_level: &str) -> (line: String)
    ensures
        line@ == "{\"schema\":1,\"benchmark_shell_safe\":"@ + bool_text(
            debug_assertions && trimmed(opt_level@) != ""@ && trimmed(opt_level@) != "0"@
                && trimmed(opt_level@) != "unknown"@,
        ) + ",\"debug_assertions\":"@ + bool_text(debug_assertions) + ",\"opt_level\":\""@
            + opt_level@ + "\",\"autostart_registry_mutation\":"@ + bool_text(!debug_assertions)
            + "}"@,
{
    let mut line = concat2(
        "{\"schema\":1,\"benchmark_shell_safe\":",
        bool_str(benchmark_shell_is_safe(debug_assertions, opt_level)),
    );
    line.append(",\"debug_assertions\":");
    line.append(bool_str(debug_assertions));
    line.append(",\"opt_level\":\"");
    line.append(opt_level);
    line.append("\",\"autostart_registry_mutation\":");
    line.append(bool_str(!debug_assertions));
    line.append("}");
    line
}

/// How the process was started.
#[derive(Debug, Clone, Copy, PartialEq, Eq, Structural)]
pub enum LaunchMode {
    Normal,
    Autostart,
}

/// What a second instance asks of the running one.
#[derive(Debug, Clone, Copy, PartialEq, Eq, Structural)]
pub enum ActivationCommand {
    Reveal,
    AutostartNoop,
}

/// A start by the user reveals the running instance, one by the system does not.
pub fn activation_command(mode: LaunchMode) -> (command: ActivationCommand)
    ensures
        command == command_of(mode),
{
    match mode {
        LaunchMode::Autostart => ActivationCommand::AutostartNoop,
        LaunchMode::Normal => ActivationCommand::Reveal,
    }
}

/// How the process was started, and which processes it takes over from.
#[derive(Debug, Clone, Copy, PartialEq, Eq, Structural)]
pub struct ShellLaunch {
    pub mode: LaunchMode,
    pub elevation_parent: Option<u32>,
    pub updater_parent: Option<u32>,
}

/// A step of a start.
#[derive(Debug, Clone, Copy, PartialEq, Eq, Structural)]
pub enum LaunchStep {
    /// Wait for the process that asked for administrator rights, if there is one, to end.
    WaitForElevationParent(Option<u32>),
    /// Wait for the process that was updated to end.
    WaitForUpdaterParent(u32),
    /// Become the one instance, or hand the running one this command.
    Activate(ActivationCommand),
    /// Run the application.
    Run,
    /// Another instance runs already.
    Exit,
}

/// The first step of a start. `parsed` is what the arguments say.
pub fn first_launch_step(parsed: &Result<ShellLaunch, String>) -> (res: Result<LaunchStep, String>)
    ensures
        match parsed {
            Ok(launch) => res == Ok::<LaunchStep, String>(
                LaunchStep::WaitForElevationParent(launch.elevation_parent),
            ),
            Err(error) => res matches Err(text) && text@ == "parse shell launch: "@ + error@,
        },
{
    match parsed {
        Ok(launch) => Ok(LaunchStep::WaitForElevationParent(launch.elevation_parent)),
        Err(error) => Err(concat2("parse shell launch: ", error.as_str())),
    }
}

/// The command that an instance is started with.
pub open spec fn command_of(mode: LaunchMode) -> ActivationCommand {
    match mode {
        LaunchMode::Autostart => ActivationCommand::AutostartNoop,
        LaunchMode::Normal => ActivationCommand::Reveal,
    }
}

/// What the error of a step begins with.
pub open spec fn launch_error_head(step: LaunchStep) -> Seq<char> {
    match step {
        LaunchStep::WaitForElevationParent(_) => "administrator restart handoff: "@,
        LaunchStep::WaitForUpdaterParent(_) => "update restart handoff: "@,
        _ => "single-instance activation: "@,
    }
}

/// The step that follows one that came off. `primary` is whether this instance became the one.
pub open spec fn step_after(launch: ShellLaunch, step: LaunchStep, primary: bool) -> LaunchStep {
    match step {
        LaunchStep::WaitForElevationParent(_) => match launch.updater_parent {
            Some(parent) => LaunchStep::WaitForUpdaterParent(parent),
            None => LaunchStep::Activate(command_of(launch.mode)),
        },
        LaunchStep::WaitForUpdaterParent(_) => LaunchStep::Activate(command_of(launch.mode)),
        LaunchStep::Activate(_) => if primary {
            LaunchStep::Run
        } else {
            LaunchStep::Exit
        },
        _ => LaunchStep::Exit,
    }
}

/// The next step of a start. `outcome` is what came of the step before; of the activation it
/// says whether this instance became the one.
pub fn next_launch_step(
    launch: &ShellLaunch,
    step: LaunchStep,
    outcome: &Result<bool, String>,
) -> (res: Result<LaunchStep, String>)
    requires
        step !is Run && step !is Exit,
    ensures
        match outcome {
            Ok(primary) => res == Ok::<LaunchStep, String>(step_after(*launch, step, *primary)),
            Err(error) => res matches Err(text) && text@ == launch_error_head(step) + error@,
        },
{
    match outcome {
        Err(error) => {
            let head = match step {
                LaunchStep::WaitForElevationParent(_) => "administrator restart handoff: ",
                LaunchStep::WaitForUpdaterParent(_) => "update restart handoff: ",
                _ => "single-instance activation: ",
            };
            Err(concat2(head, error.as_str()))
        },
        Ok(primary) => Ok(
            match step {
                LaunchStep::WaitForElevationParent(_) => match launch.updater_parent {
                    Some(parent) => LaunchStep::WaitForUpdaterParent(parent),
                    None => LaunchStep::Activate(activation_command(launch.mode)),
                },
                LaunchStep::WaitForUpdaterParent(_) => LaunchStep::Activate(
                    activation_command(launch.mode),
                ),
                LaunchStep::Activate(_) => if *primary {
                    LaunchStep::Run
                } else {
                    LaunchStep::Exit
                },
                _ => LaunchStep::Exit,
            },
        ),
    }
}

/// The application runs only in the instance that became the one, and a process that was
/// updated is gone by the time an instance is looked for.
pub proof fn law_one_instance_runs(launch: ShellLaunch, step: LaunchStep, primary: bool)
    requires
        step !is Run && step !is Exit,
    ensures
        step_after(launch, step, primary) is Run ==> step is Activate && primary,
        step_after(launch, step, primary) is Activate && launch.updater_parent is Some
            ==> step is WaitForUpdaterParent,
{
}

/// A launch by hand shows the window of the instance that runs, one at logon does not.
pub proof fn law_only_a_launch_by_hand_reveals(mode: LaunchMode)
    ensures
        command_of(mode) is Reveal <==> mode is Normal,
        command_of(mode) is AutostartNoop <==> mode is Autostart,
        bool_text(true) == "true"@,
        bool_text(false) == "false"@,
{
}

/// A launch waits for the process that it replaces, then for the one that updated it where there
/// is one, and only then looks for an instance that runs; the steps are named in the errors.
pub proof fn law_launch_waits_before_it_activates(
    launch: ShellLaunch,
    parent: Option<u32>,
    updater: u32,
    command: ActivationCommand,
    primary: bool,
)
    ensures
        launch.updater_parent == Some(updater) ==> step_after(
            launch,
            LaunchStep::WaitForElevationParent(parent),
            primary,
        ) == LaunchStep::WaitForUpdaterParent(updater),
        launch.updater_parent is None ==> step_after(
            launch,
            LaunchStep::WaitForElevationParent(parent),
            primary,
        ) == LaunchStep::Activate(
            if launch.mode is Normal {
                ActivationCommand::Reveal
            } else {
                ActivationCommand::AutostartNoop
            },
        ),
        step_after(launch, LaunchStep::WaitForUpdaterParent(updater), primary)
            == LaunchStep::Activate(
            if launch.mode is Normal {
                ActivationCommand::Reveal
            } else {
                ActivationCommand::AutostartNoop
            },
        ),
        step_after(launch, LaunchStep::Activate(command), true) is Run,
        step_after(launch, LaunchStep::Activate(command), false) is Exit,
        launch_error_head(LaunchStep::WaitForElevationParent(parent))
            == "administrator restart handoff: "@,
        launch_error_head(LaunchStep::WaitForUpdaterParent(updater)) == "update restart handoff: "@,
        launch_error_head(LaunchStep::Activate(command)) == "single-instance activation: "@,
{
}

} // verus!
