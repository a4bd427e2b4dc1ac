//! The command line of the runner, and where its configuration file is looked for.
use crate::paths::{self, is_same_path, Platform};
use crate::text::{self, is_blank, same, trim};
use crate::validate::{self, validate_client_profile};
use vstd::prelude::*;
use vstd::string::*;

verus! {

pub const RUNNER_USAGE: &'static str = "Usage: webcodex-runner [--config PATH | --profile NAME] [--once] [--stop-on-stdin-eof]\n       webcodex-runner --help | --version\n";

pub const DEFAULT_SYSTEM_CONFIG_DIR: &'static str = "/etc/webcodex";

/// What the command line asks for.
#[derive(Debug, PartialEq, Eq)]
pub enum RunnerCliAction {
    Run { config_path: String, once: bool, stop_on_stdin_eof: bool },
    Exit { code: i32, stdout: String, stderr: String },
}

/// The build that the version names.
#[derive(Debug)]
pub struct BuildInfo {
    pub version: String,
    pub commit: String,
}

/// Where a configuration lies: of the profile that the command line names, and of no profile.
#[derive(Debug)]
pub struct ConfigLocations {
    pub profile: Result<String, String>,
    pub default: Result<String, String>,
}

/// What the arguments so far say.
pub struct CliView {
    pub config: Option<Seq<char>>,
    pub profile: Option<Seq<char>>,
    pub once: bool,
    pub stop_on_stdin_eof: bool,
}

/// What all the arguments say.
pub enum CliOutcome {
    Help,
    Version,
    Run(CliView),
}

/// The state before the first argument.
pub open spec fn no_arguments() -> CliView {
    CliView { config: None, profile: None, once: false, stop_on_stdin_eof: false }
}

/// What the arguments from the first on say.
pub open spec fn parsed_args(args: Seq<Seq<char>>, state: CliView) -> Result<CliOutcome, Seq<char>>
    decreases args.len(),
{
    if args.len() == 0 {
        Ok(CliOutcome::Run(state))
    } else {
        let rest = args.skip(1);
        if args[0] == "--help"@ || args[0] == "-h"@ {
            Ok(CliOutcome::Help)
        } else if args[0] == "--version"@ || args[0] == "-V"@ {
            Ok(CliOutcome::Version)
        } else if args[0] == "--once"@ {
            parsed_args(rest, CliView { once: true, ..state })
        } else if args[0] == "--stop-on-stdin-eof"@ {
            parsed_args(rest, CliView { stop_on_stdin_eof: true, ..state })
        } else if args[0] == "--config"@ {
            if rest.len() == 0 {
                Err("--config requires a value"@)
            } else {
                parsed_args(rest.skip(1), CliView { config: Some(rest[0]), ..state })
            }
        } else if args[0] == "--profile"@ {
            if rest.len() == 0 {
                Err("--profile requires a value"@)
            } else if !validate::safe_profile(text::trimmed(rest[0])) {
                Err(crate::config::CLIENT_PROFILE_ERROR@)
            } else {
                parsed_args(
                    rest.skip(1),
                    CliView { profile: Some(text::trimmed(rest[0])), ..state },
                )
            }
        } else {
            Err("unknown argument: "@ + args[0])
        }
    }
}

/// Which configuration is asked for.
#[derive(Debug, PartialEq, Eq)]
pub enum ConfigSource {
    Explicit(String),
    Profile(String),
    Default,
}

/// What the arguments ask for, before any path is resolved.
#[derive(Debug, PartialEq, Eq)]
pub enum RunnerCliRequest {
    Help,
    Version,
    Run { source: ConfigSource, once: bool, stop_on_stdin_eof: bool },
}

/// The request says what the arguments say: an explicit path wins over a profile.
pub open spec fn request_says(request: RunnerCliRequest, outcome: CliOutcome) -> bool {
    match outcome {
        CliOutcome::Help => request is Help,
        CliOutcome::Version => request is Version,
        CliOutcome::Run(state) => request matches RunnerCliRequest::Run {
            source,
            once,
            stop_on_stdin_eof,
        } && once == state.once && stop_on_stdin_eof == state.stop_on_stdin_eof && (
        match state.config {
            Some(path) => source matches ConfigSource::Explicit(p) && p@ == path,
            None => match state.profile {
                Some(name) => source matches ConfigSource::Profile(n) && n@ == name,
                None => source is Default,
            },
        }),
    }
}

/// Reads the arguments.
pub fn parse_runner_request(args: &Vec<String>) -> (r: Result<RunnerCliRequest, String>)
    ensures
        match parsed_args(text::list_view(args@), no_arguments()) {
            Ok(outcome) => r matches Ok(request) && request_says(request, outcome),
            Err(error) => r matches Err(e) && e@ == error,
        },
{
    let ghost all = text::list_view(args@);
    let ghost mut state = no_arguments();
    let mut config: Option<String> = None;
    let mut profile: Option<String> = None;
    let mut once = false;
    let mut stop_on_stdin_eof = false;
    let mut i: usize = 0;
    assert(all.skip(0) =~= all);
    while i < args.len()
        invariant
            i <= args@.len(),
            all == text::list_view(args@),
            parsed_args(all, no_arguments()) == parsed_args(all.skip(i as int), state),
            state.config == text::option_view(config),
            state.profile == text::option_view(profile),
            state.once == once,
            state.stop_on_stdin_eof == stop_on_stdin_eof,
        decreases args@.len() - i,
    {
        let argument = args[i].as_str();
        let ghost here = all.skip(i as int);
        proof {
            assert(here[0] == argument@);
            assert(here.skip(1) =~= all.skip(i + 1));
            if i + 1 < args@.len() {
                assert(here.skip(1).skip(1) =~= all.skip(i + 2));
            }
        }
        if same(argument, "--help") || same(argument, "-h") {
            return Ok(RunnerCliRequest::Help);
        } else if same(argument, "--version") || same(argument, "-V") {
            return Ok(RunnerCliRequest::Version);
        } else if same(argument, "--once") {
            once = true;
            proof {
                state = CliView { once: true, ..state };
            }
            i = i + 1;
        } else if same(argument, "--stop-on-stdin-eof") {
            stop_on_stdin_eof = true;
            proof {
                state = CliView { stop_on_stdin_eof: true, ..state };
            }
            i = i + 1;
        } else if same(argument, "--config") {
            if i + 1 >= args.len() {
                return Err("--config requires a value".to_owned());
            }
            assert(here.skip(1)[0] == args@[i + 1]@);
            config = Some(args[i + 1].clone());
            proof {
                state = CliView { config: Some(args@[i + 1]@), ..state };
            }
            i = i + 2;
        } else if same(argument, "--profile") {
            if i + 1 >= args.len() {
                return Err("--profile requires a value".to_owned());
            }
            assert(here.skip(1)[0] == args@[i + 1]@);
            let name = validate_client_profile(args[i + 1].as_str())?;
            proof {
                state = CliView { profile: Some(name@), ..state };
            }
            profile = Some(name);
            i = i + 2;
        } else {
            return Err("unknown argument: ".to_owned().concat(argument));
        }
    }
    assert(all.skip(i as int).len() == 0);
    let source = match config {
        Some(path) => ConfigSource::Explicit(path),
        None => match profile {
            Some(name) => ConfigSource::Profile(name),
            None => ConfigSource::Default,
        },
    };
    Ok(RunnerCliRequest::Run { source, once, stop_on_stdin_eof })
}

/// The version line.
pub open spec fn version_line(build: BuildInfo) -> Seq<char> {
    "webcodex-runner "@ + build.version@ + " (commit "@ + build.commit@ + ")\n"@
}

/// The path that a run uses, or why there is none.
pub open spec fn config_path_of(state: CliView, locations: ConfigLocations) -> Result<
    Seq<char>,
    Seq<char>,
> {
    let resolved = if state.profile is Some {
        locations.profile
    } else {
        locations.default
    };
    match state.config {
        Some(path) => Ok(path),
        None => match resolved {
            Ok(path) => Ok(path@),
            Err(error) => Err(error@),
        },
    }
}

/// The action says what the arguments say.
pub open spec fn action_says(
    r: Result<RunnerCliAction, String>,
    outcome: Result<CliOutcome, Seq<char>>,
    build: BuildInfo,
    locations: ConfigLocations,
) -> bool {
    match outcome {
        Err(error) => r matches Err(e) && e@ == error,
        Ok(CliOutcome::Help) => r matches Ok(RunnerCliAction::Exit { code, stdout, stderr }) && code
            == 0 && stdout@ == RUNNER_USAGE@ && stderr@.len() == 0,
        Ok(CliOutcome::Version) => r matches Ok(RunnerCliAction::Exit { code, stdout, stderr })
            && code == 0 && stdout@ == version_line(build) && stderr@.len() == 0,
        Ok(CliOutcome::Run(state)) => match config_path_of(state, locations) {
            Err(error) => r matches Err(e) && e@ == error,
            Ok(path) => r matches Ok(
                RunnerCliAction::Run { config_path, once, stop_on_stdin_eof },
            ) && config_path@ == path && once == state.once && stop_on_stdin_eof
                == state.stop_on_stdin_eof,
        },
    }
}

fn nothing() -> (r: String)
    ensures
        r@.len() == 0,
{
    proof {
        reveal_strlit("");
    }
    "".to_owned()
}

/// Reads the arguments and resolves the path of the configuration.
pub fn parse_runner_args(args: &Vec<String>, build: &BuildInfo, locations: ConfigLocations) -> (r:
    Result<RunnerCliAction, String>)
    ensures
        action_says(
            r,
            parsed_args(text::list_view(args@), no_arguments()),
            *build,
            locations,
        ),
{
    match parse_runner_request(args)? {
        RunnerCliRequest::Help => Ok(
            RunnerCliAction::Exit { code: 0, stdout: RUNNER_USAGE.to_owned(), stderr: nothing() },
        ),
        RunnerCliRequest::Version => {
            let stdout = "webcodex-runner ".to_owned().concat(build.version.as_str()).concat(
                " (commit ",
            ).concat(build.commit.as_str()).concat(")\n");
            Ok(RunnerCliAction::Exit { code: 0, stdout, stderr: nothing() })
        },
        RunnerCliRequest::Run { source, once, stop_on_stdin_eof } => {
            let config_path = match source {
                ConfigSource::Explicit(path) => path,
                ConfigSource::Profile(_) => locations.profile?,
                ConfigSource::Default => locations.default?,
            };
            Ok(RunnerCliAction::Run { config_path, once, stop_on_stdin_eof })
        },
    }
}

/// Returns where the configuration of no profile lies: where one of the two variables says, or
/// the default. Both variables together are ambiguous and refused.
pub fn default_location(
    runner_config: Option<String>,
    agent_config: Option<String>,
    default: Result<String, String>,
) -> (r: Result<String, String>)
    ensures
        match (runner_config, agent_config) {
            (Some(_), Some(_)) => r matches Err(e) && e@
                == "WEBCODEX_RUNNER_CONFIG and WEBCODEX_AGENT_CONFIG cannot both be set"@,
            (Some(path), None) => r == Ok::<String, String>(path),
            (None, Some(path)) => r == Ok::<String, String>(path),
            (None, None) => r == default,
        },
{
    match (runner_config, agent_config) {
        (Some(_), Some(_)) => Err(
            "WEBCODEX_RUNNER_CONFIG and WEBCODEX_AGENT_CONFIG cannot both be set".to_owned(),
        ),
        (Some(path), None) => Ok(path),
        (None, Some(path)) => Ok(path),
        (None, None) => default,
    }
}

/// Returns the default configuration path: what the user directory holds, on POSIX else what the
/// system directory holds, else the path for a new file. `in_user_dir` and `in_system_dir` say
/// what the directories hold.
pub fn default_config_path(
    platform: Platform,
    user_dir: &str,
    in_user_dir: Result<Option<String>, String>,
    in_system_dir: Result<Option<String>, String>,
    new_file: String,
) -> (r: Result<String, String>)
    ensures
        match in_user_dir {
            Err(error) => r == Result::<String, String>::Err(error),
            Ok(Some(path)) => r == Ok::<String, String>(path),
            Ok(None) => if platform == Platform::Posix && !paths::same_path(
                platform,
                "/etc/webcodex"@,
                user_dir@,
            ) {
                match in_system_dir {
                    Err(error) => r == Result::<String, String>::Err(error),
                    Ok(Some(path)) => r == Ok::<String, String>(path),
                    Ok(None) => r == Ok::<String, String>(new_file),
                }
            } else {
                r == Ok::<String, String>(new_file)
            },
        },
{
    match in_user_dir {
        Err(error) => {
            return Err(error);
        },
        Ok(Some(path)) => {
            return Ok(path);
        },
        Ok(None) => {},
    }
    match platform {
        Platform::Posix => {
            if !is_same_path(platform, DEFAULT_SYSTEM_CONFIG_DIR, user_dir) {
                match in_system_dir {
                    Err(error) => {
                        return Err(error);
                    },
                    Ok(Some(path)) => {
                        return Ok(path);
                    },
                    Ok(None) => {},
                }
            }
        },
        Platform::Windows => {},
    }
    Ok(new_file)
}

/// Returns the registry directory of a runner whose configuration names none: what was selected
/// under the base directory, where there is one.
pub fn default_project_registry_dir(
    base: Result<String, String>,
    selected: Result<String, String>,
) -> (r: Result<String, String>)
    ensures
        match base {
            Err(error) => r matches Err(e) && e@ == error@,
            Ok(_) => r == selected,
        },
{
    let _base = base?;
    selected
}

/// The host name, from the variable, else from the file: what is blank counts for nothing, and
/// only the content of the file is trimmed.
pub open spec fn hostname_of(variable: Option<String>, file: Option<String>) -> Option<Seq<char>> {
    if variable is Some && !text::blank((variable->0)@) {
        Some((variable->0)@)
    } else if file is Some && text::trimmed((file->0)@).len() > 0 {
        Some(text::trimmed((file->0)@))
    } else {
        None
    }
}

/// Returns the host name. `variable` is the value of `HOSTNAME`, `file` the content of
/// `/etc/hostname`, where they can be had.
pub fn hostname(variable: Option<String>, file: Option<String>) -> (r: Option<String>)
    ensures
        text::option_view(r) == hostname_of(variable, file),
{
    if let Some(name) = variable {
        if !is_blank(name.as_str()) {
            return Some(name);
        }
    }
    if let Some(content) = file {
        let name = trim(content.as_str());
        if !name.is_empty() {
            return Some(name.to_owned());
        }
    }
    None
}

// ---------------------------------------------------------------------------------------------
// Laws
// ---------------------------------------------------------------------------------------------
proof fn option_names_differ()
    ensures
        "--help"@.len() == 6,
        "-h"@.len() == 2,
        "-h"@[1] == 'h',
        "--version"@.len() == 9,
        "--version"@[2] == 'v',
        "-V"@.len() == 2,
        "-V"@[1] == 'V',
        "--once"@.len() == 6,
        "--once"@[2] == 'o',
        "--help"@[2] == 'h',
        "--stop-on-stdin-eof"@.len() == 19,
        "--config"@.len() == 8,
        "--profile"@.len() == 9,
        "--profile"@[2] == 'p',
{
    reveal_strlit("--help");
    reveal_strlit("-h");
    reveal_strlit("--version");
    reveal_strlit("-V");
    reveal_strlit("--once");
    reveal_strlit("--stop-on-stdin-eof");
    reveal_strlit("--config");
    reveal_strlit("--profile");
}

/// Each option does its own part, whatever stands before and after it: help and version end the
/// reading, the two flags set themselves, and a path or a profile is the argument that follows.
pub proof fn options_do_their_own_part(rest: Seq<Seq<char>>, state: CliView, value: Seq<char>)
    ensures
        parsed_args(Seq::empty(), state) == Ok::<CliOutcome, Seq<char>>(CliOutcome::Run(state)),
        parsed_args(seq!["--help"@] + rest, state) == Ok::<CliOutcome, Seq<char>>(CliOutcome::Help),
        parsed_args(seq!["-h"@] + rest, state) == Ok::<CliOutcome, Seq<char>>(CliOutcome::Help),
        parsed_args(seq!["--version"@] + rest, state) == Ok::<CliOutcome, Seq<char>>(
            CliOutcome::Version,
        ),
        parsed_args(seq!["-V"@] + rest, state) == Ok::<CliOutcome, Seq<char>>(CliOutcome::Version),
        parsed_args(seq!["--once"@] + rest, state) == parsed_args(
            rest,
            (CliView { once: true, ..state }),
        ),
        parsed_args(seq!["--stop-on-stdin-eof"@] + rest, state) == parsed_args(
            rest,
            (CliView { stop_on_stdin_eof: true, ..state }),
        ),
        parsed_args(seq!["--config"@, value] + rest, state) == parsed_args(
            rest,
            (CliView { config: Some(value), ..state }),
        ),
        validate::safe_profile(text::trimmed(value)) ==> parsed_args(
            seq!["--profile"@, value] + rest,
            state,
        ) == parsed_args(rest, (CliView { profile: Some(text::trimmed(value)), ..state })),
        !validate::safe_profile(text::trimmed(value)) ==> parsed_args(
            seq!["--profile"@, value] + rest,
            state,
        ) is Err,
        parsed_args(seq!["--config"@], state) is Err,
        parsed_args(seq!["--profile"@], state) is Err,
{
    option_names_differ();
    assert((seq!["--help"@] + rest)[0] == "--help"@);
    assert((seq!["-h"@] + rest)[0] == "-h"@);
    assert((seq!["--version"@] + rest)[0] == "--version"@);
    assert((seq!["-V"@] + rest)[0] == "-V"@);
    assert((seq!["--once"@] + rest)[0] == "--once"@);
    assert((seq!["--once"@] + rest).skip(1) =~= rest);
    assert((seq!["--stop-on-stdin-eof"@] + rest)[0] == "--stop-on-stdin-eof"@);
    assert((seq!["--stop-on-stdin-eof"@] + rest).skip(1) =~= rest);
    let config = seq!["--config"@, value] + rest;
    assert(config[0] == "--config"@ && config.skip(1)[0] == value);
    assert(config.skip(1).skip(1) =~= rest);
    let profile = seq!["--profile"@, value] + rest;
    assert(profile[0] == "--profile"@ && profile.skip(1)[0] == value);
    assert(profile.skip(1).skip(1) =~= rest);
    assert(seq!["--config"@].skip(1).len() == 0);
    assert(seq!["--profile"@].skip(1).len() == 0);
}

/// An argument that is none of the options is refused by its own text.
pub proof fn other_arguments_are_refused(
    argument: Seq<char>,
    rest: Seq<Seq<char>>,
    state: CliView,
)
    requires
        argument != "--help"@ && argument != "-h"@ && argument != "--version"@ && argument != "-V"@,
        argument != "--once"@ && argument != "--stop-on-stdin-eof"@,
        argument != "--config"@ && argument != "--profile"@,
    ensures
        parsed_args(seq![argument] + rest, state) == Err::<CliOutcome, Seq<char>>(
            "unknown argument: "@ + argument,
        ),
{
    assert((seq![argument] + rest)[0] == argument);
}

/// Nothing is asked for before the first argument.
pub proof fn nothing_is_asked_at_first()
    ensures
        no_arguments().config is None,
        no_arguments().profile is None,
        !no_arguments().once,
        !no_arguments().stop_on_stdin_eof,
{
}

/// A run uses the path that the command line names, else that of its profile, else the default,
/// and passes the two flags on. A path that cannot be resolved is refused for its own reason.
pub proof fn runs_use_the_named_configuration(
    state: CliView,
    build: BuildInfo,
    locations: ConfigLocations,
    r: Result<RunnerCliAction, String>,
)
    requires
        action_says(r, Ok(CliOutcome::Run(state)), build, locations),
    ensures
        ({
            let resolved = if state.profile is Some {
                locations.profile
            } else {
                locations.default
            };
            match r {
                Ok(RunnerCliAction::Run { config_path, once, stop_on_stdin_eof }) => {
                    &&& once == state.once && stop_on_stdin_eof == state.stop_on_stdin_eof
                    &&& state.config is Some ==> config_path@ == state.config->0
                    &&& state.config is None ==> resolved is Ok && config_path@
                        == (resolved->Ok_0)@
                },
                Ok(_) => false,
                Err(error) => state.config is None && resolved is Err && error@
                    == (resolved->Err_0)@,
            }
        }),
{
}

/// Help and version end the process with success, and print the usage or the build on the standard
/// output only.
pub proof fn help_and_version_only_print(
    build: BuildInfo,
    locations: ConfigLocations,
    help: Result<RunnerCliAction, String>,
    version: Result<RunnerCliAction, String>,
)
    requires
        action_says(help, Ok(CliOutcome::Help), build, locations),
        action_says(version, Ok(CliOutcome::Version), build, locations),
    ensures
        help matches Ok(RunnerCliAction::Exit { code, stdout, stderr }) && code == 0 && stdout@
            == RUNNER_USAGE@ && stderr@.len() == 0,
        version matches Ok(RunnerCliAction::Exit { code, stdout, stderr }) && code == 0 && stdout@
            == "webcodex-runner "@ + build.version@ + " (commit "@ + build.commit@ + ")\n"@
            && stderr@.len() == 0,
{
}

/// The request that is read says the same as the action: an explicit path wins over a profile, and
/// the flags are as they were given.
pub proof fn requests_keep_what_was_given(request: RunnerCliRequest, state: CliView)
    requires
        request_says(request, CliOutcome::Run(state)),
    ensures
        request matches RunnerCliRequest::Run { source, once, stop_on_stdin_eof } && once
            == state.once && stop_on_stdin_eof == state.stop_on_stdin_eof && (match source {
            ConfigSource::Explicit(path) => state.config == Some(path@),
            ConfigSource::Profile(name) => state.config is None && state.profile == Some(name@),
            ConfigSource::Default => state.config is None && state.profile is None,
        }),
{
}

/// The host name is the variable as it is, where it says anything, else the content of the file
/// without the white space around it, where that says anything, else there is none.
pub proof fn host_names_say_something(variable: Option<String>, file: Option<String>)
    ensures
        variable is Some && !text::blank((variable->0)@) ==> hostname_of(variable, file) == Some(
            (variable->0)@,
        ),
        !(variable is Some && !text::blank((variable->0)@)) && file is Some && !text::blank(
            (file->0)@,
        ) ==> hostname_of(variable, file) == Some(text::trimmed((file->0)@)),
        hostname_of(variable, file) is None <==> !(variable is Some && !text::blank(
            (variable->0)@,
        )) && !(file is Some && !text::blank((file->0)@)),
{
    if file is Some {
        let _ = text::trimming_takes_only_outer_white_space((file->0)@);
    }
}

} // verus!
