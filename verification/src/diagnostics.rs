//! Laws on the texts of refused configurations: what the checks complain of is what the reload
//! diagnostic recognises.
use crate::config::{
    AcpConfig, InstructionsConfig, McpGatewayConfig, RunnerConfig, RunnerRules, ShellConfig,
    SkillsConfig,
};
use crate::faults;
use crate::load;
use crate::paths::Platform;
use crate::providers;
use crate::reload_report::{
    self, RunnerConfigErrorCode, RunnerConfigErrorField, RunnerConfigErrorReason,
};
use crate::validate;
use vstd::prelude::*;

verus! {

proof fn begins(head: Seq<char>, rest: Seq<char>)
    ensures
        head.is_prefix_of(head + rest),
{
    assert((head + rest).subrange(0, head.len() as int) =~= head);
}

proof fn begins_two(head: Seq<char>, middle: Seq<char>, rest: Seq<char>)
    ensures
        head.is_prefix_of(head + middle + rest),
{
    assert((head + middle + rest).subrange(0, head.len() as int) =~= head);
}

proof fn differs(prefix: Seq<char>, error: Seq<char>, at: int)
    requires
        0 <= at < prefix.len(),
        at < error.len(),
        prefix[at] != error[at],
    ensures
        !prefix.is_prefix_of(error),
{
    if prefix.is_prefix_of(error) {
        assert(error.subrange(0, prefix.len() as int)[at] == error[at]);
    }
}

/// No error that begins with another letter than those of the file and provider errors is one.
proof fn is_validation_code(error: Seq<char>)
    requires
        error.len() > 0,
        error[0] != 'f',
        error[0] != 't',
    ensures
        reload_report::error_code_of(error) == RunnerConfigErrorCode::ConfigValidationFailed,
{
    reveal_strlit("failed to read config");
    reveal_strlit("failed to parse config");
    reveal_strlit("tool_providers.");
    differs("failed to read config"@, error, 0);
    differs("failed to parse config"@, error, 0);
    differs("tool_providers."@, error, 0);
}

/// An error that does not begin with `i` is not about instruction files.
proof fn is_not_about_instructions(error: Seq<char>)
    requires
        error.len() > 0,
        error[0] != 'i',
    ensures
        !reload_report::instruction_path_error(error),
        !"instructions.files may contain at most "@.is_prefix_of(error),
        !"instructions.files entries must be non-empty paths of at most "@.is_prefix_of(error),
{
    reveal_strlit("instructions.files entries must be absolute paths");
    reveal_strlit("instructions.files contains an unsupported Windows path namespace");
    reveal_strlit("instructions.files contains duplicate path identities");
    reveal_strlit("instructions.files may contain at most ");
    reveal_strlit("instructions.files entries must be non-empty paths of at most ");
    differs("instructions.files entries must be absolute paths"@, error, 0);
    differs("instructions.files contains an unsupported Windows path namespace"@, error, 0);
    differs("instructions.files contains duplicate path identities"@, error, 0);
    differs("instructions.files may contain at most "@, error, 0);
    differs("instructions.files entries must be non-empty paths of at most "@, error, 0);
}

/// An error that does not begin with `sk` is not about skill roots.
proof fn is_not_about_skills(error: Seq<char>)
    requires
        error.len() > 1,
        error[0] != 's' || error[1] != 'k',
    ensures
        !reload_report::skill_path_error(error),
        !"skills.roots may contain at most "@.is_prefix_of(error),
        !"skills.roots entries must be non-empty paths of at most "@.is_prefix_of(error),
{
    reveal_strlit("skills.roots entries must be absolute paths");
    reveal_strlit("skills.roots contains an unsupported Windows path namespace");
    reveal_strlit("skills.roots contains duplicate path identities");
    reveal_strlit("skills.roots may contain at most ");
    reveal_strlit("skills.roots entries must be non-empty paths of at most ");
    let at: int = if error[0] != 's' {
        0
    } else {
        1
    };
    differs("skills.roots entries must be absolute paths"@, error, at);
    differs("skills.roots contains an unsupported Windows path namespace"@, error, at);
    differs("skills.roots contains duplicate path identities"@, error, at);
    differs("skills.roots may contain at most "@, error, at);
    differs("skills.roots entries must be non-empty paths of at most "@, error, at);
}

/// An error that begins with none of `a`, `m` and `s` is not about a number out of its range.
proof fn is_not_about_a_range(error: Seq<char>)
    requires
        error.len() > 0,
        error[0] != 'a',
        error[0] != 'm',
        error[0] != 's',
    ensures
        forall|field: RunnerConfigErrorField|
            is_range_field(field) ==> !(#[trigger] range_head(field)).is_prefix_of(error),
{
    reveal_strlit("max_concurrent_jobs must be between ");
    reveal_strlit("shell.max_persistent_shells must be between ");
    reveal_strlit("shell.persistent_shell_idle_timeout_secs must be between ");
    reveal_strlit("acp.max_concurrent_runs must be between ");
    reveal_strlit("acp.permission_timeout_secs must be between ");
    reveal_strlit("mcp.request_timeout_secs must be between ");
    assert forall|field: RunnerConfigErrorField| is_range_field(field) implies !(
    #[trigger] range_head(field)).is_prefix_of(error) by {
        differs(range_head(field), error, 0);
    }
}

/// The diagnostic of a refused instruction file list.
pub open spec fn instruction_reason(
    platform: Platform,
    config: InstructionsConfig,
) -> RunnerConfigErrorReason {
    let limits = validate::instruction_limits();
    let messages = validate::instruction_messages();
    let error = validate::instructions_fault(platform, config)->0;
    if error == validate::too_many_text(limits, messages) || error == validate::bad_length_text(
        limits,
        messages,
    ) {
        RunnerConfigErrorReason::OutOfRange
    } else {
        RunnerConfigErrorReason::InvalidPath
    }
}

/// Every complaint about the instruction files is recognised as one: too many entries and empty or
/// long paths are out of range, everything else is an invalid path.
pub proof fn instruction_faults_are_recognised(platform: Platform, config: InstructionsConfig)
    requires
        validate::instructions_fault(platform, config) is Some,
    ensures
        ({
            let error = validate::instructions_fault(platform, config)->0;
            &&& reload_report::diagnostic_of(error) == (
                Some(RunnerConfigErrorField::InstructionsFiles),
                Some(instruction_reason(platform, config)),
            )
            &&& reload_report::error_code_of(error)
                == RunnerConfigErrorCode::ConfigValidationFailed
        }),
{
    let limits = validate::instruction_limits();
    let messages = validate::instruction_messages();
    let error = validate::instructions_fault(platform, config)->0;
    let files = config.files@;
    if files.len() <= limits.max_entries {
        let at = faults::first_fault_is_one(
            0,
            files.len() as int,
            validate::path_faults(platform, limits, messages, files),
        );
    }
    reveal_strlit("instructions.files entries must be absolute paths");
    reveal_strlit("instructions.files contains an unsupported Windows path namespace");
    reveal_strlit("instructions.files contains duplicate path identities");
    reveal_strlit("instructions.files may contain at most ");
    reveal_strlit("instructions.files entries must be non-empty paths of at most ");
    let too_many = validate::too_many_text(limits, messages);
    let bad_length = validate::bad_length_text(limits, messages);
    let not_absolute = validate::not_absolute_text(messages);
    begins_two(messages.too_many@, crate::text::decimal(16), " entries"@);
    begins_two(messages.bad_length@, crate::text::decimal(4096), " bytes"@);
    begins(messages.not_absolute@, " without parent traversal"@);
    begins(messages.namespace@, Seq::empty());
    begins(messages.duplicate@, Seq::empty());
    assert(messages.namespace@ + Seq::empty() =~= messages.namespace@);
    assert(messages.duplicate@ + Seq::empty() =~= messages.duplicate@);
    // Where the heads of the texts part.
    assert(too_many[19] == 'm');
    assert(bad_length[19] == 'e' && bad_length[35] == 'n');
    assert(not_absolute[19] == 'e' && not_absolute[35] == 'a');
    differs("instructions.files entries must be absolute paths"@, too_many, 19);
    differs("instructions.files contains an unsupported Windows path namespace"@, too_many, 19);
    differs("instructions.files contains duplicate path identities"@, too_many, 19);
    differs("instructions.files entries must be absolute paths"@, bad_length, 35);
    differs("instructions.files contains an unsupported Windows path namespace"@, bad_length, 19);
    differs("instructions.files contains duplicate path identities"@, bad_length, 19);
    differs(messages.too_many@, not_absolute, 19);
    differs(messages.too_many@, messages.namespace@, 19);
    differs(messages.too_many@, messages.duplicate@, 19);
    differs(messages.bad_length@, not_absolute, 35);
    differs(messages.bad_length@, messages.namespace@, 19);
    differs(messages.bad_length@, messages.duplicate@, 19);
    assert(error[0] == 'i');
    is_not_about_skills(error);
    is_validation_code(error);
}

/// The diagnostic of a refused skill root list.
pub open spec fn skill_reason(platform: Platform, config: SkillsConfig) -> RunnerConfigErrorReason {
    let limits = validate::skill_limits();
    let messages = validate::skill_messages();
    let error = validate::skills_fault(platform, config)->0;
    if error == validate::too_many_text(limits, messages) || error == validate::bad_length_text(
        limits,
        messages,
    ) {
        RunnerConfigErrorReason::OutOfRange
    } else {
        RunnerConfigErrorReason::InvalidPath
    }
}

/// Every complaint about the skill roots is recognised as one: too many entries and empty or long
/// paths are out of range, everything else is an invalid path.
pub proof fn skill_faults_are_recognised(platform: Platform, config: SkillsConfig)
    requires
        validate::skills_fault(platform, config) is Some,
    ensures
        ({
            let error = validate::skills_fault(platform, config)->0;
            &&& reload_report::diagnostic_of(error) == (
                Some(RunnerConfigErrorField::SkillsRoots),
                Some(skill_reason(platform, config)),
            )
            &&& reload_report::error_code_of(error)
                == RunnerConfigErrorCode::ConfigValidationFailed
        }),
{
    let limits = validate::skill_limits();
    let messages = validate::skill_messages();
    let error = validate::skills_fault(platform, config)->0;
    let roots = config.roots@;
    if roots.len() <= limits.max_entries {
        let at = faults::first_fault_is_one(
            0,
            roots.len() as int,
            validate::path_faults(platform, limits, messages, roots),
        );
    }
    reveal_strlit("skills.roots entries must be absolute paths");
    reveal_strlit("skills.roots contains an unsupported Windows path namespace");
    reveal_strlit("skills.roots contains duplicate path identities");
    reveal_strlit("skills.roots may contain at most ");
    reveal_strlit("skills.roots entries must be non-empty paths of at most ");
    let too_many = validate::too_many_text(limits, messages);
    let bad_length = validate::bad_length_text(limits, messages);
    let not_absolute = validate::not_absolute_text(messages);
    begins_two(messages.too_many@, crate::text::decimal(16), " entries"@);
    begins_two(messages.bad_length@, crate::text::decimal(4096), " bytes"@);
    begins(messages.not_absolute@, " without parent traversal"@);
    begins(messages.namespace@, Seq::empty());
    begins(messages.duplicate@, Seq::empty());
    assert(messages.namespace@ + Seq::empty() =~= messages.namespace@);
    assert(messages.duplicate@ + Seq::empty() =~= messages.duplicate@);
    // Where the heads of the texts part.
    assert(too_many[13] == 'm');
    assert(bad_length[13] == 'e' && bad_length[29] == 'n');
    assert(not_absolute[13] == 'e' && not_absolute[29] == 'a');
    differs("skills.roots entries must be absolute paths"@, too_many, 13);
    differs("skills.roots contains an unsupported Windows path namespace"@, too_many, 13);
    differs("skills.roots contains duplicate path identities"@, too_many, 13);
    differs("skills.roots entries must be absolute paths"@, bad_length, 29);
    differs("skills.roots contains an unsupported Windows path namespace"@, bad_length, 13);
    differs("skills.roots contains duplicate path identities"@, bad_length, 13);
    differs(messages.too_many@, not_absolute, 13);
    differs(messages.too_many@, messages.namespace@, 13);
    differs(messages.too_many@, messages.duplicate@, 13);
    differs(messages.bad_length@, not_absolute, 29);
    differs(messages.bad_length@, messages.namespace@, 13);
    differs(messages.bad_length@, messages.duplicate@, 13);
    assert(error[0] == 's');
    is_not_about_instructions(error);
    is_validation_code(error);
}

/// How the range complaint about a field begins.
pub open spec fn range_head(field: RunnerConfigErrorField) -> Seq<char> {
    match field {
        RunnerConfigErrorField::MaxConcurrentJobs => "max_concurrent_jobs must be between "@,
        RunnerConfigErrorField::ShellMaxPersistentShells => {
            "shell.max_persistent_shells must be between "@
        },
        RunnerConfigErrorField::ShellPersistentShellIdleTimeoutSecs => {
            "shell.persistent_shell_idle_timeout_secs must be between "@
        },
        RunnerConfigErrorField::AcpMaxConcurrentRuns => "acp.max_concurrent_runs must be between "@,
        RunnerConfigErrorField::AcpPermissionTimeoutSecs => {
            "acp.permission_timeout_secs must be between "@
        },
        RunnerConfigErrorField::McpRequestTimeoutSecs => {
            "mcp.request_timeout_secs must be between "@
        },
        RunnerConfigErrorField::SkillsRoots => "skills.roots may contain at most "@,
        RunnerConfigErrorField::InstructionsFiles => "instructions.files may contain at most "@,
    }
}

/// A field that is one number with a range.
pub open spec fn is_range_field(field: RunnerConfigErrorField) -> bool {
    field != RunnerConfigErrorField::SkillsRoots && field
        != RunnerConfigErrorField::InstructionsFiles
}

/// Every complaint about a number out of its range is recognised by how it begins.
proof fn range_error_is_recognised(field: RunnerConfigErrorField, range: Seq<char>)
    requires
        is_range_field(field),
    ensures
        reload_report::diagnostic_of(range_head(field) + range) == (
            Some(field),
            Some(RunnerConfigErrorReason::OutOfRange),
        ),
        reload_report::error_code_of(range_head(field) + range)
            == RunnerConfigErrorCode::ConfigValidationFailed,
{
    let head = range_head(field);
    let error = head + range;
    let jobs = "max_concurrent_jobs must be between "@;
    let shells = "shell.max_persistent_shells must be between "@;
    let idle = "shell.persistent_shell_idle_timeout_secs must be between "@;
    let runs = "acp.max_concurrent_runs must be between "@;
    let permission = "acp.permission_timeout_secs must be between "@;
    let request = "mcp.request_timeout_secs must be between "@;
    reveal_strlit("max_concurrent_jobs must be between ");
    reveal_strlit("shell.max_persistent_shells must be between ");
    reveal_strlit("shell.persistent_shell_idle_timeout_secs must be between ");
    reveal_strlit("acp.max_concurrent_runs must be between ");
    reveal_strlit("acp.permission_timeout_secs must be between ");
    reveal_strlit("mcp.request_timeout_secs must be between ");
    begins(head, range);
    assert(error[0] == head[0] && error[1] == head[1] && error[4] == head[4] && error[6]
        == head[6]);
    is_not_about_instructions(error);
    is_not_about_skills(error);
    is_validation_code(error);
    if head != jobs {
        if error[0] == 'm' {
            differs(jobs, error, 1);
        } else {
            differs(jobs, error, 0);
        }
        if head != shells {
            if error[0] == 's' {
                differs(shells, error, 6);
            } else {
                differs(shells, error, 0);
            }
            if head != idle {
                differs(idle, error, 0);
                if head != runs {
                    if error[0] == 'a' {
                        differs(runs, error, 4);
                    } else {
                        differs(runs, error, 0);
                    }
                    if head != permission {
                        differs(permission, error, 0);
                    }
                }
            }
        }
    }
}

/// A job limit out of its range is recognised as such.
pub proof fn job_limit_fault_is_recognised(rules: RunnerRules, cfg: RunnerConfig)
    requires
        !crate::config::job_limit_in_range(cfg.max_concurrent_jobs),
    ensures
        load::limits_fault(rules, cfg) matches Some(error) && reload_report::diagnostic_of(error)
            == (
            Some(RunnerConfigErrorField::MaxConcurrentJobs),
            Some(RunnerConfigErrorReason::OutOfRange),
        ),
{
    range_error_is_recognised(RunnerConfigErrorField::MaxConcurrentJobs, "1 and 64"@);
}

/// The shell section with limits in their ranges.
pub open spec fn with_usable_limits(shell: ShellConfig) -> ShellConfig {
    ShellConfig { max_persistent_shells: 8, persistent_shell_idle_timeout_secs: 1800, ..shell }
}

/// Shell limits out of their ranges are recognised as such, where nothing else is wrong.
pub proof fn shell_limit_faults_are_recognised(shell: ShellConfig)
    requires
        validate::shell_fault(with_usable_limits(shell)) is None,
    ensures
        validate::shell_fault(shell) matches Some(error) ==> reload_report::diagnostic_of(error)
            == (
            Some(
                if 1 <= shell.max_persistent_shells <= 64 {
                    RunnerConfigErrorField::ShellPersistentShellIdleTimeoutSecs
                } else {
                    RunnerConfigErrorField::ShellMaxPersistentShells
                },
            ),
            Some(RunnerConfigErrorReason::OutOfRange),
        ),
{
    range_error_is_recognised(RunnerConfigErrorField::ShellMaxPersistentShells, "1 and 64"@);
    range_error_is_recognised(
        RunnerConfigErrorField::ShellPersistentShellIdleTimeoutSecs,
        "1 and 86400"@,
    );
}

/// Coding agent limits out of their ranges are recognised as such.
pub proof fn acp_limit_faults_are_recognised(rules: RunnerRules, config: AcpConfig)
    requires
        !(1 <= config.max_concurrent_runs <= 8) || !(1 <= config.permission_timeout_secs <= 60),
    ensures
        providers::acp_fault(rules, config) matches Some(error) && reload_report::diagnostic_of(
            error,
        ) == (
            Some(
                if 1 <= config.max_concurrent_runs <= 8 {
                    RunnerConfigErrorField::AcpPermissionTimeoutSecs
                } else {
                    RunnerConfigErrorField::AcpMaxConcurrentRuns
                },
            ),
            Some(RunnerConfigErrorReason::OutOfRange),
        ),
{
    range_error_is_recognised(RunnerConfigErrorField::AcpMaxConcurrentRuns, "1 and 8"@);
    range_error_is_recognised(RunnerConfigErrorField::AcpPermissionTimeoutSecs, "1 and 60"@);
}

/// A gateway timeout out of its range is recognised as such.
pub proof fn mcp_timeout_fault_is_recognised(rules: RunnerRules, config: McpGatewayConfig)
    requires
        !providers::timeout_in_range(config.request_timeout_secs),
    ensures
        providers::mcp_gateway_fault(rules, config) matches Some(error)
            && reload_report::diagnostic_of(error) == (
            Some(RunnerConfigErrorField::McpRequestTimeoutSecs),
            Some(RunnerConfigErrorReason::OutOfRange),
        ),
{
    range_error_is_recognised(RunnerConfigErrorField::McpRequestTimeoutSecs, "1 and 120"@);
}

/// A file that cannot be read is reported as such, one that does not parse as that, and neither
/// names a field.
pub proof fn file_faults_are_recognised(
    path: Seq<char>,
    read: Result<String, String>,
    decoded: Result<RunnerConfig, String>,
)
    requires
        load::file_fault(path, read, decoded) is Some,
    ensures
        reload_report::error_code_of(load::file_fault(path, read, decoded)->0) == if read is Err {
            RunnerConfigErrorCode::ConfigReadFailed
        } else {
            RunnerConfigErrorCode::ConfigParseFailed
        },
        reload_report::diagnostic_of(load::file_fault(path, read, decoded)->0) == (
            None::<RunnerConfigErrorField>,
            None::<RunnerConfigErrorReason>,
        ),
{
    let error = load::file_fault(path, read, decoded)->0;
    let head = if read is Err {
        "failed to read config"@
    } else {
        "failed to parse config"@
    };
    reveal_strlit("failed to read config");
    reveal_strlit("failed to parse config");
    let rest = error.subrange(head.len() as int, error.len() as int);
    assert(error =~= head + rest);
    begins(head, rest);
    assert(error[0] == 'f' && error[10] == head[10]);
    if read is Ok {
        differs("failed to read config"@, error, 10);
    }
    is_not_about_instructions(error);
    is_not_about_skills(error);
    is_not_about_a_range(error);
    assert(!range_head(RunnerConfigErrorField::MaxConcurrentJobs).is_prefix_of(error));
    assert(!range_head(RunnerConfigErrorField::ShellMaxPersistentShells).is_prefix_of(error));
    assert(!range_head(RunnerConfigErrorField::ShellPersistentShellIdleTimeoutSecs).is_prefix_of(
        error,
    ));
    assert(!range_head(RunnerConfigErrorField::AcpMaxConcurrentRuns).is_prefix_of(error));
    assert(!range_head(RunnerConfigErrorField::AcpPermissionTimeoutSecs).is_prefix_of(error));
    assert(!range_head(RunnerConfigErrorField::McpRequestTimeoutSecs).is_prefix_of(error));
}

/// What is wrong with the tool provider section is reported as a provider fault.
pub proof fn tool_provider_faults_are_recognised(cfg: RunnerConfig)
    requires
        load::tool_provider_fault(cfg) is Some,
    ensures
        reload_report::error_code_of(load::tool_provider_fault(cfg)->0)
            == RunnerConfigErrorCode::ProviderConfigInvalid,
{
    let error = load::tool_provider_fault(cfg)->0;
    reveal_strlit("tool_providers.");
    reveal_strlit("failed to read config");
    reveal_strlit("failed to parse config");
    begins("tool_providers."@, "claude_code.command cannot be empty"@);
    begins("tool_providers."@, "claude_code.timeout_secs must be > 0"@);
    assert(error[0] == 't');
    differs("failed to read config"@, error, 0);
    differs("failed to parse config"@, error, 0);
}

} // verus!
