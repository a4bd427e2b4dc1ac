//! Checks of the shell, transport, path and limit sections.
use crate::config::{
    InstructionsConfig, QuicClientConfig, ShellConfig, ShellProfileConfig, ShellProfileEntry,
    SkillsConfig, SshConfig, SshResourceConfig, SshResourceEntry, TextEntry, CLIENT_PROFILE_ERROR,
    MAX_CONFIGURED_INSTRUCTION_FILES, MAX_CONFIGURED_INSTRUCTION_PATH_BYTES,
    MAX_CONFIGURED_SKILL_ROOTS, MAX_CONFIGURED_SKILL_ROOT_PATH_BYTES, MAX_PERSISTENT_SHELLS,
    MAX_PERSISTENT_SHELL_IDLE_TIMEOUT_SECS, MAX_QUIC_KEEPALIVE_INTERVAL_SECS, MIN_PERSISTENT_SHELLS,
    MIN_PERSISTENT_SHELL_IDLE_TIMEOUT_SECS, RUNNER_JOB_CONCURRENCY_MAX, RUNNER_JOB_CONCURRENCY_MIN,
};
use crate::faults::{self, Fault};
use crate::paths::{
    self, configured_skill_root_identity, is_absolute, project_path_has_parent_traversal,
    windows_project_path_kind, Platform, WindowsProjectPathKind,
};
use crate::text::{
    self, contains_char, contains_text, copy_option, decimal_text, is_ascii_alphanumeric, is_blank,
    join3, list_contains, same, trim, utf8_len,
};
use vstd::prelude::*;
use vstd::string::*;

verus! {

/// Checks the configured job limit.
pub fn validate_max_concurrent_jobs(value: Option<usize>) -> (r: Result<(), String>)
    ensures
        faults::reports(
            r,
            if crate::config::job_limit_in_range(value) {
                None
            } else {
                Some("max_concurrent_jobs must be between "@ + "1 and 64"@)
            },
        ),
{
    match value {
        Some(n) => {
            if n < RUNNER_JOB_CONCURRENCY_MIN || n > RUNNER_JOB_CONCURRENCY_MAX {
                Err("max_concurrent_jobs must be between ".to_owned().concat("1 and 64"))
            } else {
                Ok(())
            }
        },
        None => Ok(()),
    }
}

/// A character of a client profile name.
pub open spec fn profile_char(c: char) -> bool {
    text::ascii_alphanumeric(c) || c == '.' || c == '_' || c == '-'
}

/// A profile name that is safe as one path component.
pub open spec fn safe_profile(s: Seq<char>) -> bool {
    &&& 0 < s.len() <= 80
    &&& s != "."@
    &&& s != ".."@
    &&& forall|i: int| 0 <= i < s.len() ==> profile_char(#[trigger] s[i])
}

/// Returns the trimmed profile name, where it is safe as one path component.
pub fn validate_client_profile(profile: &str) -> (r: Result<String, String>)
    ensures
        match r {
            Ok(name) => name@ == text::trimmed(profile@) && safe_profile(name@),
            Err(message) => message@ == CLIENT_PROFILE_ERROR@ && !safe_profile(text::trimmed(profile@)),
        },
{
    let name = trim(profile);
    if name.is_empty() || same(name, ".") || same(name, "..") || name.unicode_len() > 80 {
        return Err(CLIENT_PROFILE_ERROR.to_owned());
    }
    for c in it: name.chars()
        invariant
            it.seq() == name@,
            name@ == text::trimmed(profile@),
            forall|i: int| 0 <= i < it.index() ==> profile_char(#[trigger] name@[i]),
    {
        if !is_ascii_alphanumeric(c) && c != '.' && c != '_' && c != '-' {
            assert(!profile_char(name@[it.index()]));
            return Err(CLIENT_PROFILE_ERROR.to_owned());
        }
    }
    Ok(name.to_owned())
}

/// An environment key that a shell section may set.
pub open spec fn env_key_ok(key: Seq<char>) -> bool {
    &&& key.len() > 0
    &&& forall|i: int|
        0 <= i < key.len() ==> text::ascii_alphanumeric(#[trigger] key[i]) || key[i] == '_'
}

/// Tells whether `key` is an environment key that a shell section may set.
pub fn validate_env_key(key: &str) -> (r: bool)
    ensures
        r == env_key_ok(key@),
{
    if key.is_empty() {
        return false;
    }
    for c in it: key.chars()
        invariant
            it.seq() == key@,
            forall|i: int|
                0 <= i < it.index() ==> text::ascii_alphanumeric(#[trigger] key@[i]) || key@[i] == '_',
    {
        if !is_ascii_alphanumeric(c) && c != '_' {
            assert(key@[it.index()] == c);
            return false;
        }
    }
    true
}

/// A character of a shell profile name.
pub open spec fn profile_name_char(c: char) -> bool {
    text::ascii_alphanumeric(c) || c == '_' || c == '-' || c == '.'
}

/// What is wrong with a shell profile name.
pub open spec fn profile_name_fault(context: Seq<char>, name: Seq<char>) -> Fault {
    if name.len() == 0 {
        Some(context + " cannot be empty"@)
    } else if text::occurs_in(name, ".."@) {
        Some(context + " cannot contain '..'"@)
    } else if name.contains('/') || name.contains('\\') {
        Some(context + " cannot contain slash or backslash"@)
    } else if exists|i: int| 0 <= i < name.len() && !profile_name_char(#[trigger] name[i]) {
        Some(context + " may only contain ASCII letters, digits, '_', '-', and '.'"@)
    } else {
        None
    }
}

/// Checks a shell profile name; `context` says where it stands.
pub fn validate_shell_profile_name(context: &str, name: &str) -> (r: Result<(), String>)
    ensures
        faults::reports(r, profile_name_fault(context@, name@)),
{
    if name.is_empty() {
        return Err(context.to_owned().concat(" cannot be empty"));
    }
    if contains_text(name, "..") {
        return Err(context.to_owned().concat(" cannot contain '..'"));
    }
    if contains_char(name, '/') || contains_char(name, '\\') {
        return Err(context.to_owned().concat(" cannot contain slash or backslash"));
    }
    for c in it: name.chars()
        invariant
            it.seq() == name@,
            name@.len() > 0,
            !text::occurs_in(name@, ".."@),
            !name@.contains('/'),
            !name@.contains('\\'),
            forall|i: int| 0 <= i < it.index() ==> profile_name_char(#[trigger] name@[i]),
    {
        if !is_ascii_alphanumeric(c) && c != '_' && c != '-' && c != '.' {
            assert(!profile_name_char(name@[it.index()]));
            return Err(
                context.to_owned().concat(
                    " may only contain ASCII letters, digits, '_', '-', and '.'",
                ),
            );
        }
    }
    Ok(())
}

/// Some text of the list is blank.
pub open spec fn some_blank(v: Seq<String>) -> bool {
    exists|i: int| 0 <= i < v.len() && text::blank((#[trigger] v[i])@)
}

/// Tells whether some text of the list is blank.
fn has_blank(v: &Vec<String>) -> (r: bool)
    ensures
        r == some_blank(v@),
{
    for i in 0..v.len()
        invariant
            forall|j: int| 0 <= j < i ==> !text::blank((#[trigger] v@[j])@),
    {
        if is_blank(v[i].as_str()) {
            return true;
        }
    }
    false
}

/// Some text of the list is empty.
pub open spec fn some_empty(v: Seq<String>) -> bool {
    exists|i: int| 0 <= i < v.len() && (#[trigger] v[i])@.len() == 0
}

/// Tells whether some text of the list is empty.
fn has_empty(v: &Vec<String>) -> (r: bool)
    ensures
        r == some_empty(v@),
{
    for i in 0..v.len()
        invariant
            forall|j: int| 0 <= j < i ==> (#[trigger] v@[j])@.len() != 0,
    {
        if v[i].as_str().is_empty() {
            assert(v@[i as int]@.len() == 0);
            return true;
        }
    }
    false
}

/// What is wrong with the keys of an environment map, entry by entry.
pub open spec fn env_key_faults(prefix: Seq<char>, env: Seq<TextEntry>) -> spec_fn(int) -> Fault {
    |i: int|
        if env_key_ok(env[i].key@) {
            None
        } else {
            Some(prefix + env[i].key@ + "'"@)
        }
}

/// Checks the keys of an environment map; the first bad key is reported after `prefix`.
fn check_env_keys(prefix: &str, env: &Vec<TextEntry>) -> (r: Result<(), String>)
    ensures
        faults::reports(
            r,
            faults::first_fault(0, env@.len() as int, env_key_faults(prefix@, env@)),
        ),
{
    let ghost check = env_key_faults(prefix@, env@);
    for i in 0..env.len()
        invariant
            check == env_key_faults(prefix@, env@),
            forall|k: int| 0 <= k < i ==> (#[trigger] check(k)) is None,
    {
        if !validate_env_key(env[i].key.as_str()) {
            proof {
                faults::first_fault_found(0, i as int, env@.len() as int, check);
            }
            return Err(join3(prefix, env[i].key.as_str(), "'"));
        }
    }
    proof {
        faults::first_fault_none(0, env@.len() as int, check);
    }
    Ok(())
}

/// What is wrong with one shell profile.
pub open spec fn profile_fault(name: Seq<char>, profile: ShellProfileConfig) -> Fault {
    let here = "shell.profiles."@ + name;
    if profile.program is Some && text::blank(profile.program->0@) {
        Some(here + ".program cannot be empty"@)
    } else if profile.args is Some && profile.args->0@.len() == 0 {
        Some(here + ".args must include the command flag, for example [\"-c\"]"@)
    } else if profile.args is Some && some_blank(profile.args->0@) {
        Some(here + ".args cannot contain empty values"@)
    } else {
        let keys = faults::first_fault(
            0,
            profile.env@.len() as int,
            env_key_faults(here + ".env contains invalid key '"@, profile.env@),
        );
        if keys is Some {
            keys
        } else if profile.init_script is Some && text::blank(profile.init_script->0@) {
            Some(here + ".init_script cannot be empty"@)
        } else {
            None
        }
    }
}

/// Checks one shell profile.
pub fn validate_shell_profile_config(name: &str, profile: &ShellProfileConfig) -> (r: Result<
    (),
    String,
>)
    ensures
        faults::reports(r, profile_fault(name@, *profile)),
{
    if let Some(program) = &profile.program {
        if is_blank(program.as_str()) {
            return Err(join3("shell.profiles.", name, ".program cannot be empty"));
        }
    }
    if let Some(args) = &profile.args {
        if args.len() == 0 {
            return Err(
                join3(
                    "shell.profiles.",
                    name,
                    ".args must include the command flag, for example [\"-c\"]",
                ),
            );
        }
        if has_blank(args) {
            return Err(join3("shell.profiles.", name, ".args cannot contain empty values"));
        }
    }
    check_env_keys(
        join3("shell.profiles.", name, ".env contains invalid key '").as_str(),
        &profile.env,
    )?;
    if let Some(script) = &profile.init_script {
        if is_blank(script.as_str()) {
            return Err(join3("shell.profiles.", name, ".init_script cannot be empty"));
        }
    }
    Ok(())
}

/// A profile of that name is configured.
pub open spec fn profile_configured(profiles: Seq<ShellProfileEntry>, name: Seq<char>) -> bool {
    exists|i: int| 0 <= i < profiles.len() && (#[trigger] profiles[i]).name@ == name
}

/// Tells whether a profile of that name is configured.
pub fn has_profile(profiles: &Vec<ShellProfileEntry>, name: &str) -> (r: bool)
    ensures
        r == profile_configured(profiles@, name@),
{
    for i in 0..profiles.len()
        invariant
            forall|j: int| 0 <= j < i ==> (#[trigger] profiles@[j]).name@ != name@,
    {
        if same(profiles[i].name.as_str(), name) {
            assert(profiles@[i as int].name@ == name@);
            return true;
        }
    }
    false
}

/// What is wrong with the configured profiles, profile by profile.
pub open spec fn profile_faults(profiles: Seq<ShellProfileEntry>) -> spec_fn(int) -> Fault {
    |i: int|
        {
            let named = profile_name_fault("shell profile name"@, profiles[i].name@);
            if named is Some {
                named
            } else {
                profile_fault(profiles[i].name@, profiles[i].profile)
            }
        }
}

/// What is wrong with the default profile.
pub open spec fn default_profile_fault(shell: ShellConfig) -> Fault {
    match shell.default_profile {
        None => None,
        Some(name) => {
            let named = profile_name_fault("shell.default_profile"@, name@);
            if named is Some {
                named
            } else if !profile_configured(shell.profiles@, name@) {
                Some(
                    "shell.default_profile '"@ + name@
                        + "' does not match any shell.profiles entry"@,
                )
            } else {
                None
            }
        },
    }
}

/// What is wrong with the top-level settings of the shell section.
pub open spec fn shell_settings_fault(shell: ShellConfig) -> Fault {
    if text::blank(shell.program@) {
        Some("shell.program cannot be empty"@)
    } else if shell.args@.len() == 0 {
        Some("shell.args must include the command flag, for example [\"-c\"]"@)
    } else if some_blank(shell.args@) {
        Some("shell.args cannot contain empty values"@)
    } else if some_empty(shell.path_prepend@) {
        Some("shell.path_prepend cannot contain empty paths"@)
    } else {
        let keys = faults::first_fault(
            0,
            shell.env@.len() as int,
            env_key_faults("shell.env contains invalid key '"@, shell.env@),
        );
        if keys is Some {
            keys
        } else if shell.init_script is Some && shell.init_script->0@.len() == 0 {
            Some("shell.init_script cannot be empty"@)
        } else if !(MIN_PERSISTENT_SHELLS <= shell.max_persistent_shells
            <= MAX_PERSISTENT_SHELLS) {
            Some("shell.max_persistent_shells must be between "@ + "1 and 64"@)
        } else if !(MIN_PERSISTENT_SHELL_IDLE_TIMEOUT_SECS
            <= shell.persistent_shell_idle_timeout_secs
            <= MAX_PERSISTENT_SHELL_IDLE_TIMEOUT_SECS) {
            Some("shell.persistent_shell_idle_timeout_secs must be between "@ + "1 and 86400"@)
        } else {
            None
        }
    }
}

/// What is wrong with the shell section: the default profile first, then the profiles in their
/// order, then the top-level settings.
pub open spec fn shell_fault(shell: ShellConfig) -> Fault {
    let default = default_profile_fault(shell);
    let profiles = faults::first_fault(
        0,
        shell.profiles@.len() as int,
        profile_faults(shell.profiles@),
    );
    if default is Some {
        default
    } else if profiles is Some {
        profiles
    } else {
        shell_settings_fault(shell)
    }
}

fn check_default_profile(shell: &ShellConfig) -> (r: Result<(), String>)
    ensures
        faults::reports(r, default_profile_fault(*shell)),
{
    if let Some(name) = &shell.default_profile {
        validate_shell_profile_name("shell.default_profile", name.as_str())?;
        if !has_profile(&shell.profiles, name.as_str()) {
            return Err(
                join3(
                    "shell.default_profile '",
                    name.as_str(),
                    "' does not match any shell.profiles entry",
                ),
            );
        }
    }
    Ok(())
}

fn check_profiles(profiles: &Vec<ShellProfileEntry>) -> (r: Result<(), String>)
    ensures
        faults::reports(
            r,
            faults::first_fault(0, profiles@.len() as int, profile_faults(profiles@)),
        ),
{
    let ghost check = profile_faults(profiles@);
    for i in 0..profiles.len()
        invariant
            check == profile_faults(profiles@),
            forall|k: int| 0 <= k < i ==> (#[trigger] check(k)) is None,
    {
        let name = profiles[i].name.as_str();
        if let Err(message) = validate_shell_profile_name("shell profile name", name) {
            proof {
                faults::first_fault_found(0, i as int, profiles@.len() as int, check);
            }
            return Err(message);
        }
        if let Err(message) = validate_shell_profile_config(name, &profiles[i].profile) {
            proof {
                faults::first_fault_found(0, i as int, profiles@.len() as int, check);
            }
            return Err(message);
        }
    }
    proof {
        faults::first_fault_none(0, profiles@.len() as int, check);
    }
    Ok(())
}

fn check_shell_settings(shell: &ShellConfig) -> (r: Result<(), String>)
    ensures
        faults::reports(r, shell_settings_fault(*shell)),
{
    if is_blank(shell.program.as_str()) {
        return Err("shell.program cannot be empty".to_owned());
    }
    if shell.args.len() == 0 {
        return Err("shell.args must include the command flag, for example [\"-c\"]".to_owned());
    }
    if has_blank(&shell.args) {
        return Err("shell.args cannot contain empty values".to_owned());
    }
    if has_empty(&shell.path_prepend) {
        return Err("shell.path_prepend cannot contain empty paths".to_owned());
    }
    check_env_keys("shell.env contains invalid key '", &shell.env)?;
    if let Some(script) = &shell.init_script {
        if script.as_str().is_empty() {
            return Err("shell.init_script cannot be empty".to_owned());
        }
    }
    if shell.max_persistent_shells < MIN_PERSISTENT_SHELLS || shell.max_persistent_shells
        > MAX_PERSISTENT_SHELLS {
        return Err("shell.max_persistent_shells must be between ".to_owned().concat("1 and 64"));
    }
    if shell.persistent_shell_idle_timeout_secs < MIN_PERSISTENT_SHELL_IDLE_TIMEOUT_SECS
        || shell.persistent_shell_idle_timeout_secs > MAX_PERSISTENT_SHELL_IDLE_TIMEOUT_SECS {
        return Err(
            "shell.persistent_shell_idle_timeout_secs must be between ".to_owned().concat(
                "1 and 86400",
            ),
        );
    }
    Ok(())
}

/// Checks the shell section.
pub fn validate_shell_config(shell: &ShellConfig) -> (r: Result<(), String>)
    ensures
        faults::reports(r, shell_fault(*shell)),
{
    check_default_profile(shell)?;
    check_profiles(&shell.profiles)?;
    check_shell_settings(shell)
}

/// What is wrong with the QUIC section.
pub open spec fn quic_fault(quic: QuicClientConfig) -> Fault {
    if text::blank(quic.server_addr@) {
        Some("[quic] server_addr is required for transport=quic"@)
    } else if text::blank(quic.server_name@) {
        Some("[quic] server_name is required for transport=quic"@)
    } else if text::blank(quic.alpn@) {
        Some("[quic] alpn cannot be empty"@)
    } else if quic.connect_timeout_secs == 0 {
        Some("[quic] connect_timeout_secs must be > 0"@)
    } else if quic.keepalive_interval_secs == 0 {
        Some("[quic] keepalive_interval_secs must be > 0"@)
    } else if quic.keepalive_interval_secs > MAX_QUIC_KEEPALIVE_INTERVAL_SECS {
        Some("[quic] keepalive_interval_secs must be <= 25"@)
    } else {
        None
    }
}

/// Checks the QUIC section.
pub fn validate_quic_config(quic: &QuicClientConfig) -> (r: Result<(), String>)
    ensures
        faults::reports(r, quic_fault(*quic)),
{
    if is_blank(quic.server_addr.as_str()) {
        return Err("[quic] server_addr is required for transport=quic".to_owned());
    }
    if is_blank(quic.server_name.as_str()) {
        return Err("[quic] server_name is required for transport=quic".to_owned());
    }
    if is_blank(quic.alpn.as_str()) {
        return Err("[quic] alpn cannot be empty".to_owned());
    }
    if quic.connect_timeout_secs == 0 {
        return Err("[quic] connect_timeout_secs must be > 0".to_owned());
    }
    if quic.keepalive_interval_secs == 0 {
        return Err("[quic] keepalive_interval_secs must be > 0".to_owned());
    }
    if quic.keepalive_interval_secs > MAX_QUIC_KEEPALIVE_INTERVAL_SECS {
        return Err("[quic] keepalive_interval_secs must be <= 25".to_owned());
    }
    Ok(())
}

/// A path list setting: how it is named and bounded.
pub struct PathListLimits {
    pub max_entries: usize,
    pub max_path_bytes: usize,
}

/// How the texts begin with which a path list setting is refused.
pub struct PathListMessages {
    pub too_many: &'static str,
    pub bad_length: &'static str,
    pub not_absolute: &'static str,
    pub namespace: &'static str,
    pub duplicate: &'static str,
}

/// The refusal of too many entries.
pub open spec fn too_many_text(limits: PathListLimits, messages: PathListMessages) -> Seq<char> {
    messages.too_many@ + text::decimal(limits.max_entries as nat) + " entries"@
}

/// The refusal of an empty or long path.
pub open spec fn bad_length_text(limits: PathListLimits, messages: PathListMessages) -> Seq<char> {
    messages.bad_length@ + text::decimal(limits.max_path_bytes as nat) + " bytes"@
}

/// The refusal of a path that is not absolute or leads upwards.
pub open spec fn not_absolute_text(messages: PathListMessages) -> Seq<char> {
    messages.not_absolute@ + " without parent traversal"@
}

/// What is wrong with the paths of a list, path by path.
pub open spec fn path_faults(
    platform: Platform,
    limits: PathListLimits,
    messages: PathListMessages,
    paths: Seq<String>,
) -> spec_fn(int) -> Fault {
    |i: int|
        {
            let path = paths[i]@;
            if path.len() == 0 || text::byte_len(path) > limits.max_path_bytes || path.contains(
                '\0',
            ) {
                Some(bad_length_text(limits, messages))
            } else if !paths::absolute(platform, path) || paths::parent_traversal(platform, path) {
                Some(not_absolute_text(messages))
            } else if platform == Platform::Windows && paths::windows_path_kind(path) == Some(
                WindowsProjectPathKind::UnsupportedNamespace,
            ) {
                Some(messages.namespace@)
            } else if exists|j: int|
                0 <= j < i && paths::path_identity(platform, (#[trigger] paths[j])@) == paths::path_identity(
                    platform,
                    path,
                ) {
                Some(messages.duplicate@)
            } else {
                None
            }
        }
}

/// What is wrong with a path list.
pub open spec fn path_list_fault(
    platform: Platform,
    limits: PathListLimits,
    messages: PathListMessages,
    paths: Seq<String>,
) -> Fault {
    if paths.len() > limits.max_entries {
        Some(too_many_text(limits, messages))
    } else {
        faults::first_fault(0, paths.len() as int, path_faults(platform, limits, messages, paths))
    }
}

fn check_path_list(
    platform: Platform,
    limits: PathListLimits,
    messages: PathListMessages,
    paths: &Vec<String>,
) -> (r: Result<(), String>)
    ensures
        faults::reports(r, path_list_fault(platform, limits, messages, paths@)),
{
    if paths.len() > limits.max_entries {
        return Err(
            join3(
                messages.too_many,
                decimal_text(limits.max_entries as u64).as_str(),
                " entries",
            ),
        );
    }
    let ghost check = path_faults(platform, limits, messages, paths@);
    let mut identities: Vec<String> = Vec::new();
    for i in 0..paths.len()
        invariant
            paths@.len() <= limits.max_entries,
            check == path_faults(platform, limits, messages, paths@),
            identities@.len() == i,
            forall|k: int|
                0 <= k < i ==> (#[trigger] identities@[k])@ == paths::path_identity(
                    platform,
                    paths@[k]@,
                ),
            forall|k: int| 0 <= k < i ==> (#[trigger] check(k)) is None,
    {
        let path = paths[i].as_str();
        let problem: Option<String> = if path.is_empty() || utf8_len(path) > limits.max_path_bytes
            || contains_char(path, '\0') {
            Some(
                join3(
                    messages.bad_length,
                    decimal_text(limits.max_path_bytes as u64).as_str(),
                    " bytes",
                ),
            )
        } else if !is_absolute(platform, path) || project_path_has_parent_traversal(
            platform,
            path,
        ) {
            Some(messages.not_absolute.to_owned().concat(" without parent traversal"))
        } else if platform == Platform::Windows && (match windows_project_path_kind(path) {
            Some(WindowsProjectPathKind::UnsupportedNamespace) => true,
            _ => false,
        }) {
            Some(messages.namespace.to_owned())
        } else {
            let identity = configured_skill_root_identity(platform, path);
            let seen = list_contains(&identities, identity.as_str());
            proof {
                if seen {
                    let j = choose|j: int|
                        0 <= j < text::list_view(identities@).len() && text::list_view(identities@)[j]
                            == identity@;
                    assert(identities@[j]@ == identity@);
                    assert(paths::path_identity(platform, paths@[j]@) == identity@);
                } else {
                    assert forall|j: int| 0 <= j < i implies paths::path_identity(
                        platform,
                        (#[trigger] paths@[j])@,
                    ) != identity@ by {
                        assert(identities@[j]@ == paths::path_identity(platform, paths@[j]@));
                        assert(text::list_view(identities@)[j] == identities@[j]@);
                    }
                }
            }
            identities.push(identity);
            if seen {
                Some(messages.duplicate.to_owned())
            } else {
                None
            }
        };
        if let Some(message) = problem {
            proof {
                assert(check(i as int) == Some(message@));
                faults::first_fault_found(0, i as int, paths@.len() as int, check);
            }
            return Err(message);
        }
        assert(check(i as int) is None);
    }
    proof {
        faults::first_fault_none(0, paths@.len() as int, check);
    }
    Ok(())
}

/// The bounds of `instructions.files`.
pub open spec fn instruction_limits() -> PathListLimits {
    PathListLimits {
        max_entries: MAX_CONFIGURED_INSTRUCTION_FILES,
        max_path_bytes: MAX_CONFIGURED_INSTRUCTION_PATH_BYTES,
    }
}

/// The refusals of `instructions.files`.
pub open spec fn instruction_messages() -> PathListMessages {
    PathListMessages {
        too_many: "instructions.files may contain at most ",
        bad_length: "instructions.files entries must be non-empty paths of at most ",
        not_absolute: "instructions.files entries must be absolute paths",
        namespace: "instructions.files contains an unsupported Windows path namespace",
        duplicate: "instructions.files contains duplicate path identities",
    }
}

/// The bounds of `skills.roots`.
pub open spec fn skill_limits() -> PathListLimits {
    PathListLimits {
        max_entries: MAX_CONFIGURED_SKILL_ROOTS,
        max_path_bytes: MAX_CONFIGURED_SKILL_ROOT_PATH_BYTES,
    }
}

/// The refusals of `skills.roots`.
pub open spec fn skill_messages() -> PathListMessages {
    PathListMessages {
        too_many: "skills.roots may contain at most ",
        bad_length: "skills.roots entries must be non-empty paths of at most ",
        not_absolute: "skills.roots entries must be absolute paths",
        namespace: "skills.roots contains an unsupported Windows path namespace",
        duplicate: "skills.roots contains duplicate path identities",
    }
}

/// What is wrong with the instruction files.
pub open spec fn instructions_fault(platform: Platform, config: InstructionsConfig) -> Fault {
    path_list_fault(platform, instruction_limits(), instruction_messages(), config.files@)
}

/// What is wrong with the skill roots.
pub open spec fn skills_fault(platform: Platform, config: SkillsConfig) -> Fault {
    path_list_fault(platform, skill_limits(), skill_messages(), config.roots@)
}

/// Checks the instruction files.
pub fn validate_instructions_config(platform: Platform, config: &InstructionsConfig) -> (r: Result<
    (),
    String,
>)
    ensures
        faults::reports(r, instructions_fault(platform, *config)),
{
    check_path_list(
        platform,
        PathListLimits {
            max_entries: MAX_CONFIGURED_INSTRUCTION_FILES,
            max_path_bytes: MAX_CONFIGURED_INSTRUCTION_PATH_BYTES,
        },
        PathListMessages {
            too_many: "instructions.files may contain at most ",
            bad_length: "instructions.files entries must be non-empty paths of at most ",
            not_absolute: "instructions.files entries must be absolute paths",
            namespace: "instructions.files contains an unsupported Windows path namespace",
            duplicate: "instructions.files contains duplicate path identities",
        },
        &config.files,
    )
}

/// Checks the skill roots.
pub fn validate_skills_config(platform: Platform, config: &SkillsConfig) -> (r: Result<(), String>)
    ensures
        faults::reports(r, skills_fault(platform, *config)),
{
    check_path_list(
        platform,
        PathListLimits {
            max_entries: MAX_CONFIGURED_SKILL_ROOTS,
            max_path_bytes: MAX_CONFIGURED_SKILL_ROOT_PATH_BYTES,
        },
        PathListMessages {
            too_many: "skills.roots may contain at most ",
            bad_length: "skills.roots entries must be non-empty paths of at most ",
            not_absolute: "skills.roots entries must be absolute paths",
            namespace: "skills.roots contains an unsupported Windows path namespace",
            duplicate: "skills.roots contains duplicate path identities",
        },
        &config.roots,
    )
}

/// What the shared rules make of one SSH resource: whether its name is one, its host in normal
/// form, and its default directory in normal form. What is not acceptable has none.
#[derive(Debug)]
pub struct SshVerdict {
    pub name_ok: bool,
    pub host: Option<String>,
    pub default_cwd: Option<Option<String>>,
}

/// What is wrong with the SSH resources, resource by resource.
pub open spec fn ssh_faults(
    resources: Seq<SshResourceEntry>,
    verdicts: Seq<SshVerdict>,
) -> spec_fn(int) -> Fault {
    |i: int|
        {
            let name = resources[i].name@;
            if !verdicts[i].name_ok {
                Some("ssh resource name is invalid"@)
            } else if verdicts[i].host is None {
                Some("ssh.resources."@ + name + ".host must be a non-empty safe SSH destination"@)
            } else if verdicts[i].default_cwd is None {
                Some(
                    "ssh.resources."@ + name
                        + ".default_cwd must be a non-empty remote path without control characters"@,
                )
            } else {
                None
            }
        }
}

/// What is wrong with the SSH resources.
pub open spec fn ssh_fault(resources: Seq<SshResourceEntry>, verdicts: Seq<SshVerdict>) -> Fault {
    faults::first_fault(0, resources.len() as int, ssh_faults(resources, verdicts))
}

/// A resource in normal form.
pub open spec fn normal_resource(
    entry: SshResourceEntry,
    verdict: SshVerdict,
) -> SshResourceEntry {
    SshResourceEntry {
        name: entry.name,
        resource: SshResourceConfig {
            host: verdict.host->0,
            default_cwd: verdict.default_cwd->0,
        },
    }
}

/// The resources where resource `k` is refused: those before it are in normal form, and so is its
/// own host where only its directory is refused.
pub open spec fn resources_up_to(
    resources: Seq<SshResourceEntry>,
    verdicts: Seq<SshVerdict>,
    k: int,
) -> Seq<SshResourceEntry> {
    Seq::new(
        resources.len(),
        |i: int|
            if i < k {
                normal_resource(resources[i], verdicts[i])
            } else if i == k && verdicts[i].name_ok && verdicts[i].host is Some {
                SshResourceEntry {
                    name: resources[i].name,
                    resource: SshResourceConfig {
                        host: verdicts[i].host->0,
                        default_cwd: resources[i].resource.default_cwd,
                    },
                }
            } else {
                resources[i]
            },
    )
}

/// Resource `k` is the first that is refused.
pub open spec fn first_refused(
    resources: Seq<SshResourceEntry>,
    verdicts: Seq<SshVerdict>,
    k: int,
) -> bool {
    &&& 0 <= k < resources.len()
    &&& ssh_faults(resources, verdicts)(k) is Some
    &&& forall|j: int| 0 <= j < k ==> (#[trigger] ssh_faults(resources, verdicts)(j)) is None
}

/// Checks the SSH resources and brings them into normal form. `verdicts` holds what the shared
/// rules make of each. Where one is refused, those before it are in normal form already.
pub fn validate_ssh_config(ssh: &mut SshConfig, verdicts: &Vec<SshVerdict>) -> (r: Result<
    (),
    String,
>)
    requires
        verdicts@.len() == old(ssh).resources@.len(),
    ensures
        faults::reports(r, ssh_fault(old(ssh).resources@, verdicts@)),
        r is Ok ==> final(ssh).resources@ == resources_up_to(
            old(ssh).resources@,
            verdicts@,
            old(ssh).resources@.len() as int,
        ),
        r is Err ==> exists|k: int|
            first_refused(old(ssh).resources@, verdicts@, k) && final(ssh).resources@
                == #[trigger] resources_up_to(old(ssh).resources@, verdicts@, k),
{
    let ghost before = ssh.resources@;
    let ghost check = ssh_faults(before, verdicts@);
    let count: usize = ssh.resources.len();
    for i in 0..count
        invariant
            count == before.len(),
            before == old(ssh).resources@,
            ssh.resources@.len() == before.len(),
            verdicts@.len() == before.len(),
            check == ssh_faults(before, verdicts@),
            forall|k: int| 0 <= k < i ==> (#[trigger] check(k)) is None,
            forall|k: int|
                0 <= k < i ==> (#[trigger] ssh.resources@[k]) == normal_resource(
                    before[k],
                    verdicts@[k],
                ),
            forall|k: int| i <= k < before.len() ==> (#[trigger] ssh.resources@[k]) == before[k],
    {
        let verdict = &verdicts[i];
        let name = ssh.resources[i].name.clone();
        if !verdict.name_ok {
            proof {
                faults::first_fault_found(0, i as int, before.len() as int, check);
                assert(first_refused(before, verdicts@, i as int));
                assert(ssh.resources@ =~= resources_up_to(before, verdicts@, i as int));
            }
            return Err("ssh resource name is invalid".to_owned());
        }
        let host = match &verdict.host {
            Some(host) => host.clone(),
            None => {
                proof {
                    faults::first_fault_found(0, i as int, before.len() as int, check);
                    assert(first_refused(before, verdicts@, i as int));
                    assert(ssh.resources@ =~= resources_up_to(before, verdicts@, i as int));
                }
                return Err(
                    join3(
                        "ssh.resources.",
                        name.as_str(),
                        ".host must be a non-empty safe SSH destination",
                    ),
                );
            },
        };
        let default_cwd = match &verdict.default_cwd {
            Some(default_cwd) => copy_option(default_cwd),
            None => {
                let unchanged = copy_option(&ssh.resources[i].resource.default_cwd);
                let message = join3(
                    "ssh.resources.",
                    name.as_str(),
                    ".default_cwd must be a non-empty remote path without control characters",
                );
                ssh.resources.set(
                    i,
                    SshResourceEntry {
                        name,
                        resource: SshResourceConfig { host, default_cwd: unchanged },
                    },
                );
                proof {
                    faults::first_fault_found(0, i as int, before.len() as int, check);
                    assert(first_refused(before, verdicts@, i as int));
                    assert(ssh.resources@ =~= resources_up_to(before, verdicts@, i as int));
                }
                return Err(message);
            },
        };
        ssh.resources.set(
            i,
            SshResourceEntry { name, resource: SshResourceConfig { host, default_cwd } },
        );
        assert(check(i as int) is None);
    }
    proof {
        faults::first_fault_none(0, before.len() as int, check);
        assert(ssh.resources@ =~= resources_up_to(before, verdicts@, before.len() as int));
    }
    Ok(())
}

// ---------------------------------------------------------------------------------------------
// Laws
// ---------------------------------------------------------------------------------------------
/// A path that may be configured.
pub open spec fn path_valid(platform: Platform, limits: PathListLimits, path: Seq<char>) -> bool {
    &&& 0 < path.len()
    &&& text::byte_len(path) <= limits.max_path_bytes
    &&& !path.contains('\0')
    &&& paths::absolute(platform, path)
    &&& !paths::parent_traversal(platform, path)
    &&& platform == Platform::Windows ==> paths::windows_path_kind(path) != Some(
        WindowsProjectPathKind::UnsupportedNamespace,
    )
}

/// A list of paths that may be configured: not too many, each one usable, and no two alike.
pub open spec fn path_list_valid(
    platform: Platform,
    limits: PathListLimits,
    paths: Seq<String>,
) -> bool {
    &&& paths.len() <= limits.max_entries
    &&& forall|i: int| 0 <= i < paths.len() ==> path_valid(platform, limits, (#[trigger] paths[i])@)
    &&& forall|j: int, i: int|
        0 <= j < i < paths.len() ==> paths::path_identity(platform, (#[trigger] paths[j])@)
            != paths::path_identity(platform, (#[trigger] paths[i])@)
}

/// A path list is accepted exactly where it is valid.
pub proof fn path_list_accepted_iff_valid(
    platform: Platform,
    limits: PathListLimits,
    messages: PathListMessages,
    paths: Seq<String>,
)
    ensures
        path_list_fault(platform, limits, messages, paths) is None <==> path_list_valid(
            platform,
            limits,
            paths,
        ),
{
    let check = path_faults(platform, limits, messages, paths);
    faults::first_fault_none(0, paths.len() as int, check);
    if path_list_fault(platform, limits, messages, paths) is None {
        assert forall|i: int| 0 <= i < paths.len() implies path_valid(
            platform,
            limits,
            (#[trigger] paths[i])@,
        ) by {
            assert(check(i) is None);
        }
        assert forall|j: int, i: int| 0 <= j < i < paths.len() implies paths::path_identity(
            platform,
            (#[trigger] paths[j])@,
        ) != paths::path_identity(platform, (#[trigger] paths[i])@) by {
            assert(check(i) is None);
        }
    }
    if path_list_valid(platform, limits, paths) {
        assert forall|k: int| 0 <= k < paths.len() implies (#[trigger] check(k)) is None by {
            assert(path_valid(platform, limits, paths[k]@));
        }
    }
}

/// A shell profile that may be configured.
pub open spec fn profile_valid(entry: ShellProfileEntry) -> bool {
    let profile = entry.profile;
    &&& profile_name_fault("shell profile name"@, entry.name@) is None
    &&& profile.program matches Some(program) ==> !text::blank(program@)
    &&& profile.args matches Some(args) ==> args@.len() > 0 && !some_blank(args@)
    &&& forall|i: int| 0 <= i < profile.env@.len() ==> env_key_ok((#[trigger] profile.env@[i]).key@)
    &&& profile.init_script matches Some(script) ==> !text::blank(script@)
}

/// A shell section that may be configured.
pub open spec fn shell_valid(shell: ShellConfig) -> bool {
    &&& shell.default_profile matches Some(name) ==> profile_name_fault(
        "shell.default_profile"@,
        name@,
    ) is None && profile_configured(shell.profiles@, name@)
    &&& forall|i: int| 0 <= i < shell.profiles@.len() ==> profile_valid(#[trigger] shell.profiles@[i])
    &&& !text::blank(shell.program@)
    &&& shell.args@.len() > 0
    &&& !some_blank(shell.args@)
    &&& !some_empty(shell.path_prepend@)
    &&& forall|i: int| 0 <= i < shell.env@.len() ==> env_key_ok((#[trigger] shell.env@[i]).key@)
    &&& shell.init_script matches Some(script) ==> script@.len() > 0
    &&& 1 <= shell.max_persistent_shells <= 64
    &&& 1 <= shell.persistent_shell_idle_timeout_secs <= 86400
}

proof fn env_keys_accepted_iff_ok(prefix: Seq<char>, env: Seq<TextEntry>)
    ensures
        faults::first_fault(0, env.len() as int, env_key_faults(prefix, env)) is None <==> (
        forall|i: int| 0 <= i < env.len() ==> env_key_ok((#[trigger] env[i]).key@)),
{
    let check = env_key_faults(prefix, env);
    faults::first_fault_none(0, env.len() as int, check);
    if faults::first_fault(0, env.len() as int, check) is None {
        assert forall|i: int| 0 <= i < env.len() implies env_key_ok((#[trigger] env[i]).key@) by {
            assert(check(i) is None);
        }
    } else {
        let k = faults::first_fault_is_one(0, env.len() as int, check);
        assert(!env_key_ok(env[k].key@));
    }
}

/// A shell section is accepted exactly where it is valid.
pub proof fn shell_accepted_iff_valid(shell: ShellConfig)
    ensures
        shell_fault(shell) is None <==> shell_valid(shell),
{
    let profiles = shell.profiles@;
    let check = profile_faults(profiles);
    faults::first_fault_none(0, profiles.len() as int, check);
    env_keys_accepted_iff_ok("shell.env contains invalid key '"@, shell.env@);
    assert forall|k: int| 0 <= k < profiles.len() implies ((#[trigger] check(k)) is None
        <==> profile_valid(profiles[k])) by {
        env_keys_accepted_iff_ok(
            "shell.profiles."@ + profiles[k].name@ + ".env contains invalid key '"@,
            profiles[k].profile.env@,
        );
    }
    if faults::first_fault(0, profiles.len() as int, check) is None {
        assert forall|i: int| 0 <= i < profiles.len() implies profile_valid(
            #[trigger] profiles[i],
        ) by {
            assert(check(i) is None);
        }
    }
}

/// Two environments have the same keys in the same order.
pub open spec fn same_keys(a: Seq<TextEntry>, b: Seq<TextEntry>) -> bool {
    &&& a.len() == b.len()
    &&& forall|i: int| 0 <= i < a.len() ==> (#[trigger] a[i]).key@ == b[i].key@
}

/// The two sections differ at most in what their scripts, their profile descriptions and their
/// environment values say: no key differs, and no script is missing or blank in one alone.
pub open spec fn same_but_contents(a: ShellConfig, b: ShellConfig) -> bool {
    &&& b == (ShellConfig {
        profiles: b.profiles,
        env: b.env,
        init_script: b.init_script,
        ..a
    })
    &&& same_keys(a.env@, b.env@)
    &&& a.init_script is Some == b.init_script is Some
    &&& a.init_script is Some ==> (a.init_script->0@.len() == 0) == (b.init_script->0@.len() == 0)
    &&& a.profiles@.len() == b.profiles@.len()
    &&& forall|i: int|
        0 <= i < a.profiles@.len() ==> {
            let p = #[trigger] a.profiles@[i];
            let q = b.profiles@[i];
            &&& p.name == q.name
            &&& q.profile == (ShellProfileConfig {
                description: q.profile.description,
                env: q.profile.env,
                init_script: q.profile.init_script,
                ..p.profile
            })
            &&& same_keys(p.profile.env@, q.profile.env@)
            &&& p.profile.init_script is Some == q.profile.init_script is Some
            &&& p.profile.init_script is Some ==> text::blank(p.profile.init_script->0@)
                == text::blank(q.profile.init_script->0@)
        }
}

proof fn same_keys_same_fault(prefix: Seq<char>, a: Seq<TextEntry>, b: Seq<TextEntry>)
    requires
        same_keys(a, b),
    ensures
        faults::first_fault(0, a.len() as int, env_key_faults(prefix, a)) == faults::first_fault(
            0,
            b.len() as int,
            env_key_faults(prefix, b),
        ),
{
    let check = env_key_faults(prefix, a);
    let other = env_key_faults(prefix, b);
    assert forall|k: int| 0 <= k < a.len() implies (#[trigger] check(k)) == other(k) by {
        assert(a[k].key@ == b[k].key@);
    }
    faults::same_checks_same_fault(0, a.len() as int, check, other);
}

/// What a shell section is refused for does not depend on what its scripts, its profile
/// descriptions and its environment values say: no complaint can show a part of one.
pub proof fn complaints_do_not_show_contents(a: ShellConfig, b: ShellConfig)
    requires
        same_but_contents(a, b),
    ensures
        shell_fault(a) == shell_fault(b),
{
    let n = a.profiles@.len() as int;
    let check = profile_faults(a.profiles@);
    let other = profile_faults(b.profiles@);
    assert forall|k: int| 0 <= k < n implies (#[trigger] check(k)) == other(k) by {
        assert(a.profiles@[k].name == b.profiles@[k].name);
        same_keys_same_fault(
            "shell.profiles."@ + a.profiles@[k].name@ + ".env contains invalid key '"@,
            a.profiles@[k].profile.env@,
            b.profiles@[k].profile.env@,
        );
    }
    same_keys_same_fault("shell.env contains invalid key '"@, a.env@, b.env@);
    faults::same_checks_same_fault(0, n, check, other);
    assert forall|name: Seq<char>|
        profile_configured(a.profiles@, name) == profile_configured(b.profiles@, name) by {
        if profile_configured(a.profiles@, name) {
            let i = choose|i: int|
                0 <= i < a.profiles@.len() && (#[trigger] a.profiles@[i]).name@ == name;
            assert(b.profiles@[i].name@ == name);
        }
        if profile_configured(b.profiles@, name) {
            let i = choose|i: int|
                0 <= i < b.profiles@.len() && (#[trigger] b.profiles@[i]).name@ == name;
            assert(a.profiles@[i].name@ == name);
        }
    }
}

/// The names that a configuration may use are told by their characters: a key of an environment has
/// ASCII letters, digits and underscores, and a client profile is one path component of up to 80
/// letters, digits, dots, underscores and hyphens.
pub proof fn names_are_told_by_their_characters(name: Seq<char>)
    ensures
        env_key_ok(name) <==> name.len() > 0 && (forall|i: int|
            0 <= i < name.len() ==> '0' <= #[trigger] name[i] <= '9' || 'A' <= name[i] <= 'Z' || 'a'
                <= name[i] <= 'z' || name[i] == '_'),
        safe_profile(name) <==> {
            &&& 1 <= name.len() <= 80
            &&& name != seq!['.']
            &&& name != seq!['.', '.']
            &&& forall|i: int|
                0 <= i < name.len() ==> '0' <= #[trigger] name[i] <= '9' || 'A' <= name[i] <= 'Z'
                    || 'a' <= name[i] <= 'z' || name[i] == '.' || name[i] == '_' || name[i] == '-'
        },
{
    reveal_strlit(".");
    reveal_strlit("..");
    assert("."@ =~= seq!['.']);
    assert(".."@ =~= seq!['.', '.']);
}

/// A name of a shell profile is accepted exactly where it is not empty, has ASCII letters, digits,
/// underscores, hyphens and dots only, and no two dots in a row. What it is refused for begins with
/// where it stands.
pub proof fn profile_names_have_no_two_dots(context: Seq<char>, name: Seq<char>)
    ensures
        profile_name_fault(context, name) is None <==> {
            &&& name.len() > 0
            &&& forall|i: int|
                0 <= i < name.len() ==> '0' <= #[trigger] name[i] <= '9' || 'A' <= name[i] <= 'Z'
                    || 'a' <= name[i] <= 'z' || name[i] == '.' || name[i] == '_' || name[i] == '-'
            &&& forall|i: int, j: int|
                0 <= i < j < name.len() && j == i + 1 ==> !(#[trigger] name[i] == '.'
                    && #[trigger] name[j] == '.')
        },
        profile_name_fault(context, name) matches Some(text) ==> text.len() > context.len()
            && text.take(context.len() as int) == context,
        name.len() == 0 ==> profile_name_fault(context, name) == Some(
            context + " cannot be empty"@,
        ),
{
    reveal_strlit("..");
    reveal_strlit(" cannot be empty");
    reveal_strlit(" cannot contain '..'");
    reveal_strlit(" cannot contain slash or backslash");
    reveal_strlit(" may only contain ASCII letters, digits, '_', '-', and '.'");
    if text::occurs_in(name, ".."@) {
        let at = choose|at: int| #[trigger] text::occurs_at(name, ".."@, at);
        assert(name.subrange(at, at + 2)[0] == name[at]);
        assert(name.subrange(at, at + 2)[1] == name[at + 1]);
    } else {
        assert forall|i: int, j: int| 0 <= i < j < name.len() && j == i + 1 implies !(
        #[trigger] name[i] == '.' && #[trigger] name[j] == '.') by {
            if name[i] == '.' && name[j] == '.' {
                assert(name.subrange(i, i + 2) =~= ".."@);
                assert(text::occurs_at(name, ".."@, i));
            }
        }
    }
    if name.contains('/') {
        let i = name.index_of('/');
        assert(name[i] == '/');
    }
    if name.contains('\\') {
        let i = name.index_of('\\');
        assert(name[i] == '\\');
    }
    if profile_name_fault(context, name) is None {
        assert forall|i: int| 0 <= i < name.len() implies '0' <= #[trigger] name[i] <= '9' || 'A'
            <= name[i] <= 'Z' || 'a' <= name[i] <= 'z' || name[i] == '.' || name[i] == '_'
            || name[i] == '-' by {
            assert(profile_name_char(name[i]));
        }
    }
    if profile_name_fault(context, name) is Some {
        let text = profile_name_fault(context, name)->0;
        assert(text.take(context.len() as int) =~= context);
    }
}

/// A shell section is accepted exactly where it names a program, a command flag and no empty
/// argument or path, its keys may be set, its script is not empty, its limits are in range, every
/// profile has a name that may be used and nothing blank in it, and the default profile is one of
/// them.
pub proof fn shells_are_accepted_by_their_settings(shell: ShellConfig)
    ensures
        shell_fault(shell) is None <==> {
            &&& !text::blank(shell.program@)
            &&& shell.args@.len() > 0
            &&& forall|i: int| 0 <= i < shell.args@.len() ==> !text::blank((#[trigger] shell.args@[i])@)
            &&& forall|i: int|
                0 <= i < shell.path_prepend@.len() ==> (#[trigger] shell.path_prepend@[i])@.len() > 0
            &&& forall|i: int|
                0 <= i < shell.env@.len() ==> env_key_ok((#[trigger] shell.env@[i]).key@)
            &&& shell.init_script is Some ==> (shell.init_script->0)@.len() > 0
            &&& 1 <= shell.max_persistent_shells <= 64
            &&& 1 <= shell.persistent_shell_idle_timeout_secs <= 86400
            &&& forall|k: int|
                0 <= k < shell.profiles@.len() ==> {
                    let entry = #[trigger] shell.profiles@[k];
                    let profile = entry.profile;
                    &&& profile_name_fault("shell profile name"@, entry.name@) is None
                    &&& profile.program is Some ==> !text::blank((profile.program->0)@)
                    &&& profile.args is Some ==> (profile.args->0)@.len() > 0 && (forall|i: int|
                        0 <= i < (profile.args->0)@.len() ==> !text::blank(
                            (#[trigger] (profile.args->0)@[i])@,
                        ))
                    &&& forall|i: int|
                        0 <= i < profile.env@.len() ==> env_key_ok((#[trigger] profile.env@[i]).key@)
                    &&& profile.init_script is Some ==> !text::blank((profile.init_script->0)@)
                }
            &&& shell.default_profile is Some ==> profile_name_fault(
                "shell.default_profile"@,
                (shell.default_profile->0)@,
            ) is None && (exists|k: int|
                0 <= k < shell.profiles@.len() && (#[trigger] shell.profiles@[k]).name@
                    == (shell.default_profile->0)@)
        },
{
    shell_accepted_iff_valid(shell);
    assert(shell_valid(shell) ==> forall|k: int|
        0 <= k < shell.profiles@.len() ==> profile_valid(#[trigger] shell.profiles@[k]));
    if shell_valid(shell) {
        assert forall|k: int| 0 <= k < shell.profiles@.len() implies ({
            let entry = #[trigger] shell.profiles@[k];
            let profile = entry.profile;
            &&& profile_name_fault("shell profile name"@, entry.name@) is None
            &&& profile.program is Some ==> !text::blank((profile.program->0)@)
            &&& profile.args is Some ==> (profile.args->0)@.len() > 0 && (forall|i: int|
                0 <= i < (profile.args->0)@.len() ==> !text::blank(
                    (#[trigger] (profile.args->0)@[i])@,
                ))
            &&& forall|i: int|
                0 <= i < profile.env@.len() ==> env_key_ok((#[trigger] profile.env@[i]).key@)
            &&& profile.init_script is Some ==> !text::blank((profile.init_script->0)@)
        }) by {
            assert(profile_valid(shell.profiles@[k]));
        }
    }
}

/// What is wrong with a default profile is told before what is wrong with a profile, and that
/// before what is wrong with the settings.
pub proof fn shell_complaints_come_in_order(shell: ShellConfig)
    ensures
        default_profile_fault(shell) is Some ==> shell_fault(shell) == default_profile_fault(shell),
        forall|k: int|
            0 <= k < shell.profiles@.len() && default_profile_fault(shell) is None && (forall|j: int|
                0 <= j < k ==> (#[trigger] profile_faults(shell.profiles@)(j)) is None)
                && (#[trigger] profile_faults(shell.profiles@)(k)) is Some ==> shell_fault(shell)
                == profile_faults(shell.profiles@)(k),
{
    let check = profile_faults(shell.profiles@);
    let n = shell.profiles@.len() as int;
    assert forall|k: int|
        0 <= k < n && default_profile_fault(shell) is None && (forall|j: int|
            0 <= j < k ==> (#[trigger] check(j)) is None) && (#[trigger] check(
            k,
        )) is Some implies shell_fault(shell) == check(k) by {
        faults::first_fault_found(0, k, n, check);
    }
}

/// A QUIC section is accepted exactly where it names its server, its server's name and its
/// protocol, and its times are in range. What it is refused for is the first that is not so.
pub proof fn quic_sections_are_accepted_by_their_settings(quic: QuicClientConfig)
    ensures
        quic_fault(quic) is None <==> !text::blank(quic.server_addr@) && !text::blank(
            quic.server_name@,
        ) && !text::blank(quic.alpn@) && 1 <= quic.connect_timeout_secs && 1
            <= quic.keepalive_interval_secs <= 25,
        text::blank(quic.server_addr@) ==> quic_fault(quic) == Some(
            "[quic] server_addr is required for transport=quic"@,
        ),
        !text::blank(quic.server_addr@) && text::blank(quic.server_name@) ==> quic_fault(quic)
            == Some("[quic] server_name is required for transport=quic"@),
        !text::blank(quic.server_addr@) && !text::blank(quic.server_name@) && text::blank(
            quic.alpn@,
        ) ==> quic_fault(quic) == Some("[quic] alpn cannot be empty"@),
{
}

/// Skill roots are accepted exactly where they are at most 16 absolute paths of up to 4096 bytes
/// that lead nowhere upwards and of which no two are the same path.
pub proof fn skill_roots_are_accepted_by_their_paths(platform: Platform, config: SkillsConfig)
    ensures
        skills_fault(platform, config) is None <==> paths_usable(platform, config.roots@),
{
    path_list_accepted_iff_valid(platform, skill_limits(), skill_messages(), config.roots@);
    usable_paths_are_valid(platform, skill_limits(), config.roots@);
}

/// Instruction files are accepted exactly where they are at most 16 absolute paths of up to 4096
/// bytes that lead nowhere upwards and of which no two are the same path.
pub proof fn instruction_files_are_accepted_by_their_paths(
    platform: Platform,
    config: InstructionsConfig,
)
    ensures
        instructions_fault(platform, config) is None <==> paths_usable(platform, config.files@),
{
    path_list_accepted_iff_valid(
        platform,
        instruction_limits(),
        instruction_messages(),
        config.files@,
    );
    usable_paths_are_valid(platform, instruction_limits(), config.files@);
}

/// At most 16 absolute paths of up to 4096 bytes that lead nowhere upwards and of which no two are
/// the same path.
pub open spec fn paths_usable(platform: Platform, paths: Seq<String>) -> bool {
    &&& paths.len() <= 16
    &&& forall|i: int|
        0 <= i < paths.len() ==> {
            let path = (#[trigger] paths[i])@;
            &&& 0 < path.len() && text::byte_len(path) <= 4096 && !path.contains('\0')
            &&& paths::absolute(platform, path) && !paths::parent_traversal(platform, path)
            &&& !(platform == Platform::Windows && paths::windows_path_kind(path) == Some(
                WindowsProjectPathKind::UnsupportedNamespace,
            ))
        }
    &&& forall|i: int, j: int|
        0 <= i < paths.len() && 0 <= j < paths.len() && i != j ==> paths::path_identity(
            platform,
            (#[trigger] paths[i])@,
        ) != paths::path_identity(platform, (#[trigger] paths[j])@)
}

proof fn usable_paths_are_valid(platform: Platform, limits: PathListLimits, paths: Seq<String>)
    requires
        limits.max_entries == 16,
        limits.max_path_bytes == 4096,
    ensures
        path_list_valid(platform, limits, paths) <==> paths_usable(platform, paths),
{
    if path_list_valid(platform, limits, paths) {
        assert forall|i: int| 0 <= i < paths.len() implies path_valid(
            platform,
            limits,
            (#[trigger] paths[i])@,
        ) by {}
    }
}

/// SSH resources are accepted exactly where each has a name, a host and a directory that the shared
/// rules accept. They then keep their names and get the host and the directory in normal form.
pub proof fn ssh_resources_get_their_normal_form(
    resources: Seq<SshResourceEntry>,
    verdicts: Seq<SshVerdict>,
)
    requires
        verdicts.len() == resources.len(),
    ensures
        ssh_fault(resources, verdicts) is None <==> (forall|i: int|
            0 <= i < verdicts.len() ==> (#[trigger] verdicts[i]).name_ok && verdicts[i].host is Some
                && verdicts[i].default_cwd is Some),
        ssh_fault(resources, verdicts) is None ==> {
            let normal = resources_up_to(resources, verdicts, resources.len() as int);
            &&& normal.len() == resources.len()
            &&& forall|i: int|
                0 <= i < normal.len() ==> (#[trigger] normal[i]).name == resources[i].name && Some(
                    normal[i].resource.host,
                ) == verdicts[i].host && Some(normal[i].resource.default_cwd)
                    == verdicts[i].default_cwd
        },
        forall|k: int|
            #![trigger first_refused(resources, verdicts, k)]
            first_refused(resources, verdicts, k) ==> {
                let partly = resources_up_to(resources, verdicts, k);
                &&& partly.len() == resources.len()
                &&& forall|i: int| k < i < resources.len() ==> (#[trigger] partly[i]) == resources[i]
                &&& partly[k].name == resources[k].name
                &&& partly[k].resource.default_cwd == resources[k].resource.default_cwd
                &&& !(verdicts[k].name_ok && verdicts[k].host is Some
                    && verdicts[k].default_cwd is Some)
                &&& forall|i: int|
                    0 <= i < k ==> (#[trigger] partly[i]).name == resources[i].name && Some(
                        partly[i].resource.host,
                    ) == verdicts[i].host && Some(partly[i].resource.default_cwd)
                        == verdicts[i].default_cwd
            },
{
    let check = ssh_faults(resources, verdicts);
    let n = resources.len() as int;
    faults::first_fault_none(0, n, check);
    if ssh_fault(resources, verdicts) is None {
        assert forall|i: int| 0 <= i < n implies (#[trigger] verdicts[i]).name_ok
            && verdicts[i].host is Some && verdicts[i].default_cwd is Some by {
            assert(check(i) is None);
        }
    } else {
        let at = faults::first_fault_is_one(0, n, check);
        assert(!(verdicts[at].name_ok && verdicts[at].host is Some
            && verdicts[at].default_cwd is Some));
    }
    assert forall|k: int|
        #![trigger first_refused(resources, verdicts, k)]
        first_refused(resources, verdicts, k) implies ({
        let partly = resources_up_to(resources, verdicts, k);
        &&& partly.len() == resources.len()
        &&& forall|i: int| k < i < resources.len() ==> (#[trigger] partly[i]) == resources[i]
        &&& partly[k].name == resources[k].name
        &&& partly[k].resource.default_cwd == resources[k].resource.default_cwd
        &&& !(verdicts[k].name_ok && verdicts[k].host is Some && verdicts[k].default_cwd is Some)
        &&& forall|i: int|
            0 <= i < k ==> (#[trigger] partly[i]).name == resources[i].name && Some(
                partly[i].resource.host,
            ) == verdicts[i].host && Some(partly[i].resource.default_cwd)
                == verdicts[i].default_cwd
    }) by {
        let partly = resources_up_to(resources, verdicts, k);
        assert forall|i: int| 0 <= i < k implies (#[trigger] partly[i]).name == resources[i].name
            && Some(partly[i].resource.host) == verdicts[i].host && Some(
            partly[i].resource.default_cwd,
        ) == verdicts[i].default_cwd by {
            assert(ssh_faults(resources, verdicts)(i) is None);
        }
    }
}

/// The number of jobs at once is left out or from one to 64.
pub proof fn job_limits_are_in_range(limit: Option<usize>)
    ensures
        crate::config::job_limit_in_range(limit) <==> limit is None || 1 <= limit->0 <= 64,
{
}

} // verus!
