//! Environment variable names: equality, credentials, and the names that a child may get.
use crate::config::{RunnerRules, ACP_MAX_ENV_NAME_BYTES, MCP_GATEWAY_MAX_ENV_NAME_BYTES};
use crate::paths::Platform;
use crate::text::{self, contains_char, eq_ignore_ascii_case, same, utf8_len};
use vstd::prelude::*;
use vstd::string::*;
use vstd::utf8::*;

verus! {

/// Two names denote one environment variable; Windows does not tell letter case apart.
pub open spec fn same_env_key(platform: Platform, a: Seq<char>, b: Seq<char>) -> bool {
    match platform {
        Platform::Posix => a == b,
        Platform::Windows => text::same_ignoring_ascii_case(a, b),
    }
}

/// The name denotes an environment variable that carries a runner credential.
pub open spec fn sensitive(rules: RunnerRules, key: Seq<char>) -> bool {
    exists|i: int|
        0 <= i < rules.sensitive_env_keys@.len() && same_env_key(
            rules.platform,
            (#[trigger] rules.sensitive_env_keys@[i])@,
            key,
        )
}

/// A name that may be handed to a child process.
pub open spec fn env_name_ok(max_bytes: int, name: Seq<char>) -> bool {
    &&& name.len() > 0
    &&& text::byte_len(name) <= max_bytes
    &&& is_ascii_chars(name)
    &&& !name.contains('\0')
    &&& !name.contains('=')
}

/// Tells whether two names denote one environment variable.
pub fn env_keys_equal(platform: Platform, a: &str, b: &str) -> (r: bool)
    ensures
        r == same_env_key(platform, a@, b@),
{
    match platform {
        Platform::Posix => same(a, b),
        Platform::Windows => eq_ignore_ascii_case(a, b),
    }
}

/// Tells whether the name denotes an environment variable that carries a runner credential.
pub fn is_sensitive_env_key(rules: &RunnerRules, key: &str) -> (r: bool)
    ensures
        r == sensitive(*rules, key@),
{
    for i in 0..rules.sensitive_env_keys.len()
        invariant
            forall|j: int|
                0 <= j < i ==> !same_env_key(
                    rules.platform,
                    (#[trigger] rules.sensitive_env_keys@[j])@,
                    key@,
                ),
    {
        if env_keys_equal(rules.platform, rules.sensitive_env_keys[i].as_str(), key) {
            return true;
        }
    }
    false
}

/// Checks a name of a coding agent's environment.
pub fn validate_acp_env_name(value: &str) -> (r: Result<(), ()>)
    ensures
        r is Ok <==> env_name_ok(256, value@),
{
    if value.is_empty() || utf8_len(value) > ACP_MAX_ENV_NAME_BYTES || !value.is_ascii()
        || contains_char(value, '\0') || contains_char(value, '=') {
        Err(())
    } else {
        Ok(())
    }
}

/// Checks a name of an MCP provider's environment.
pub fn validate_mcp_gateway_env_name(value: &str) -> (r: Result<(), ()>)
    ensures
        r is Ok <==> env_name_ok(256, value@),
{
    if value.is_empty() || utf8_len(value) > MCP_GATEWAY_MAX_ENV_NAME_BYTES || !value.is_ascii()
        || contains_char(value, '\0') || contains_char(value, '=') {
        Err(())
    } else {
        Ok(())
    }
}

// ---------------------------------------------------------------------------------------------
// Laws
// ---------------------------------------------------------------------------------------------
/// A name is taken for a credential exactly where it is the name of one of the runner's
/// credentials: letter by letter on POSIX, and up to letter case on Windows.
pub proof fn credentials_are_known_by_name(rules: RunnerRules, key: Seq<char>)
    ensures
        sensitive(rules, key) <==> (exists|i: int|
            0 <= i < rules.sensitive_env_keys@.len() && (match rules.platform {
                Platform::Posix => (#[trigger] rules.sensitive_env_keys@[i])@ == key,
                Platform::Windows => text::same_ignoring_ascii_case(
                    rules.sensitive_env_keys@[i]@,
                    key,
                ),
            })),
{
    if sensitive(rules, key) {
        let i = choose|i: int|
            0 <= i < rules.sensitive_env_keys@.len() && same_env_key(
                rules.platform,
                (#[trigger] rules.sensitive_env_keys@[i])@,
                key,
            );
        assert(0 <= i < rules.sensitive_env_keys@.len() && (match rules.platform {
            Platform::Posix => rules.sensitive_env_keys@[i]@ == key,
            Platform::Windows => text::same_ignoring_ascii_case(
                rules.sensitive_env_keys@[i]@,
                key,
            ),
        }));
    }
    if exists|i: int|
        0 <= i < rules.sensitive_env_keys@.len() && (match rules.platform {
            Platform::Posix => (#[trigger] rules.sensitive_env_keys@[i])@ == key,
            Platform::Windows => text::same_ignoring_ascii_case(
                rules.sensitive_env_keys@[i]@,
                key,
            ),
        }) {
        let i = choose|i: int|
            0 <= i < rules.sensitive_env_keys@.len() && (match rules.platform {
                Platform::Posix => (#[trigger] rules.sensitive_env_keys@[i])@ == key,
                Platform::Windows => text::same_ignoring_ascii_case(
                    rules.sensitive_env_keys@[i]@,
                    key,
                ),
            });
        assert(same_env_key(rules.platform, rules.sensitive_env_keys@[i]@, key));
    }
}

/// A name may be handed to a child exactly where it is not empty, within the bound, ASCII, and
/// free of NUL and of the equals sign.
pub proof fn names_are_plain(max_bytes: int, name: Seq<char>)
    ensures
        env_name_ok(max_bytes, name) <==> 0 < name.len() && text::byte_len(name) <= max_bytes
            && is_ascii_chars(name) && (forall|i: int|
            0 <= i < name.len() ==> (#[trigger] name[i]) != '\0' && name[i] != '='),
{
    if env_name_ok(max_bytes, name) {
        assert forall|i: int| 0 <= i < name.len() implies (#[trigger] name[i]) != '\0' && name[i]
            != '=' by {
            assert(name.contains(name[i]));
        }
    }
}

} // verus!
