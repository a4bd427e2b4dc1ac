//! The bundled context bridge: an MCP provider that is added where its assets are in place and
//! nothing is configured in its stead.
use crate::config::{
    self, McpGatewayConfig, McpGatewayProviderConfig, McpProviderView, RunnerRules, TextEntry,
    VettedText, BUNDLED_CONTEXT_BRIDGE_PROVIDER_ID,
};
use crate::paths::{self, is_absolute, is_direct_parent, Platform};
use crate::text::{self, is_blank, same};
use vstd::prelude::*;
use vstd::string::*;

verus! {

pub const BUNDLED_CONTEXT_BRIDGE_NODE_ENV: &'static str = "WEBCODEX_BUNDLED_CONTEXT_BRIDGE_NODE";

pub const BUNDLED_CONTEXT_BRIDGE_DIR_ENV: &'static str = "WEBCODEX_BUNDLED_CONTEXT_BRIDGE_DIR";

pub const BUNDLED_CONTEXT_READINESS_TIMEOUT_MS: &'static str = "3000";

pub const BUNDLED_CONTEXT_READINESS_MAX_BYTES: usize = 65536;

/// What a path is, without following a link.
#[derive(Debug, Clone, Copy, PartialEq, Eq, Structural)]
pub enum FileKind {
    File,
    Directory,
    Symlink,
    Other,
}

/// What the host says of a path: what it is, where it can be looked at, and its canonical form,
/// where it has one.
#[derive(Debug)]
pub struct AssetFacts {
    pub kind: Option<FileKind>,
    pub canonical: Option<String>,
}

/// The variables of the runner that the bridge may get.
#[derive(Debug)]
pub struct BridgeEnvironment {
    pub home: Option<String>,
    pub codex_home: Option<String>,
    pub tmpdir: Option<String>,
    pub tmp: Option<String>,
    pub temp: Option<String>,
}

/// What the host says of the assets of the bridge. `search_path` is the search path of the
/// bridge, where its entries can be joined.
#[derive(Debug)]
pub struct BridgeFacts {
    pub node: AssetFacts,
    pub bridge_dir: AssetFacts,
    pub server: AssetFacts,
    pub codex: AssetFacts,
    pub search_path: Option<String>,
    pub environment: BridgeEnvironment,
}

/// What the readiness check of the bridge reports.
#[derive(Debug)]
pub struct BundledContextReadinessProbe {
    pub status: String,
    pub canonical_path: Option<String>,
    pub source_version: String,
    pub native_model_turns: u64,
}

/// The command of the readiness check. It starts from an empty environment and gets those of
/// `variables` that the runner has with a value.
#[derive(Debug)]
pub struct ReadinessCommand {
    pub program: String,
    pub args: Vec<String>,
    pub variables: Vec<String>,
}

/// The path is a plain file with a canonical form.
pub open spec fn plain_file(facts: AssetFacts) -> bool {
    facts.kind == Some(FileKind::File) && facts.canonical is Some
}

/// The path is a plain directory with a canonical form.
pub open spec fn plain_directory(facts: AssetFacts) -> bool {
    facts.kind == Some(FileKind::Directory) && facts.canonical is Some
}

/// A provider may be added: none has its id, and there is room.
pub open spec fn has_room(rules: RunnerRules, config: McpGatewayConfig) -> bool {
    &&& forall|i: int|
        0 <= i < config.providers@.len() ==> (#[trigger] config.providers@[i]).id.text@
            != "codex_context"@
    &&& config.providers@.len() < rules.mcp_gateway_max_providers
}

/// A path that is given and absolute.
pub open spec fn given_absolute(platform: Platform, path: Option<String>) -> bool {
    path matches Some(found) && paths::absolute(platform, found@)
}

/// The assets of the bridge are in place: none of them is a link, and the server lies in the
/// bridge directory.
pub open spec fn assets_in_place(platform: Platform, facts: BridgeFacts) -> bool {
    &&& plain_file(facts.node)
    &&& plain_directory(facts.bridge_dir)
    &&& plain_file(facts.server)
    &&& plain_file(facts.codex)
    &&& paths::directly_holds(
        platform,
        (facts.bridge_dir.canonical->0)@,
        (facts.server.canonical->0)@,
    )
}

/// The bridge is added.
pub open spec fn bridge_applies(
    rules: RunnerRules,
    config: McpGatewayConfig,
    node: Option<String>,
    bridge_dir: Option<String>,
    codex: Option<String>,
    facts: BridgeFacts,
) -> bool {
    &&& has_room(rules, config)
    &&& given_absolute(rules.platform, node)
    &&& given_absolute(rules.platform, bridge_dir)
    &&& given_absolute(rules.platform, codex)
    &&& assets_in_place(rules.platform, facts)
}

/// The entry of a variable that has a value, or none.
pub open spec fn env_if(key: Seq<char>, value: Option<String>) -> Seq<(Seq<char>, Seq<char>)> {
    match value {
        Some(found) => if found@.len() > 0 {
            seq![(key, found@)]
        } else {
            Seq::empty()
        },
        None => Seq::empty(),
    }
}

/// The search path entry, where there is one.
pub open spec fn search_path_entry(value: Option<String>) -> Seq<(Seq<char>, Seq<char>)> {
    match value {
        Some(found) => seq![("PATH"@, found@)],
        None => Seq::empty(),
    }
}

/// The environment of the bridge.
pub open spec fn bridge_env(facts: BridgeFacts) -> Seq<(Seq<char>, Seq<char>)> {
    seq![("CODEX_BIN"@, (facts.codex.canonical->0)@)] + env_if(
        "CODEX_HOME"@,
        facts.environment.codex_home,
    ) + env_if("HOME"@, facts.environment.home) + search_path_entry(facts.search_path) + env_if(
        "TEMP"@,
        facts.environment.temp,
    ) + env_if("TMP"@, facts.environment.tmp) + env_if("TMPDIR"@, facts.environment.tmpdir)
}

/// The provider that is added.
pub open spec fn bridge_provider(facts: BridgeFacts) -> McpProviderView {
    McpProviderView {
        id: "codex_context"@,
        name: "Bundled Codex Context Bridge"@,
        executable: (facts.node.canonical->0)@,
        args: seq![(facts.server.canonical->0)@],
        cwd: Some((facts.bridge_dir.canonical->0)@),
        env: bridge_env(facts),
        env_from_env: Seq::empty(),
        timeout_secs: Some(30),
    }
}

/// Tells whether the bundled bridge may be added to the providers.
pub fn room_for_bridge(rules: &RunnerRules, config: &McpGatewayConfig) -> (r: bool)
    ensures
        r == has_room(*rules, *config),
{
    for i in 0..config.providers.len()
        invariant
            forall|j: int|
                0 <= j < i ==> (#[trigger] config.providers@[j]).id.text@ != "codex_context"@,
    {
        if same(config.providers[i].id.text.as_str(), BUNDLED_CONTEXT_BRIDGE_PROVIDER_ID) {
            assert(config.providers@[i as int].id.text@ == "codex_context"@);
            return false;
        }
    }
    config.providers.len() < rules.mcp_gateway_max_providers
}

fn is_given_absolute(platform: Platform, path: &Option<String>) -> (r: bool)
    ensures
        r == given_absolute(platform, *path),
{
    match path {
        Some(path) => is_absolute(platform, path.as_str()),
        None => false,
    }
}

/// Returns the canonical form of a plain file.
fn canonical_file(facts: &AssetFacts) -> (r: Option<String>)
    ensures
        r is Some == plain_file(*facts),
        r matches Some(path) ==> path@ == (facts.canonical->0)@,
{
    match facts.kind {
        Some(FileKind::File) => match &facts.canonical {
            Some(path) => Some(path.clone()),
            None => None,
        },
        _ => None,
    }
}

/// Returns the canonical form of a plain directory.
fn canonical_directory(facts: &AssetFacts) -> (r: Option<String>)
    ensures
        r is Some == plain_directory(*facts),
        r matches Some(path) ==> path@ == (facts.canonical->0)@,
{
    match facts.kind {
        Some(FileKind::Directory) => match &facts.canonical {
            Some(path) => Some(path.clone()),
            None => None,
        },
        _ => None,
    }
}

fn add_entry(env: &mut Vec<TextEntry>, key: &str, value: &str)
    ensures
        config::entries_view(final(env)@) == config::entries_view(old(env)@) + seq![(key@, value@)],
{
    let ghost before = env@;
    env.push(TextEntry { key: key.to_owned(), value: value.to_owned() });
    assert(config::entries_view(env@) =~= config::entries_view(before) + seq![(key@, value@)]);
}

fn add_variable(env: &mut Vec<TextEntry>, key: &str, value: &Option<String>)
    ensures
        config::entries_view(final(env)@) == config::entries_view(old(env)@) + env_if(key@, *value),
{
    match value {
        Some(found) => {
            if !found.as_str().is_empty() {
                add_entry(env, key, found.as_str());
            } else {
                assert(config::entries_view(env@) =~= config::entries_view(env@) + env_if(
                    key@,
                    *value,
                ));
            }
        },
        None => {
            assert(config::entries_view(env@) =~= config::entries_view(env@) + env_if(
                key@,
                *value,
            ));
        },
    }
}

fn bridge_environment(codex: &str, facts: &BridgeFacts) -> (r: Vec<TextEntry>)
    requires
        facts.codex.canonical matches Some(path) && codex@ == path@,
    ensures
        config::entries_view(r@) == bridge_env(*facts),
{
    let mut env: Vec<TextEntry> = Vec::new();
    add_entry(&mut env, "CODEX_BIN", codex);
    assert(config::entries_view(env@) =~= seq![("CODEX_BIN"@, codex@)]);
    add_variable(&mut env, "CODEX_HOME", &facts.environment.codex_home);
    add_variable(&mut env, "HOME", &facts.environment.home);
    let ghost before = config::entries_view(env@);
    match &facts.search_path {
        Some(found) => {
            add_entry(&mut env, "PATH", found.as_str());
        },
        None => {},
    }
    assert(config::entries_view(env@) =~= before + search_path_entry(facts.search_path));
    add_variable(&mut env, "TEMP", &facts.environment.temp);
    add_variable(&mut env, "TMP", &facts.environment.tmp);
    add_variable(&mut env, "TMPDIR", &facts.environment.tmpdir);
    env
}

/// The entries of the bridge's search path: the directory of the node executable, where it has
/// one, and on POSIX the system directories.
pub open spec fn search_path_entries(platform: Platform, node_dir: Option<Seq<char>>) -> Seq<
    Seq<char>,
> {
    let own = match node_dir {
        Some(dir) => seq![dir],
        None => Seq::empty(),
    };
    match platform {
        Platform::Posix => own + seq!["/usr/bin"@, "/bin"@, "/usr/sbin"@, "/sbin"@],
        Platform::Windows => own,
    }
}

/// Returns the entries of the bridge's search path.
pub fn provider_path_entries(platform: Platform, node_dir: Option<String>) -> (r: Vec<String>)
    ensures
        text::list_view(r@) == search_path_entries(platform, text::option_view(node_dir)),
{
    let mut entries: Vec<String> = Vec::new();
    let ghost own = match text::option_view(node_dir) {
        Some(dir) => seq![dir],
        None => Seq::empty(),
    };
    if let Some(dir) = node_dir {
        entries.push(dir);
    }
    assert(text::list_view(entries@) =~= own);
    match platform {
        Platform::Posix => {
            entries.push("/usr/bin".to_owned());
            entries.push("/bin".to_owned());
            entries.push("/usr/sbin".to_owned());
            entries.push("/sbin".to_owned());
            assert(text::list_view(entries@) =~= own + seq![
                "/usr/bin"@,
                "/bin"@,
                "/usr/sbin"@,
                "/sbin"@,
            ]);
        },
        Platform::Windows => {},
    }
    entries
}

/// Adds the bridge to the providers where it applies, and says whether it did. An explicit
/// provider of its id wins, and assets that are missing or not plain are no error.
pub fn inject_bundled_context_bridge(
    rules: &RunnerRules,
    config: &mut McpGatewayConfig,
    node: &Option<String>,
    bridge_dir: &Option<String>,
    codex: &Option<String>,
    facts: &BridgeFacts,
) -> (r: bool)
    ensures
        r == bridge_applies(*rules, *old(config), *node, *bridge_dir, *codex, *facts),
        final(config).request_timeout_secs == old(config).request_timeout_secs,
        !r ==> *final(config) == *old(config),
        r ==> final(config).providers@.len() == old(config).providers@.len() + 1
            && final(config).providers@.drop_last() == old(config).providers@
            && final(config).providers@.last()@ == bridge_provider(*facts)
            && final(config).providers@.last().id.fault is None
            && final(config).providers@.last().name.fault is None,
{
    if !room_for_bridge(rules, config) {
        return false;
    }
    if !is_given_absolute(rules.platform, node) || !is_given_absolute(rules.platform, bridge_dir)
        || !is_given_absolute(rules.platform, codex) {
        return false;
    }
    let (node, bridge_dir, server, codex) = match (
        canonical_file(&facts.node),
        canonical_directory(&facts.bridge_dir),
        canonical_file(&facts.server),
        canonical_file(&facts.codex),
    ) {
        (Some(node), Some(bridge_dir), Some(server), Some(codex)) => (
            node,
            bridge_dir,
            server,
            codex,
        ),
        _ => {
            return false;
        },
    };
    if !is_direct_parent(rules.platform, bridge_dir.as_str(), server.as_str()) {
        return false;
    }
    let env = bridge_environment(codex.as_str(), facts);
    let args = vec![server];
    let provider = McpGatewayProviderConfig {
        id: VettedText { text: BUNDLED_CONTEXT_BRIDGE_PROVIDER_ID.to_owned(), fault: None },
        name: VettedText { text: "Bundled Codex Context Bridge".to_owned(), fault: None },
        executable: node,
        args,
        cwd: Some(bridge_dir),
        env,
        env_from_env: Vec::new(),
        timeout_secs: Some(30),
    };
    proof {
        assert(text::list_view(provider.args@) =~= seq![(facts.server.canonical->0)@]);
        assert(config::entries_view(provider.env_from_env@) =~= Seq::empty());
        assert(provider@ == bridge_provider(*facts));
    }
    let ghost before = config.providers@;
    config.providers.push(provider);
    assert(config.providers@.drop_last() =~= before);
    true
}

/// The readiness report allows the bridge: it is ready, has spent no model turns, and names its
/// source and the canonical path of its program.
pub open spec fn readiness_ok(readiness: Option<BundledContextReadinessProbe>) -> bool {
    readiness matches Some(probe) && {
        &&& probe.status@ == "ready"@
        &&& probe.native_model_turns == 0
        &&& !text::blank(probe.source_version@)
        &&& probe.canonical_path is Some
    }
}

/// The bridge is added by what the environment says.
pub open spec fn bridge_applies_from_env(
    rules: RunnerRules,
    config: McpGatewayConfig,
    node: Option<String>,
    bridge_dir: Option<String>,
    readiness: Option<BundledContextReadinessProbe>,
    facts: BridgeFacts,
) -> bool {
    &&& readiness_ok(readiness)
    &&& bridge_applies(
        rules,
        config,
        node,
        bridge_dir,
        (readiness->0).canonical_path,
        facts,
    )
}

/// Adds the bridge that the environment points to, where its readiness check allows it.
/// `readiness` is what that check reported, if anything.
pub fn inject_bundled_context_bridge_from_env(
    rules: &RunnerRules,
    config: &mut McpGatewayConfig,
    node: &Option<String>,
    bridge_dir: &Option<String>,
    readiness: &Option<BundledContextReadinessProbe>,
    facts: &BridgeFacts,
) -> (r: bool)
    ensures
        r == bridge_applies_from_env(
            *rules,
            *old(config),
            *node,
            *bridge_dir,
            *readiness,
            *facts,
        ),
        final(config).request_timeout_secs == old(config).request_timeout_secs,
        !r ==> *final(config) == *old(config),
        r ==> final(config).providers@.len() == old(config).providers@.len() + 1
            && final(config).providers@.drop_last() == old(config).providers@
            && final(config).providers@.last()@ == bridge_provider(*facts)
            && final(config).providers@.last().id.fault is None
            && final(config).providers@.last().name.fault is None,
{
    match readiness {
        Some(probe) => {
            if !same(probe.status.as_str(), "ready") || probe.native_model_turns != 0 || is_blank(
                probe.source_version.as_str(),
            ) {
                return false;
            }
            match &probe.canonical_path {
                Some(_) => {},
                None => {
                    return false;
                },
            }
            inject_bundled_context_bridge(
                rules,
                config,
                node,
                bridge_dir,
                &probe.canonical_path,
                facts,
            )
        },
        None => false,
    }
}

/// The readiness check may run: its parts are plain, and its script lies in the bridge directory.
/// `node` and `bridge_dir` must still be a file and a directory under their canonical names, and
/// so must the script be a file.
pub open spec fn readiness_applies(
    platform: Platform,
    node: Seq<char>,
    bridge_dir: Seq<char>,
    facts: ReadinessFacts,
) -> bool {
    &&& paths::absolute(platform, node)
    &&& paths::absolute(platform, bridge_dir)
    &&& plain_file(facts.node)
    &&& plain_directory(facts.bridge_dir)
    &&& facts.canonical_node_is_file
    &&& facts.canonical_bridge_is_dir
    &&& plain_file(facts.script)
    &&& paths::directly_holds(
        platform,
        (facts.bridge_dir.canonical->0)@,
        (facts.script.canonical->0)@,
    )
    &&& facts.canonical_script_is_file
}

/// The variables that the readiness check may get.
pub open spec fn readiness_names(platform: Platform) -> Seq<Seq<char>> {
    let common = seq!["HOME"@, "PATH"@, "CODEX_BIN"@, "CODEX_HOME"@, "TMPDIR"@, "TMP"@, "TEMP"@];
    match platform {
        Platform::Windows => common.push("SYSTEMROOT"@),
        Platform::Posix => common,
    }
}

/// Returns the variables that the readiness check may get.
fn readiness_variables(platform: Platform) -> (r: Vec<String>)
    ensures
        text::list_view(r@) == readiness_names(platform),
{
    let mut names: Vec<String> = Vec::new();
    names.push("HOME".to_owned());
    names.push("PATH".to_owned());
    names.push("CODEX_BIN".to_owned());
    names.push("CODEX_HOME".to_owned());
    names.push("TMPDIR".to_owned());
    names.push("TMP".to_owned());
    names.push("TEMP".to_owned());
    if let Platform::Windows = platform {
        names.push("SYSTEMROOT".to_owned());
    }
    assert(text::list_view(names@) =~= readiness_names(platform));
    names
}

/// What the host says of the parts of the readiness check.
#[derive(Debug)]
pub struct ReadinessFacts {
    pub node: AssetFacts,
    pub bridge_dir: AssetFacts,
    pub script: AssetFacts,
    pub canonical_node_is_file: bool,
    pub canonical_bridge_is_dir: bool,
    pub canonical_script_is_file: bool,
}

/// Returns the command of the readiness check, where it may run.
pub fn bundled_context_readiness(
    platform: Platform,
    node: &str,
    bridge_dir: &str,
    facts: &ReadinessFacts,
) -> (r: Option<ReadinessCommand>)
    ensures
        r is Some == readiness_applies(platform, node@, bridge_dir@, *facts),
        r matches Some(command) ==> command.program@ == (facts.node.canonical->0)@
            && text::list_view(command.args@) == seq![
            (facts.script.canonical->0)@,
            "--json"@,
            "--timeout-ms"@,
            "3000"@,
        ] && text::list_view(command.variables@) == readiness_names(platform),
{
    if !is_absolute(platform, node) || !is_absolute(platform, bridge_dir) {
        return None;
    }
    let (node, bridge_dir, script) = match (
        canonical_file(&facts.node),
        canonical_directory(&facts.bridge_dir),
        canonical_file(&facts.script),
    ) {
        (Some(node), Some(bridge_dir), Some(script)) => (node, bridge_dir, script),
        _ => {
            return None;
        },
    };
    if !facts.canonical_node_is_file || !facts.canonical_bridge_is_dir || !is_direct_parent(
        platform,
        bridge_dir.as_str(),
        script.as_str(),
    ) || !facts.canonical_script_is_file {
        return None;
    }
    let args = vec![
        script,
        "--json".to_owned(),
        "--timeout-ms".to_owned(),
        BUNDLED_CONTEXT_READINESS_TIMEOUT_MS.to_owned(),
    ];
    assert(text::list_view(args@) =~= seq![
        (facts.script.canonical->0)@,
        "--json"@,
        "--timeout-ms"@,
        "3000"@,
    ]);
    Some(ReadinessCommand { program: node, args, variables: readiness_variables(platform) })
}

/// Returns the report of the readiness check, where its command succeeded with an output within
/// the bound. `probe` is what the output reads as.
pub fn accept_readiness(
    succeeded: bool,
    output_bytes: usize,
    probe: Option<BundledContextReadinessProbe>,
) -> (r: Option<BundledContextReadinessProbe>)
    ensures
        r == if succeeded && output_bytes <= 65536 {
            probe
        } else {
            None
        },
{
    if !succeeded || output_bytes > BUNDLED_CONTEXT_READINESS_MAX_BYTES {
        return None;
    }
    probe
}

/// An explicit provider of the bridge's id is never replaced: nothing is added beside it.
pub proof fn explicit_provider_wins(
    rules: RunnerRules,
    config: McpGatewayConfig,
    node: Option<String>,
    bridge_dir: Option<String>,
    codex: Option<String>,
    facts: BridgeFacts,
    at: int,
)
    requires
        0 <= at < config.providers@.len(),
        config.providers@[at].id.text@ == "codex_context"@,
    ensures
        !bridge_applies(rules, config, node, bridge_dir, codex, facts),
{
}

/// The bridge is added exactly where no provider has its id, there is room for one more, the three
/// paths are given and absolute, and its assets are plain files and a plain directory with the
/// server directly in it.
pub proof fn bridge_needs_room_and_assets(
    rules: RunnerRules,
    config: McpGatewayConfig,
    node: Option<String>,
    bridge_dir: Option<String>,
    codex: Option<String>,
    facts: BridgeFacts,
)
    ensures
        bridge_applies(rules, config, node, bridge_dir, codex, facts) <==> {
            &&& config.providers@.len() < rules.mcp_gateway_max_providers
            &&& forall|i: int|
                0 <= i < config.providers@.len() ==> (#[trigger] config.providers@[i]).id.text@
                    != "codex_context"@
            &&& node is Some && paths::absolute(rules.platform, (node->0)@)
            &&& bridge_dir is Some && paths::absolute(rules.platform, (bridge_dir->0)@)
            &&& codex is Some && paths::absolute(rules.platform, (codex->0)@)
            &&& facts.node.kind == Some(FileKind::File) && facts.node.canonical is Some
            &&& facts.bridge_dir.kind == Some(FileKind::Directory)
                && facts.bridge_dir.canonical is Some
            &&& facts.server.kind == Some(FileKind::File) && facts.server.canonical is Some
            &&& facts.codex.kind == Some(FileKind::File) && facts.codex.canonical is Some
            &&& paths::directly_holds(
                rules.platform,
                (facts.bridge_dir.canonical->0)@,
                (facts.server.canonical->0)@,
            )
        },
{
}

/// A readiness report allows the bridge exactly where it says that it is ready, that no model turn
/// was spent, which source it is of, and where its program lies.
pub proof fn readiness_needs_every_part(
    rules: RunnerRules,
    config: McpGatewayConfig,
    node: Option<String>,
    bridge_dir: Option<String>,
    readiness: Option<BundledContextReadinessProbe>,
    facts: BridgeFacts,
)
    ensures
        bridge_applies_from_env(rules, config, node, bridge_dir, readiness, facts) <==> readiness
            is Some && (readiness->0).status@ == "ready"@ && (readiness->0).native_model_turns == 0
            && !text::blank((readiness->0).source_version@) && (readiness->0).canonical_path is Some
            && bridge_applies(
            rules,
            config,
            node,
            bridge_dir,
            (readiness->0).canonical_path,
            facts,
        ),
{
}

/// The added provider runs the server with the node executable in the bridge directory, under the
/// bridge's id and with a timeout of 30 seconds.
pub proof fn bridge_runs_its_server(facts: BridgeFacts)
    ensures
        ({
            let provider = bridge_provider(facts);
            &&& provider.id == "codex_context"@
            &&& provider.name == "Bundled Codex Context Bridge"@
            &&& provider.executable == (facts.node.canonical->0)@
            &&& provider.args.len() == 1 && provider.args[0] == (facts.server.canonical->0)@
            &&& provider.cwd == Some((facts.bridge_dir.canonical->0)@)
            &&& provider.env_from_env.len() == 0
            &&& provider.timeout_secs == Some(30u64)
            &&& provider.env[0] == ("CODEX_BIN"@, (facts.codex.canonical->0)@)
        }),
{
}

proof fn either_part(
    a: Seq<(Seq<char>, Seq<char>)>,
    b: Seq<(Seq<char>, Seq<char>)>,
    x: (Seq<char>, Seq<char>),
)
    ensures
        (a + b).contains(x) == (a.contains(x) || b.contains(x)),
{
    if a.contains(x) {
        assert((a + b)[a.index_of(x)] == x);
    }
    if b.contains(x) {
        assert((a + b)[a.len() + b.index_of(x)] == x);
    }
    if (a + b).contains(x) {
        let i = (a + b).index_of(x);
        if i < a.len() {
            assert(a[i] == x);
        } else {
            assert(b[i - a.len()] == x);
        }
    }
}

/// A variable is handed on with its value exactly where it has one that is not empty.
pub proof fn variables_with_values_are_handed_on(
    key: Seq<char>,
    value: Option<String>,
    x: (Seq<char>, Seq<char>),
)
    ensures
        env_if(key, value).contains(x) <==> value is Some && (value->0)@.len() > 0 && x.0 == key
            && x.1 == (value->0)@,
        search_path_entry(value).contains(x) <==> value is Some && x.0 == "PATH"@ && x.1
            == (value->0)@,
{
    if value is Some {
        if (value->0)@.len() > 0 {
            assert(env_if(key, value)[0] == (key, (value->0)@));
        }
        assert(search_path_entry(value)[0] == ("PATH"@, (value->0)@));
    }
}

/// The bridge gets the path of its program, its search path where there is one, and those of the
/// five variables of the runner that have values, and nothing else.
pub proof fn bridge_gets_only_its_variables(facts: BridgeFacts, x: (Seq<char>, Seq<char>))
    ensures
        bridge_env(facts).contains(x) <==> {
            ||| x == ("CODEX_BIN"@, (facts.codex.canonical->0)@)
            ||| env_if("CODEX_HOME"@, facts.environment.codex_home).contains(x)
            ||| env_if("HOME"@, facts.environment.home).contains(x)
            ||| search_path_entry(facts.search_path).contains(x)
            ||| env_if("TEMP"@, facts.environment.temp).contains(x)
            ||| env_if("TMP"@, facts.environment.tmp).contains(x)
            ||| env_if("TMPDIR"@, facts.environment.tmpdir).contains(x)
        },
{
    let bin = seq![("CODEX_BIN"@, (facts.codex.canonical->0)@)];
    assert(bin[0] == ("CODEX_BIN"@, (facts.codex.canonical->0)@));
    assert(bin.contains(x) <==> x == ("CODEX_BIN"@, (facts.codex.canonical->0)@));
    let a = env_if("CODEX_HOME"@, facts.environment.codex_home);
    let b = env_if("HOME"@, facts.environment.home);
    let c = search_path_entry(facts.search_path);
    let d = env_if("TEMP"@, facts.environment.temp);
    let e = env_if("TMP"@, facts.environment.tmp);
    let f = env_if("TMPDIR"@, facts.environment.tmpdir);
    either_part(bin, a, x);
    either_part(bin + a, b, x);
    either_part(bin + a + b, c, x);
    either_part(bin + a + b + c, d, x);
    either_part(bin + a + b + c + d, e, x);
    either_part(bin + a + b + c + d + e, f, x);
}

/// The readiness check runs exactly where both paths are absolute, its parts are plain and still
/// what they were under their canonical names, and its script lies directly in the bridge
/// directory.
pub proof fn readiness_check_needs_its_parts(
    platform: Platform,
    node: Seq<char>,
    bridge_dir: Seq<char>,
    facts: ReadinessFacts,
)
    ensures
        readiness_applies(platform, node, bridge_dir, facts) <==> {
            &&& paths::absolute(platform, node) && paths::absolute(platform, bridge_dir)
            &&& facts.node.kind == Some(FileKind::File) && facts.node.canonical is Some
                && facts.canonical_node_is_file
            &&& facts.bridge_dir.kind == Some(FileKind::Directory)
                && facts.bridge_dir.canonical is Some && facts.canonical_bridge_is_dir
            &&& facts.script.kind == Some(FileKind::File) && facts.script.canonical is Some
                && facts.canonical_script_is_file
            &&& paths::directly_holds(
                platform,
                (facts.bridge_dir.canonical->0)@,
                (facts.script.canonical->0)@,
            )
        },
        forall|i: int|
            0 <= i < readiness_names(platform).len() ==> {
                let name = #[trigger] readiness_names(platform)[i];
                ||| name == "HOME"@ || name == "PATH"@ || name == "CODEX_BIN"@
                ||| name == "CODEX_HOME"@ || name == "TMPDIR"@ || name == "TMP"@ || name == "TEMP"@
                ||| name == "SYSTEMROOT"@ && platform == Platform::Windows
            },
        readiness_names(platform).len() == if platform == Platform::Windows {
            8int
        } else {
            7
        },
{
}

/// The search path holds the directory of the node executable first, where it has one, and after it
/// on POSIX the four system directories, and nothing else.
pub proof fn search_path_begins_with_the_node_directory(
    platform: Platform,
    node_dir: Option<Seq<char>>,
)
    ensures
        ({
            let entries = search_path_entries(platform, node_dir);
            let own = if node_dir is Some {
                1int
            } else {
                0
            };
            &&& node_dir is Some ==> entries[0] == node_dir->0
            &&& entries.len() == own + if platform == Platform::Posix {
                4int
            } else {
                0
            }
            &&& platform == Platform::Posix ==> entries[own] == "/usr/bin"@ && entries[own + 1]
                == "/bin"@ && entries[own + 2] == "/usr/sbin"@ && entries[own + 3] == "/sbin"@
        }),
{
}

} // verus!
