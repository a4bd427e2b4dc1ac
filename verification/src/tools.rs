//! What a provider may answer to `initialize`, `tools/list` and `tools/call`, and the parameters
//! of those requests.
use crate::json::{self, same_json, same_optional_json, Json, JsonView};
use crate::members;
use crate::rpc::{self, ProviderFailure, MCP_PROTOCOL_VERSION};
use crate::text::{self, contains_control, same, utf8_len};
use vstd::prelude::*;
use vstd::string::*;

verus! {

pub const MCP_GATEWAY_CLIENT_NAME: &'static str = "webcodex-runner-mcp-gateway";

/// A tool as a provider lists it.
#[derive(Debug)]
pub struct McpGatewayTool {
    pub name: String,
    pub title: Option<String>,
    pub description: Option<String>,
    pub input_schema: Json,
    pub output_schema: Option<Json>,
    pub annotations: Option<Json>,
    pub meta: Option<Json>,
}

/// What of a tool must not have changed when it is called.
#[derive(Debug)]
pub struct McpGatewaySchemaObservation {
    pub input_schema: Json,
    pub output_schema: Option<Json>,
    pub annotations: Option<Json>,
}

/// One part of the result of a tool.
#[derive(Debug)]
pub enum McpGatewayContent {
    Text { text: String },
}

/// The result of a tool.
#[derive(Debug)]
pub struct McpGatewayToolResult {
    pub content: Vec<McpGatewayContent>,
    pub structured_content: Option<Json>,
    pub is_error: bool,
}

/// The content of a listed tool.
pub struct ToolView {
    pub name: Seq<char>,
    pub title: Option<Seq<char>>,
    pub description: Option<Seq<char>>,
    pub input_schema: JsonView,
    pub output_schema: Option<JsonView>,
    pub annotations: Option<JsonView>,
    pub meta: Option<JsonView>,
}

/// The content of the result of a tool.
pub struct ToolResultView {
    pub content: Seq<Seq<char>>,
    pub structured_content: Option<JsonView>,
    pub is_error: bool,
}

impl McpGatewayTool {
    pub open spec fn view(self) -> ToolView {
        ToolView {
            name: self.name@,
            title: text::option_view(self.title),
            description: text::option_view(self.description),
            input_schema: self.input_schema.view(),
            output_schema: json::option_json(self.output_schema),
            annotations: json::option_json(self.annotations),
            meta: json::option_json(self.meta),
        }
    }
}

impl McpGatewayContent {
    pub open spec fn view(self) -> Seq<char> {
        match self {
            McpGatewayContent::Text { text } => text@,
        }
    }
}

impl McpGatewayToolResult {
    pub open spec fn view(self) -> ToolResultView {
        ToolResultView {
            content: Seq::new(self.content@.len(), |i: int| self.content@[i].view()),
            structured_content: json::option_json(self.structured_content),
            is_error: self.is_error,
        }
    }
}

/// The contents of listed tools.
pub open spec fn tools_view(tools: Seq<McpGatewayTool>) -> Seq<ToolView> {
    Seq::new(tools.len(), |i: int| tools[i].view())
}

// ---------------------------------------------------------------------------------------------
// initialize
// ---------------------------------------------------------------------------------------------
/// A name or version that an implementation may give itself.
pub open spec fn implementation_text_ok(value: Seq<char>) -> bool {
    value.len() > 0 && text::byte_len(value) <= 128 && !text::has_control(value)
}

/// The implementation names itself in the field.
pub open spec fn implementation_field_ok(result: JsonView, field: Seq<char>) -> bool {
    json::member(result, "serverInfo"@) matches Some(info) && (json::as_text(
        json::member(info, field),
    ) matches Some(value) && implementation_text_ok(value))
}

/// A result of `initialize` that the gateway can work with: its own protocol version, tools, and
/// a named implementation.
pub open spec fn initialize_result_ok(result: JsonView) -> bool {
    &&& result is Object
    &&& json::as_text(json::member(result, "protocolVersion"@)) == Some("2025-06-18"@)
    &&& json::member(result, "capabilities"@) matches Some(capabilities) && capabilities is Object
        && (json::member(capabilities, "tools"@) matches Some(tools) && tools is Object)
    &&& implementation_field_ok(result, "name"@)
    &&& implementation_field_ok(result, "version"@)
}

fn implementation_field_valid(result: &Json, field: &str) -> (r: bool)
    ensures
        r == implementation_field_ok(result.view(), field@),
{
    match result.get("serverInfo") {
        Some(info) => match info.get(field) {
            Some(value) => match value.as_str() {
                Some(value) => !value.is_empty() && utf8_len(value) <= 128 && !contains_control(
                    value,
                ),
                None => false,
            },
            None => false,
        },
        None => false,
    }
}

/// Checks a result of `initialize`. `bounded` says whether it keeps the shared bounds on JSON
/// values.
pub fn validate_initialize_result(result: &Json, bounded: bool) -> (r: Result<(), ProviderFailure>)
    ensures
        r == if bounded && initialize_result_ok(result.view()) {
            Ok::<(), ProviderFailure>(())
        } else {
            Err(rpc::failed_after_send("provider_initialize_invalid"))
        },
{
    if !bounded || !result.is_object() {
        return Err(ProviderFailure::after_send("provider_initialize_invalid"));
    }
    let version_matches = match result.get("protocolVersion") {
        Some(version) => match version.as_str() {
            Some(version) => same(version, MCP_PROTOCOL_VERSION),
            None => false,
        },
        None => false,
    };
    let has_tools = match result.get("capabilities") {
        Some(capabilities) => capabilities.is_object() && (match capabilities.get("tools") {
            Some(tools) => tools.is_object(),
            None => false,
        }),
        None => false,
    };
    if !version_matches || !has_tools || !implementation_field_valid(result, "name")
        || !implementation_field_valid(result, "version") {
        return Err(ProviderFailure::after_send("provider_initialize_invalid"));
    }
    Ok(())
}

/// The parameters of `initialize`.
pub open spec fn initialize_params(client_version: Seq<char>) -> JsonView {
    JsonView::Object(
        seq![
            ("capabilities"@, JsonView::Object(Seq::empty())),
            (
                "clientInfo"@,
                JsonView::Object(
                    seq![
                        ("name"@, JsonView::Text("webcodex-runner-mcp-gateway"@)),
                        ("version"@, JsonView::Text(client_version)),
                    ],
                ),
            ),
            ("protocolVersion"@, JsonView::Text("2025-06-18"@)),
        ],
    )
}

/// The parameters of `tools/call`: the name and the arguments, and nothing else.
pub open spec fn call_params(name: Seq<char>, arguments: JsonView) -> JsonView {
    JsonView::Object(seq![("arguments"@, arguments), ("name"@, JsonView::Text(name))])
}

/// Returns the empty parameters.
pub fn empty_params_value() -> (r: serde_json::Value)
    ensures
        json::value_content(r) == JsonView::Object(Seq::empty()),
{
    let members: Vec<(String, serde_json::Value)> = Vec::new();
    assert(json::named_contents(members@) =~= Seq::empty());
    json::object_value(members)
}

proof fn client_info_names_ascend(members: Seq<(Seq<char>, JsonView)>)
    requires
        members.len() == 2,
        members[0].0 == "name"@,
        members[1].0 == "version"@,
    ensures
        json::ascending_names(members),
{
    reveal_strlit("name");
    reveal_strlit("version");
}

proof fn initialize_names_ascend(members: Seq<(Seq<char>, JsonView)>)
    requires
        members.len() == 3,
        members[0].0 == "capabilities"@,
        members[1].0 == "clientInfo"@,
        members[2].0 == "protocolVersion"@,
    ensures
        json::ascending_names(members),
{
    reveal_strlit("capabilities");
    reveal_strlit("clientInfo");
    reveal_strlit("protocolVersion");
    assert(text::precedes(members[0].0, members[1].0)) by {
        assert(members[0].0.skip(1)[0] == 'a');
        assert(members[1].0.skip(1)[0] == 'l');
        reveal_with_fuel(text::precedes, 3);
    }
}

proof fn call_names_ascend(members: Seq<(Seq<char>, JsonView)>)
    requires
        members.len() == 2,
        members[0].0 == "arguments"@,
        members[1].0 == "name"@,
    ensures
        json::ascending_names(members),
{
    reveal_strlit("arguments");
    reveal_strlit("name");
}

/// Returns the parameters of `initialize`.
pub fn initialize_params_value(client_version: &str) -> (r: serde_json::Value)
    ensures
        json::value_content(r) == initialize_params(client_version@),
{
    let info = vec![
        ("name".to_owned(), json::text_value(MCP_GATEWAY_CLIENT_NAME)),
        ("version".to_owned(), json::text_value(client_version)),
    ];
    let ghost info_contents = json::named_contents(info@);
    proof {
        client_info_names_ascend(info_contents);
    }
    let members = vec![
        ("capabilities".to_owned(), empty_params_value()),
        ("clientInfo".to_owned(), json::object_value(info)),
        ("protocolVersion".to_owned(), json::text_value(MCP_PROTOCOL_VERSION)),
    ];
    let ghost contents = json::named_contents(members@);
    proof {
        initialize_names_ascend(contents);
        let wanted = initialize_params(client_version@)->Object_0;
        assert(info_contents =~= wanted[1].1->Object_0);
        assert(contents =~= wanted);
    }
    json::object_value(members)
}

/// Returns the parameters of `tools/call`.
pub fn call_params_value(name: &str, arguments: serde_json::Value) -> (r: serde_json::Value)
    ensures
        json::value_content(r) == call_params(name@, json::value_content(arguments)),
{
    let members = vec![
        ("arguments".to_owned(), arguments),
        ("name".to_owned(), json::text_value(name)),
    ];
    let ghost contents = json::named_contents(members@);
    proof {
        call_names_ascend(contents);
        assert(contents =~= call_params(name@, json::value_content(arguments))->Object_0);
    }
    json::object_value(members)
}

// ---------------------------------------------------------------------------------------------
// tools/list
// ---------------------------------------------------------------------------------------------
/// A member that must be text where it is there.
pub open spec fn optional_text_ok(value: Option<JsonView>) -> bool {
    value is Some ==> value->0 is Text
}

/// The tool that an entry of the list describes, or nothing where the entry is malformed.
pub open spec fn tool_of(raw: JsonView) -> Option<ToolView> {
    let name = json::as_text(json::member(raw, "name"@));
    let title = json::member(raw, "title"@);
    let description = json::member(raw, "description"@);
    let input_schema = json::member(raw, "inputSchema"@);
    if !(raw is Object) || name is None || !optional_text_ok(title) || !optional_text_ok(
        description,
    ) || input_schema is None {
        None
    } else {
        Some(
            ToolView {
                name: name->0,
                title: json::as_text(title),
                description: json::as_text(description),
                input_schema: input_schema->0,
                output_schema: json::member(raw, "outputSchema"@),
                annotations: json::member(raw, "annotations"@),
                meta: json::member(raw, "_meta"@),
            },
        )
    }
}

/// The tools that a list describes, or nothing where an entry is malformed.
pub open spec fn tools_of(raw: Seq<JsonView>) -> Option<Seq<ToolView>>
    decreases raw.len(),
{
    if raw.len() == 0 {
        Some(Seq::empty())
    } else {
        match (tools_of(raw.drop_last()), tool_of(raw.last())) {
            (Some(tools), Some(tool)) => Some(tools.push(tool)),
            _ => None,
        }
    }
}

/// What a result of `tools/list` means.
pub open spec fn tools_verdict(result: JsonView, bounded: bool) -> Result<
    Seq<ToolView>,
    ProviderFailure,
> {
    let cursor = json::member(result, "nextCursor"@);
    if !bounded || !(result is Object) {
        Err(rpc::failed_completed("invalid_provider_tools"))
    } else if cursor is Some && !(cursor->0 is Null) {
        Err(rpc::failed_completed("provider_pagination_unsupported"))
    } else {
        match json::member(result, "tools"@) {
            Some(JsonView::Array(raw)) => match tools_of(raw) {
                Some(tools) => Ok(tools),
                None => Err(rpc::failed_completed("invalid_provider_tools")),
            },
            _ => Err(rpc::failed_completed("invalid_provider_tools")),
        }
    }
}

/// The content of listed tools, or the failure.
pub open spec fn listed_view(r: Result<Vec<McpGatewayTool>, ProviderFailure>) -> Result<
    Seq<ToolView>,
    ProviderFailure,
> {
    match r {
        Ok(tools) => Ok(tools_view(tools@)),
        Err(failure) => Err(failure),
    }
}

fn copy_member(value: &Json, name: &str) -> (r: Option<Json>)
    ensures
        json::option_json(r) == json::member(value.view(), name@),
{
    match value.get(name) {
        Some(found) => Some(found.copy()),
        None => None,
    }
}

/// Returns the text of a member that must be text where it is there.
fn optional_text(value: &Json, name: &str) -> (r: Result<Option<String>, ()>)
    ensures
        r is Ok == optional_text_ok(json::member(value.view(), name@)),
        r matches Ok(found) ==> text::option_view(found) == json::as_text(
            json::member(value.view(), name@),
        ),
{
    match value.get(name) {
        Some(found) => match found.as_str() {
            Some(found) => Ok(Some(found.to_owned())),
            None => Err(()),
        },
        None => Ok(None),
    }
}

fn parse_tool(raw: &Json) -> (r: Option<McpGatewayTool>)
    ensures
        match tool_of(raw.view()) {
            Some(tool) => r matches Some(found) && found.view() == tool,
            None => r is None,
        },
{
    if !raw.is_object() {
        return None;
    }
    let name = match optional_text(raw, "name") {
        Ok(Some(name)) => name,
        _ => {
            return None;
        },
    };
    let title = match optional_text(raw, "title") {
        Ok(title) => title,
        Err(_) => {
            return None;
        },
    };
    let description = match optional_text(raw, "description") {
        Ok(description) => description,
        Err(_) => {
            return None;
        },
    };
    let input_schema = match copy_member(raw, "inputSchema") {
        Some(schema) => schema,
        None => {
            return None;
        },
    };
    Some(
        McpGatewayTool {
            name,
            title,
            description,
            input_schema,
            output_schema: copy_member(raw, "outputSchema"),
            annotations: copy_member(raw, "annotations"),
            meta: copy_member(raw, "_meta"),
        },
    )
}

proof fn tools_of_prefix_none(raw: Seq<JsonView>, n: int)
    requires
        0 <= n <= raw.len(),
        tools_of(raw.take(n)) is None,
    ensures
        tools_of(raw) is None,
    decreases raw.len(),
{
    if n < raw.len() {
        assert(raw.drop_last().take(n) =~= raw.take(n));
        tools_of_prefix_none(raw.drop_last(), n);
    } else {
        assert(raw.take(n) =~= raw);
    }
}

/// Reads a result of `tools/list`. `bounded` says whether it keeps the shared bounds on JSON
/// values.
pub fn parse_tools_list(result: &Json, bounded: bool) -> (r: Result<
    Vec<McpGatewayTool>,
    ProviderFailure,
>)
    ensures
        listed_view(r) == tools_verdict(result.view(), bounded),
{
    if !bounded || !result.is_object() {
        return Err(ProviderFailure::completed("invalid_provider_tools"));
    }
    if let Some(cursor) = result.get("nextCursor") {
        match cursor {
            Json::Null => {},
            _ => {
                return Err(ProviderFailure::completed("provider_pagination_unsupported"));
            },
        }
    }
    let raw = match result.get("tools") {
        Some(Json::Array(raw)) => raw,
        _ => {
            return Err(ProviderFailure::completed("invalid_provider_tools"));
        },
    };
    let ghost all = json::values_view(raw@);
    proof {
        assert(Json::Array(*raw).view()->Array_0 =~= all);
        assert(all.take(0) =~= Seq::empty());
    }
    let mut tools: Vec<McpGatewayTool> = Vec::new();
    assert(tools_view(tools@) =~= Seq::empty());
    for i in 0..raw.len()
        invariant
            all == json::values_view(raw@),
            tools_verdict(result.view(), bounded) == match tools_of(all) {
                Some(tools) => Ok::<Seq<ToolView>, ProviderFailure>(tools),
                None => Err(rpc::failed_completed("invalid_provider_tools")),
            },
            tools_of(all.take(i as int)) == Some(tools_view(tools@)),
    {
        let ghost before = tools_view(tools@);
        proof {
            assert(all.take(i + 1).drop_last() =~= all.take(i as int));
            assert(all.take(i + 1).last() == raw@[i as int].view());
        }
        match parse_tool(&raw[i]) {
            Some(tool) => {
                tools.push(tool);
                assert(tools_view(tools@) =~= before.push(tool.view()));
            },
            None => {
                proof {
                    tools_of_prefix_none(all, i + 1);
                }
                return Err(ProviderFailure::completed("invalid_provider_tools"));
            },
        }
    }
    assert(all.take(all.len() as int) =~= all);
    Ok(tools)
}

/// Takes listed tools over. `acceptable` says whether they keep the shared bounds on tools.
pub fn accept_tools(tools: Vec<McpGatewayTool>, acceptable: bool) -> (r: Result<
    Vec<McpGatewayTool>,
    ProviderFailure,
>)
    ensures
        r == if acceptable {
            Ok::<Vec<McpGatewayTool>, ProviderFailure>(tools)
        } else {
            Err(rpc::failed_completed("invalid_provider_tools"))
        },
{
    if acceptable {
        Ok(tools)
    } else {
        Err(ProviderFailure::completed("invalid_provider_tools"))
    }
}

// ---------------------------------------------------------------------------------------------
// tools/call
// ---------------------------------------------------------------------------------------------
/// The text of one part of a result, or why there is none.
pub open spec fn content_part(item: JsonView) -> Result<Seq<char>, ProviderFailure> {
    if !(item is Object) {
        Err(rpc::failed_completed("invalid_provider_result"))
    } else if json::as_text(json::member(item, "type"@)) != Some("text"@) {
        Err(rpc::failed_completed("unsupported_provider_content"))
    } else {
        match json::as_text(json::member(item, "text"@)) {
            Some(found) => Ok(found),
            None => Err(rpc::failed_completed("invalid_provider_result")),
        }
    }
}

/// The texts of the parts of a result, or what is wrong with the first bad part.
pub open spec fn content_parts(items: Seq<JsonView>) -> Result<Seq<Seq<char>>, ProviderFailure>
    decreases items.len(),
{
    if items.len() == 0 {
        Ok(Seq::empty())
    } else {
        match content_parts(items.drop_last()) {
            Err(failure) => Err(failure),
            Ok(before) => match content_part(items.last()) {
                Err(failure) => Err(failure),
                Ok(part) => Ok(before.push(part)),
            },
        }
    }
}

/// What a result of `tools/call` means.
pub open spec fn call_verdict(result: JsonView, bounded: bool) -> Result<
    ToolResultView,
    ProviderFailure,
> {
    let flag = json::member(result, "isError"@);
    if !bounded || !(result is Object) {
        Err(rpc::failed_completed("invalid_provider_result"))
    } else {
        match json::member(result, "content"@) {
            Some(JsonView::Array(items)) => match content_parts(items) {
                Err(failure) => Err(failure),
                Ok(content) => if flag is Some && !(flag->0 is Bool) {
                    Err(rpc::failed_completed("invalid_provider_result"))
                } else {
                    Ok(
                        ToolResultView {
                            content,
                            structured_content: json::member(result, "structuredContent"@),
                            is_error: flag is Some && flag->0 == JsonView::Bool(true),
                        },
                    )
                },
            },
            _ => Err(rpc::failed_completed("invalid_provider_result")),
        }
    }
}

/// The content of a tool result, or the failure.
pub open spec fn called_view(r: Result<McpGatewayToolResult, ProviderFailure>) -> Result<
    ToolResultView,
    ProviderFailure,
> {
    match r {
        Ok(result) => Ok(result.view()),
        Err(failure) => Err(failure),
    }
}

fn parse_content(item: &Json) -> (r: Result<String, ProviderFailure>)
    ensures
        match content_part(item.view()) {
            Ok(part) => r matches Ok(found) && found@ == part,
            Err(failure) => r == Result::<String, ProviderFailure>::Err(failure),
        },
{
    if !item.is_object() {
        return Err(ProviderFailure::completed("invalid_provider_result"));
    }
    let is_text = match item.get("type") {
        Some(kind) => match kind.as_str() {
            Some(kind) => same(kind, "text"),
            None => false,
        },
        None => false,
    };
    if !is_text {
        return Err(ProviderFailure::completed("unsupported_provider_content"));
    }
    match item.get("text") {
        Some(found) => match found.as_str() {
            Some(found) => Ok(found.to_owned()),
            None => Err(ProviderFailure::completed("invalid_provider_result")),
        },
        None => Err(ProviderFailure::completed("invalid_provider_result")),
    }
}

proof fn content_failure_stays(items: Seq<JsonView>, n: int)
    requires
        0 <= n <= items.len(),
        content_parts(items.take(n)) is Err,
    ensures
        content_parts(items) == content_parts(items.take(n)),
    decreases items.len(),
{
    if n < items.len() {
        assert(items.drop_last().take(n) =~= items.take(n));
        content_failure_stays(items.drop_last(), n);
    } else {
        assert(items.take(n) =~= items);
    }
}

fn parse_contents(items: &Vec<Json>) -> (r: Result<Vec<McpGatewayContent>, ProviderFailure>)
    ensures
        match content_parts(json::values_view(items@)) {
            Ok(parts) => r matches Ok(found) && Seq::new(found@.len(), |i: int| found@[i].view())
                == parts,
            Err(failure) => r == Result::<Vec<McpGatewayContent>, ProviderFailure>::Err(failure),
        },
{
    let ghost all = json::values_view(items@);
    let mut content: Vec<McpGatewayContent> = Vec::new();
    let ghost mut parts: Seq<Seq<char>> = Seq::empty();
    assert(all.take(0) =~= Seq::empty());
    for i in 0..items.len()
        invariant
            all == json::values_view(items@),
            content_parts(all.take(i as int)) == Ok::<Seq<Seq<char>>, ProviderFailure>(parts),
            parts.len() == content@.len(),
            forall|j: int| 0 <= j < parts.len() ==> (#[trigger] content@[j]).view() == parts[j],
    {
        proof {
            assert(all.take(i + 1).drop_last() =~= all.take(i as int));
            assert(all.take(i + 1).last() == items@[i as int].view());
        }
        match parse_content(&items[i]) {
            Ok(part) => {
                proof {
                    parts = parts.push(part@);
                }
                content.push(McpGatewayContent::Text { text: part });
            },
            Err(failure) => {
                proof {
                    content_failure_stays(all, i + 1);
                }
                return Err(failure);
            },
        }
    }
    proof {
        assert(all.take(all.len() as int) =~= all);
        assert(Seq::new(content@.len(), |i: int| content@[i].view()) =~= parts);
    }
    Ok(content)
}

/// Reads a result of `tools/call`. `bounded` says whether it keeps the shared bounds on JSON
/// values.
pub fn parse_call_result(result: &Json, bounded: bool) -> (r: Result<
    McpGatewayToolResult,
    ProviderFailure,
>)
    ensures
        called_view(r) == call_verdict(result.view(), bounded),
{
    if !bounded || !result.is_object() {
        return Err(ProviderFailure::completed("invalid_provider_result"));
    }
    let items = match result.get("content") {
        Some(Json::Array(items)) => items,
        _ => {
            return Err(ProviderFailure::completed("invalid_provider_result"));
        },
    };
    assert(Json::Array(*items).view()->Array_0 =~= json::values_view(items@));
    let content = parse_contents(items)?;
    let is_error = match result.get("isError") {
        None => false,
        Some(Json::Bool(flag)) => *flag,
        Some(_) => {
            return Err(ProviderFailure::completed("invalid_provider_result"));
        },
    };
    Ok(
        McpGatewayToolResult {
            content,
            structured_content: copy_member(result, "structuredContent"),
            is_error,
        },
    )
}

/// Takes a tool result over. `acceptable` says whether it keeps the shared bounds on results.
pub fn accept_call_result(result: McpGatewayToolResult, acceptable: bool) -> (r: Result<
    McpGatewayToolResult,
    ProviderFailure,
>)
    ensures
        r == if acceptable {
            Ok::<McpGatewayToolResult, ProviderFailure>(result)
        } else {
            Err(rpc::failed_completed("invalid_provider_result"))
        },
{
    if acceptable {
        Ok(result)
    } else {
        Err(ProviderFailure::completed("invalid_provider_result"))
    }
}

/// The tool is as it was observed.
pub open spec fn observed(tool: ToolView, expected: McpGatewaySchemaObservation) -> bool {
    &&& json::json_same(tool.input_schema, expected.input_schema.view())
    &&& json::option_same(tool.output_schema, json::option_json(expected.output_schema))
    &&& json::option_same(tool.annotations, json::option_json(expected.annotations))
}

/// Why a call of the first tool of that name may not go out, if it may not.
pub open spec fn call_refusal(
    tools: Seq<ToolView>,
    name: Seq<char>,
    expected: McpGatewaySchemaObservation,
) -> Option<ProviderFailure>
    decreases tools.len(),
{
    if tools.len() == 0 {
        Some(rpc::failed_not_started("provider_tool_missing"))
    } else if tools[0].name == name {
        if observed(tools[0], expected) {
            None
        } else {
            Some(rpc::failed_not_started("provider_schema_changed"))
        }
    } else {
        call_refusal(tools.skip(1), name, expected)
    }
}

impl McpGatewayTool {
    /// Tells whether the tool is as it was observed.
    pub fn matches_observation(&self, expected: &McpGatewaySchemaObservation) -> (r: bool)
        ensures
            r == observed(self.view(), *expected),
    {
        same_json(&self.input_schema, &expected.input_schema) && same_optional_json(
            &self.output_schema,
            &expected.output_schema,
        ) && same_optional_json(&self.annotations, &expected.annotations)
    }
}

/// Checks that a tool is still there and as it was observed, before it is called.
pub fn check_call(
    tools: &Vec<McpGatewayTool>,
    name: &str,
    expected: &McpGatewaySchemaObservation,
) -> (r: Result<(), ProviderFailure>)
    ensures
        match call_refusal(tools_view(tools@), name@, *expected) {
            None => r is Ok,
            Some(failure) => r == Result::<(), ProviderFailure>::Err(failure),
        },
{
    let ghost all = tools_view(tools@);
    assert(all.skip(0) =~= all);
    for i in 0..tools.len()
        invariant
            all == tools_view(tools@),
            call_refusal(all, name@, *expected) == call_refusal(
                all.skip(i as int),
                name@,
                *expected,
            ),
    {
        proof {
            assert(all.skip(i as int)[0] == tools@[i as int].view());
            assert(all.skip(i as int).skip(1) =~= all.skip(i + 1));
        }
        if same(tools[i].name.as_str(), name) {
            if tools[i].matches_observation(expected) {
                return Ok(());
            }
            return Err(ProviderFailure::not_started("provider_schema_changed"));
        }
    }
    Err(ProviderFailure::not_started("provider_tool_missing"))
}

// ---------------------------------------------------------------------------------------------
// Laws
// ---------------------------------------------------------------------------------------------
proof fn tools_of_entries(raw: Seq<JsonView>)
    ensures
        tools_of(raw) matches Some(tools) ==> tools.len() == raw.len() && (forall|i: int|
            0 <= i < raw.len() ==> tool_of(#[trigger] raw[i]) == Some(tools[i])),
        tools_of(raw) is None <==> (exists|i: int|
            0 <= i < raw.len() && tool_of(#[trigger] raw[i]) is None),
    decreases raw.len(),
{
    if raw.len() > 0 {
        let shorter = raw.drop_last();
        tools_of_entries(shorter);
        assert forall|i: int| 0 <= i < shorter.len() implies shorter[i] == raw[i] by {}
        if tools_of(raw) is None {
            if tools_of(shorter) is None {
                let i = choose|i: int|
                    0 <= i < shorter.len() && tool_of(#[trigger] shorter[i]) is None;
                assert(tool_of(raw[i]) is None);
            } else {
                assert(tool_of(raw[raw.len() - 1]) is None);
            }
        } else {
            assert forall|i: int| 0 <= i < raw.len() implies tool_of(#[trigger] raw[i]) == Some(
                tools_of(raw)->0[i],
            ) by {
                if i < shorter.len() {
                    assert(tool_of(shorter[i]) == Some(tools_of(shorter)->0[i]));
                }
            }
        }
    }
}

/// Every entry of an accepted listing is listed, in its place and as it is written: there are as
/// many tools as entries, and each tool has the name, the title, the description, the schemas, the
/// annotations and the meta data of its own entry.
pub proof fn listed_tools_mirror_their_entries(
    result: JsonView,
    bounded: bool,
    listed: Result<Vec<McpGatewayTool>, ProviderFailure>,
)
    requires
        listed_view(listed) == tools_verdict(result, bounded),
        listed is Ok,
    ensures
        bounded,
        json::member(result, "tools"@) matches Some(JsonView::Array(raw)) && {
            let tools = listed->Ok_0@;
            &&& tools.len() == raw.len()
            &&& forall|i: int|
                #![trigger tools[i]]
                0 <= i < raw.len() ==> {
                    let tool = tools[i];
                    &&& json::member(raw[i], "name"@) == Some(JsonView::Text(tool.name@))
                    &&& match tool.title {
                        Some(title) => json::member(raw[i], "title"@) == Some(
                            JsonView::Text(title@),
                        ),
                        None => json::member(raw[i], "title"@) is None,
                    }
                    &&& match tool.description {
                        Some(description) => json::member(raw[i], "description"@) == Some(
                            JsonView::Text(description@),
                        ),
                        None => json::member(raw[i], "description"@) is None,
                    }
                    &&& json::member(raw[i], "inputSchema"@) == Some(tool.input_schema.view())
                    &&& match tool.output_schema {
                        Some(schema) => json::member(raw[i], "outputSchema"@) == Some(
                            schema.view(),
                        ),
                        None => json::member(raw[i], "outputSchema"@) is None,
                    }
                    &&& match tool.annotations {
                        Some(annotations) => json::member(raw[i], "annotations"@) == Some(
                            annotations.view(),
                        ),
                        None => json::member(raw[i], "annotations"@) is None,
                    }
                    &&& match tool.meta {
                        Some(meta) => json::member(raw[i], "_meta"@) == Some(meta.view()),
                        None => json::member(raw[i], "_meta"@) is None,
                    }
                }
        },
        match json::member(result, "nextCursor"@) {
            Some(cursor) => cursor is Null,
            None => true,
        },
{
    let raw = json::member(result, "tools"@)->0->Array_0;
    let tools = listed->Ok_0@;
    tools_of_entries(raw);
    assert forall|i: int| #![trigger tools[i]] 0 <= i < raw.len() implies tool_of(raw[i]) == Some(
        tools[i].view(),
    ) by {
        assert(tools_view(tools)[i] == tools[i].view());
    }
}

/// A listing is refused exactly for a reason: it is not bounded, it goes on elsewhere, it has no
/// list of tools, or an entry of the list has no name, no input schema, or a title or description
/// that is no text. Only a listing that goes on elsewhere is refused as such. A refusal completes
/// the exchange and leaves the connection.
pub proof fn listing_is_refused_only_for_a_reason(result: JsonView, bounded: bool)
    ensures
        ({
            let cursor = json::member(result, "nextCursor"@);
            let continued = cursor is Some && cursor->0 != JsonView::Null;
            let whole = bounded && result is Object;
            match tools_verdict(result, bounded) {
                Ok(_) => {
                    &&& whole && !continued
                    &&& json::member(result, "tools"@) matches Some(JsonView::Array(raw))
                        && forall|i: int|
                        0 <= i < raw.len() ==> {
                            let entry = #[trigger] raw[i];
                            &&& entry is Object
                            &&& json::member(entry, "name"@) matches Some(name) && name is Text
                            &&& json::member(entry, "title"@) matches Some(title) ==> title is Text
                            &&& json::member(entry, "description"@) matches Some(description)
                                ==> description is Text
                            &&& json::member(entry, "inputSchema"@) is Some
                        }
                },
                Err(failure) => {
                    &&& failure.dispatch_state == rpc::McpGatewayDispatchState::Completed
                    &&& !failure.fatal
                    &&& failure.code == if whole && continued {
                        "provider_pagination_unsupported"
                    } else {
                        "invalid_provider_tools"
                    }
                    &&& whole && !continued ==> match json::member(result, "tools"@) {
                        Some(JsonView::Array(raw)) => exists|i: int|
                            0 <= i < raw.len() && {
                                let entry = #[trigger] raw[i];
                                ||| !(entry is Object)
                                ||| !(json::member(entry, "name"@) matches Some(name)
                                    && name is Text)
                                ||| (json::member(entry, "title"@) matches Some(title)
                                    && !(title is Text))
                                ||| (json::member(entry, "description"@) matches Some(description)
                                    && !(description is Text))
                                ||| json::member(entry, "inputSchema"@) is None
                            },
                        _ => true,
                    }
                },
            }
        }),
{
    match json::member(result, "tools"@) {
        Some(JsonView::Array(raw)) => {
            tools_of_entries(raw);
            if tools_of(raw) is Some {
                assert forall|i: int| 0 <= i < raw.len() implies tool_of(#[trigger] raw[i]) is Some by {
                    assert(tool_of(raw[i]) == Some(tools_of(raw)->0[i]));
                }
            } else {
                let i = choose|i: int| 0 <= i < raw.len() && tool_of(#[trigger] raw[i]) is None;
                assert(tool_of(raw[i]) is None);
            }
        },
        _ => {},
    }
}

proof fn content_parts_of_items(items: Seq<JsonView>)
    ensures
        content_parts(items) matches Ok(parts) ==> parts.len() == items.len() && (forall|i: int|
            0 <= i < items.len() ==> content_part(#[trigger] items[i]) == Ok::<
                Seq<char>,
                ProviderFailure,
            >(parts[i])),
    decreases items.len(),
{
    if items.len() > 0 {
        let shorter = items.drop_last();
        content_parts_of_items(shorter);
        if content_parts(items) is Ok {
            assert forall|i: int| 0 <= i < items.len() implies content_part(#[trigger] items[i])
                == Ok::<Seq<char>, ProviderFailure>(content_parts(items)->Ok_0[i]) by {
                if i < shorter.len() {
                    assert(shorter[i] == items[i]);
                }
            }
        }
    }
}

/// Each part of an accepted tool result comes from its own member and from nothing else: it is an
/// error exactly where `isError` is true, its structured content is `structuredContent`, and its
/// content has one text for each part of `content`, in order.
pub proof fn call_results_mirror_their_members(
    result: JsonView,
    bounded: bool,
    called: Result<McpGatewayToolResult, ProviderFailure>,
)
    requires
        called_view(called) == call_verdict(result, bounded),
        called is Ok,
    ensures
        bounded,
        (called->Ok_0).is_error <==> json::member(result, "isError"@) == Some(
            JsonView::Bool(true),
        ),
        match json::member(result, "isError"@) {
            Some(flag) => flag is Bool,
            None => true,
        },
        match (called->Ok_0).structured_content {
            Some(structured) => json::member(result, "structuredContent"@) == Some(
                structured.view(),
            ),
            None => json::member(result, "structuredContent"@) is None,
        },
        json::member(result, "content"@) matches Some(JsonView::Array(items)) && {
            let content = (called->Ok_0).content@;
            &&& content.len() == items.len()
            &&& forall|i: int|
                #![trigger content[i]]
                0 <= i < items.len() ==> {
                    &&& json::member(items[i], "type"@) == Some(JsonView::Text("text"@))
                    &&& content[i] matches McpGatewayContent::Text { text } && json::member(
                        items[i],
                        "text"@,
                    ) == Some(JsonView::Text(text@))
                }
        },
{
    let items = json::member(result, "content"@)->0->Array_0;
    let content = (called->Ok_0).content@;
    content_parts_of_items(items);
    let seen = (called->Ok_0).view().content;
    assert forall|i: int| #![trigger content[i]] 0 <= i < items.len() implies content_part(items[i])
        == Ok::<Seq<char>, ProviderFailure>(content[i].view()) by {
        assert(seen[i] == content[i].view());
    }
}

proof fn content_failure_is_of_an_item(items: Seq<JsonView>) -> (at: int)
    requires
        content_parts(items) is Err,
    ensures
        0 <= at < items.len(),
        content_part(items[at]) is Err,
        content_parts(items)->Err_0 == content_part(items[at])->Err_0,
        forall|i: int| 0 <= i < at ==> content_part(#[trigger] items[i]) is Ok,
    decreases items.len(),
{
    let shorter = items.drop_last();
    if content_parts(shorter) is Err {
        let at = content_failure_is_of_an_item(shorter);
        assert forall|i: int| 0 <= i < at implies content_part(#[trigger] items[i]) is Ok by {
            assert(shorter[i] == items[i]);
        }
        at
    } else {
        content_parts_of_items(shorter);
        assert forall|i: int| 0 <= i < items.len() - 1 implies content_part(
            #[trigger] items[i],
        ) is Ok by {
            assert(shorter[i] == items[i]);
        }
        items.len() - 1
    }
}

/// A tool result is refused exactly for a reason: it is not bounded, it has no list of content,
/// its error flag is no flag, or a part of its content is no text. The first part that is no text
/// decides how it is refused: as unsupported where it is a part of another type, as invalid
/// otherwise. A refusal completes the exchange and leaves the connection.
pub proof fn call_result_is_refused_only_for_a_reason(result: JsonView, bounded: bool)
    ensures
        match call_verdict(result, bounded) {
            Ok(_) => bounded && result is Object,
            Err(failure) => {
                let flag = json::member(result, "isError"@);
                &&& failure.dispatch_state == rpc::McpGatewayDispatchState::Completed
                &&& !failure.fatal
                &&& failure.code == "invalid_provider_result" || failure.code
                    == "unsupported_provider_content"
                &&& failure.code == "unsupported_provider_content" ==> bounded && result is Object
                &&& bounded && result is Object ==> match json::member(result, "content"@) {
                    Some(JsonView::Array(items)) => {
                        ||| failure.code == "invalid_provider_result" && flag is Some && !(
                        flag->0 is Bool)
                        ||| exists|at: int|
                            0 <= at < items.len() && {
                                let item = #[trigger] items[at];
                                let kind = json::member(item, "type"@);
                                let body = json::member(item, "text"@);
                                &&& failure.code == if item is Object && kind != Some(
                                    JsonView::Text("text"@),
                                ) {
                                    "unsupported_provider_content"
                                } else {
                                    "invalid_provider_result"
                                }
                                &&& !(item is Object) || kind != Some(JsonView::Text("text"@)) || !(
                                body is Some && body->0 is Text)
                                &&& forall|i: int|
                                    0 <= i < at ==> {
                                        let earlier = #[trigger] items[i];
                                        &&& json::member(earlier, "type"@) == Some(
                                            JsonView::Text("text"@),
                                        )
                                        &&& json::member(earlier, "text"@) matches Some(body)
                                            && body is Text
                                    }
                            }
                    },
                    _ => failure.code == "invalid_provider_result",
                }
            },
        },
{
    match json::member(result, "content"@) {
        Some(JsonView::Array(items)) => {
            if content_parts(items) is Err {
                let at = content_failure_is_of_an_item(items);
                assert forall|i: int| 0 <= i < at implies ({
                    let earlier = #[trigger] items[i];
                    &&& json::member(earlier, "type"@) == Some(JsonView::Text("text"@))
                    &&& json::member(earlier, "text"@) matches Some(body) && body is Text
                }) by {
                    assert(content_part(items[i]) is Ok);
                }
                let item = items[at];
            }
        },
        _ => {},
    }
}

/// A call goes out exactly where the first listed tool of its name has the input schema, the
/// output schema and the annotations that were observed. It is refused as missing exactly where no
/// tool has the name, and never sent where it is refused.
pub proof fn calls_need_the_observed_tool(
    tools: Seq<ToolView>,
    name: Seq<char>,
    expected: McpGatewaySchemaObservation,
    at: int,
)
    requires
        0 <= at <= tools.len(),
        forall|i: int| 0 <= i < at ==> (#[trigger] tools[i]).name != name,
        at < tools.len() ==> tools[at].name == name,
    ensures
        match call_refusal(tools, name, expected) {
            None => at < tools.len() && json::json_same(
                tools[at].input_schema,
                expected.input_schema.view(),
            ) && json::option_same(tools[at].output_schema, json::option_json(expected.output_schema))
                && json::option_same(tools[at].annotations, json::option_json(expected.annotations)),
            Some(failure) => {
                &&& failure.dispatch_state == rpc::McpGatewayDispatchState::NotStarted
                &&& !failure.fatal
                &&& failure.code == if at == tools.len() {
                    "provider_tool_missing"
                } else {
                    "provider_schema_changed"
                }
                &&& at < tools.len() ==> {
                    ||| !json::json_same(tools[at].input_schema, expected.input_schema.view())
                    ||| !json::option_same(
                        tools[at].output_schema,
                        json::option_json(expected.output_schema),
                    )
                    ||| !json::option_same(
                        tools[at].annotations,
                        json::option_json(expected.annotations),
                    )
                }
            },
        },
    decreases tools.len(),
{
    if at > 0 {
        assert(tools[0].name != name);
        let rest = tools.skip(1);
        assert forall|i: int| 0 <= i < at - 1 implies (#[trigger] rest[i]).name != name by {
            assert(rest[i] == tools[i + 1]);
        }
        if at < tools.len() {
            assert(rest[at - 1] == tools[at]);
        }
        calls_need_the_observed_tool(rest, name, expected, at - 1);
    }
}

/// The parameters of a call carry its name and its arguments, unchanged, and nothing else; those
/// of `initialize` carry the protocol version and the name and version of the client.
pub proof fn parameters_carry_what_they_are_given(
    name: Seq<char>,
    arguments: JsonView,
    version: Seq<char>,
)
    ensures
        json::member(call_params(name, arguments), "name"@) == Some(JsonView::Text(name)),
        json::member(call_params(name, arguments), "arguments"@) == Some(arguments),
        call_params(name, arguments) matches JsonView::Object(all) && all.len() == 2,
        json::member(initialize_params(version), "protocolVersion"@) == Some(
            JsonView::Text("2025-06-18"@),
        ),
        json::member(initialize_params(version), "capabilities"@) == Some(
            JsonView::Object(Seq::empty()),
        ),
        json::member(initialize_params(version), "clientInfo"@) matches Some(info) && json::member(
            info,
            "version"@,
        ) == Some(JsonView::Text(version)) && json::member(info, "name"@) == Some(
            JsonView::Text("webcodex-runner-mcp-gateway"@),
        ),
{
    reveal_strlit("name");
    reveal_strlit("arguments");
    reveal_strlit("version");
    reveal_strlit("capabilities");
    reveal_strlit("clientInfo");
    reveal_strlit("protocolVersion");
    let call = call_params(name, arguments)->Object_0;
    members::position_is(call, "arguments"@, 0);
    assert(call[0].0[0] == 'a');
    members::position_is(call, "name"@, 1);
    let first = initialize_params(version)->Object_0;
    assert(first[0].0.len() == 12 && first[1].0.len() == 10 && first[2].0.len() == 15);
    members::position_is(first, "capabilities"@, 0);
    members::position_is(first, "clientInfo"@, 1);
    members::position_is(first, "protocolVersion"@, 2);
    let info = first[1].1->Object_0;
    assert(info[0].0.len() == 4 && info[1].0.len() == 7);
    members::position_is(info, "name"@, 0);
    members::position_is(info, "version"@, 1);
}

/// A result of `initialize` is accepted exactly where it is bounded, its protocol version is the
/// gateway's own, it offers tools, and the implementation gives itself a name and a version that
/// are not empty, not over 128 bytes and free of control characters.
pub proof fn initialize_needs_version_tools_and_names(result: JsonView)
    ensures
        initialize_result_ok(result) <==> {
            &&& json::member(result, "protocolVersion"@) == Some(JsonView::Text("2025-06-18"@))
            &&& json::member(result, "capabilities"@) matches Some(capabilities) && (json::member(
                capabilities,
                "tools"@,
            ) matches Some(tools) && tools is Object)
            &&& json::member(result, "serverInfo"@) matches Some(info) && ((json::member(
                info,
                "name"@,
            ) matches Some(JsonView::Text(name)) && 0 < name.len() && text::byte_len(name) <= 128
                && !text::has_control(name)) && (json::member(info, "version"@) matches Some(
                JsonView::Text(version),
            ) && 0 < version.len() && text::byte_len(version) <= 128 && !text::has_control(
                version,
            )))
        },
{
}

} // verus!
