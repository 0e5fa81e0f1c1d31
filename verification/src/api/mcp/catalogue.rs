//! The tools: which there are, what they take, and what they ask for.

use vstd::prelude::*;

use crate::api::scopes::{
    DEVICES_COMMAND, EVENTS_READ, LOGS_READ, PLUGINS_INSTALL, PLUGINS_LIST, PLUGINS_START,
    PLUGINS_STOP, PLUGINS_UNINSTALL,
};
use crate::json_value::{
    json_list, json_members, json_object, json_text, json_texts, object1, object2, object3,
    text_list, Json, JsonModel,
};
use crate::text::texts;

verus! {

/// The tools.
#[derive(Debug, Clone, Copy, PartialEq, Eq, Structural)]
pub enum ToolKind {
    DeviceSendCommand,
    LogsQuery,
    PluginsList,
    PluginsShow,
    PluginsStop,
    PluginsStart,
    PluginsInstall,
    PluginsUninstall,
    EventsHistory,
}

/// The name of a tool.
pub open spec fn tool_name(kind: ToolKind) -> Seq<char> {
    match kind {
        ToolKind::DeviceSendCommand => "device.send_command"@,
        ToolKind::LogsQuery => "logs.query"@,
        ToolKind::PluginsList => "plugins.list"@,
        ToolKind::PluginsShow => "plugins.show"@,
        ToolKind::PluginsStop => "plugins.stop"@,
        ToolKind::PluginsStart => "plugins.start"@,
        ToolKind::PluginsInstall => "plugins.install"@,
        ToolKind::PluginsUninstall => "plugins.uninstall"@,
        ToolKind::EventsHistory => "events.history"@,
    }
}

/// The scope that a tool asks for.
pub open spec fn tool_scope(kind: ToolKind) -> Seq<char> {
    match kind {
        ToolKind::DeviceSendCommand => DEVICES_COMMAND@,
        ToolKind::LogsQuery => LOGS_READ@,
        ToolKind::PluginsList => PLUGINS_LIST@,
        ToolKind::PluginsShow => PLUGINS_LIST@,
        ToolKind::PluginsStop => PLUGINS_STOP@,
        ToolKind::PluginsStart => PLUGINS_START@,
        ToolKind::PluginsInstall => PLUGINS_INSTALL@,
        ToolKind::PluginsUninstall => PLUGINS_UNINSTALL@,
        ToolKind::EventsHistory => EVENTS_READ@,
    }
}

/// The tool with a name.
pub open spec fn tool_of(name: Seq<char>) -> Option<ToolKind> {
    if name == "device.send_command"@ {
        Some(ToolKind::DeviceSendCommand)
    } else if name == "logs.query"@ {
        Some(ToolKind::LogsQuery)
    } else if name == "plugins.list"@ {
        Some(ToolKind::PluginsList)
    } else if name == "plugins.show"@ {
        Some(ToolKind::PluginsShow)
    } else if name == "plugins.stop"@ {
        Some(ToolKind::PluginsStop)
    } else if name == "plugins.start"@ {
        Some(ToolKind::PluginsStart)
    } else if name == "plugins.install"@ {
        Some(ToolKind::PluginsInstall)
    } else if name == "plugins.uninstall"@ {
        Some(ToolKind::PluginsUninstall)
    } else if name == "events.history"@ {
        Some(ToolKind::EventsHistory)
    } else {
        None
    }
}

impl ToolKind {
    /// The name of the tool.
    pub fn name(self) -> (r: &'static str)
        ensures
            r@ == tool_name(self),
    {
        match self {
            ToolKind::DeviceSendCommand => "device.send_command",
            ToolKind::LogsQuery => "logs.query",
            ToolKind::PluginsList => "plugins.list",
            ToolKind::PluginsShow => "plugins.show",
            ToolKind::PluginsStop => "plugins.stop",
            ToolKind::PluginsStart => "plugins.start",
            ToolKind::PluginsInstall => "plugins.install",
            ToolKind::PluginsUninstall => "plugins.uninstall",
            ToolKind::EventsHistory => "events.history",
        }
    }

    /// The scope that the tool asks for.
    pub fn scope(self) -> (r: &'static str)
        ensures
            r@ == tool_scope(self),
    {
        match self {
            ToolKind::DeviceSendCommand => DEVICES_COMMAND,
            ToolKind::LogsQuery => LOGS_READ,
            ToolKind::PluginsList => PLUGINS_LIST,
            ToolKind::PluginsShow => PLUGINS_LIST,
            ToolKind::PluginsStop => PLUGINS_STOP,
            ToolKind::PluginsStart => PLUGINS_START,
            ToolKind::PluginsInstall => PLUGINS_INSTALL,
            ToolKind::PluginsUninstall => PLUGINS_UNINSTALL,
            ToolKind::EventsHistory => EVENTS_READ,
        }
    }
}

/// Finds the tool with a name.
pub fn route_tool(name: &str) -> (r: Option<ToolKind>)
    ensures
        r == tool_of(name@),
{
    if name.eq("device.send_command") {
        Some(ToolKind::DeviceSendCommand)
    } else if name.eq("logs.query") {
        Some(ToolKind::LogsQuery)
    } else if name.eq("plugins.list") {
        Some(ToolKind::PluginsList)
    } else if name.eq("plugins.show") {
        Some(ToolKind::PluginsShow)
    } else if name.eq("plugins.stop") {
        Some(ToolKind::PluginsStop)
    } else if name.eq("plugins.start") {
        Some(ToolKind::PluginsStart)
    } else if name.eq("plugins.install") {
        Some(ToolKind::PluginsInstall)
    } else if name.eq("plugins.uninstall") {
        Some(ToolKind::PluginsUninstall)
    } else if name.eq("events.history") {
        Some(ToolKind::EventsHistory)
    } else {
        None
    }
}

/// Every tool is found under its own name.
pub proof fn law_tools_are_found_by_name(kind: ToolKind)
    ensures
        tool_of(tool_name(kind)) == Some(kind),
{
    reveal_strlit("device.send_command");
    reveal_strlit("logs.query");
    reveal_strlit("plugins.list");
    reveal_strlit("plugins.show");
    reveal_strlit("plugins.stop");
    reveal_strlit("plugins.start");
    reveal_strlit("plugins.install");
    reveal_strlit("plugins.uninstall");
    reveal_strlit("events.history");
    assert("device.send_command"@.len() == 19);
    assert("logs.query"@.len() == 10);
    assert("plugins.list"@.len() == 12);
    assert("plugins.show"@.len() == 12);
    assert("plugins.stop"@.len() == 12);
    assert("plugins.start"@.len() == 13);
    assert("plugins.install"@.len() == 15);
    assert("plugins.uninstall"@.len() == 17);
    assert("events.history"@.len() == 14);
    assert("plugins.list"@[8] == 'l');
    assert("plugins.show"@[9] == 'h');
    assert("plugins.stop"@[9] == 't');
}

// ---------------------------------------------------------------------
// Parts of schemas
// ---------------------------------------------------------------------

/// The members of an object.
pub open spec fn object_of(members: Seq<(Seq<char>, JsonModel)>) -> JsonModel {
    JsonModel::Object(members)
}

/// A text with a description.
pub open spec fn string_model(description: Seq<char>) -> JsonModel {
    object_of(
        seq![
            ("type"@, JsonModel::Text("string"@)),
            ("description"@, JsonModel::Text(description)),
        ],
    )
}

/// A text with a description that is not empty.
pub open spec fn filled_string_model(description: Seq<char>) -> JsonModel {
    object_of(
        seq![
            ("type"@, JsonModel::Text("string"@)),
            ("minLength"@, JsonModel::Int(1)),
            ("description"@, JsonModel::Text(description)),
        ],
    )
}

/// An integer within bounds, with a description.
pub open spec fn integer_model(min: int, max: int, description: Seq<char>) -> JsonModel {
    object_of(
        seq![
            ("type"@, JsonModel::Text("integer"@)),
            ("minimum"@, JsonModel::Int(min)),
            ("maximum"@, JsonModel::Int(max)),
            ("description"@, JsonModel::Text(description)),
        ],
    )
}

/// An integer within bounds.
pub open spec fn bare_integer_model(min: int, max: int) -> JsonModel {
    object_of(
        seq![
            ("type"@, JsonModel::Text("integer"@)),
            ("minimum"@, JsonModel::Int(min)),
            ("maximum"@, JsonModel::Int(max)),
        ],
    )
}

/// A value of a type, without anything more.
pub open spec fn typed_model(name: Seq<char>) -> JsonModel {
    object_of(seq![("type"@, JsonModel::Text(name))])
}

/// An object that takes these properties and no others, some of them required.
pub open spec fn closed_model(required: Seq<Seq<char>>, properties: JsonModel) -> JsonModel {
    object_of(
        seq![
            ("type"@, JsonModel::Text("object"@)),
            ("additionalProperties"@, JsonModel::Bool(false)),
            ("required"@, text_list(required)),
            ("properties"@, properties),
        ],
    )
}

/// An object that takes these properties and no others, none of them required.
pub open spec fn optional_model(properties: JsonModel) -> JsonModel {
    object_of(
        seq![
            ("type"@, JsonModel::Text("object"@)),
            ("additionalProperties"@, JsonModel::Bool(false)),
            ("properties"@, properties),
        ],
    )
}

/// A value that says its type.
pub open spec fn tagged_model(tag: Seq<char>, value: JsonModel) -> JsonModel {
    closed_model(
        seq!["t"@, "v"@],
        object_of(seq![("t"@, object_of(seq![("const"@, JsonModel::Text(tag))])), ("v"@, value)]),
    )
}

/// A text with a description.
fn string_property(description: &str) -> (r: Json)
    ensures
        r@ == string_model(description@),
{
    object2("type", json_text("string"), "description", json_text(description))
}

/// A text with a description that is not empty.
fn filled_string_property(description: &str) -> (r: Json)
    ensures
        r@ == filled_string_model(description@),
{
    object3(
        "type",
        json_text("string"),
        "minLength",
        Json::Int(1),
        "description",
        json_text(description),
    )
}

/// A JSON object with four members.
fn object4(k1: &str, v1: Json, k2: &str, v2: Json, k3: &str, v3: Json, k4: &str, v4: Json) -> (r:
    Json)
    ensures
        r@ == JsonModel::Object(seq![(k1@, v1@), (k2@, v2@), (k3@, v3@), (k4@, v4@)]),
{
    let ghost m = seq![(k1@, v1@), (k2@, v2@), (k3@, v3@), (k4@, v4@)];
    let mut members: Vec<(String, Json)> = Vec::new();
    members.push((k1.to_owned(), v1));
    members.push((k2.to_owned(), v2));
    members.push((k3.to_owned(), v3));
    members.push((k4.to_owned(), v4));
    assert(json_members(members@) =~= m);
    json_object(members)
}

/// An integer within bounds, with a description.
fn integer_property(min: i64, max: i64, description: &str) -> (r: Json)
    ensures
        r@ == integer_model(min as int, max as int, description@),
{
    object4(
        "type",
        json_text("integer"),
        "minimum",
        Json::Int(min as i128),
        "maximum",
        Json::Int(max as i128),
        "description",
        json_text(description),
    )
}

/// An integer within bounds.
fn bare_integer(min: i64, max: i64) -> (r: Json)
    ensures
        r@ == bare_integer_model(min as int, max as int),
{
    object3(
        "type",
        json_text("integer"),
        "minimum",
        Json::Int(min as i128),
        "maximum",
        Json::Int(max as i128),
    )
}

/// A value of a type, without anything more.
fn typed(name: &str) -> (r: Json)
    ensures
        r@ == typed_model(name@),
{
    object1("type", json_text(name))
}

/// An object that takes these properties and no others, some of them required.
fn closed_object(required: &Vec<String>, properties: Json) -> (r: Json)
    ensures
        r@ == closed_model(texts(required@), properties@),
{
    object4(
        "type",
        json_text("object"),
        "additionalProperties",
        Json::Bool(false),
        "required",
        json_texts(required),
        "properties",
        properties,
    )
}

/// An object that takes these properties and no others, none of them required.
fn optional_object(properties: Json) -> (r: Json)
    ensures
        r@ == optional_model(properties@),
{
    object3(
        "type",
        json_text("object"),
        "additionalProperties",
        Json::Bool(false),
        "properties",
        properties,
    )
}

/// A list of one name.
fn one_name(a: &str) -> (r: Vec<String>)
    ensures
        texts(r@) == seq![a@],
{
    let mut out: Vec<String> = Vec::new();
    out.push(a.to_owned());
    assert(texts(out@) =~= seq![a@]);
    out
}

/// A list of two names.
fn two_names(a: &str, b: &str) -> (r: Vec<String>)
    ensures
        texts(r@) == seq![a@, b@],
{
    let mut out: Vec<String> = Vec::new();
    out.push(a.to_owned());
    out.push(b.to_owned());
    assert(texts(out@) =~= seq![a@, b@]);
    out
}

/// A value that says its type.
fn tagged(tag: &str, value: Json) -> (r: Json)
    ensures
        r@ == tagged_model(tag@, value@),
{
    let constant = object1("const", json_text(tag));
    closed_object(&two_names("t", "v"), object2("t", constant, "v", value))
}

// ---------------------------------------------------------------------
// Properties of their own shape
// ---------------------------------------------------------------------

/// The least level of a log query.
pub open spec fn level_model() -> JsonModel {
    object_of(
        seq![
            ("type"@, JsonModel::Text("string"@)),
            ("enum"@, text_list(seq!["Trace"@, "Debug"@, "Info"@, "Warn"@, "Error"@])),
            ("description"@, JsonModel::Text("Minimum level. `Info` includes Info, Warn, Error."@)),
        ],
    )
}

/// The least level of a log query.
fn level_property() -> (r: Json)
    ensures
        r@ == level_model(),
{
    let mut names: Vec<String> = Vec::new();
    names.push("Trace".to_owned());
    names.push("Debug".to_owned());
    names.push("Info".to_owned());
    names.push("Warn".to_owned());
    names.push("Error".to_owned());
    assert(texts(names@) =~= seq!["Trace"@, "Debug"@, "Info"@, "Warn"@, "Error"@]);
    object3(
        "type",
        json_text("string"),
        "enum",
        json_texts(&names),
        "description",
        json_text("Minimum level. `Info` includes Info, Warn, Error."),
    )
}

/// The configuration overrides of a start.
pub open spec fn overrides_model() -> JsonModel {
    object_of(
        seq![
            ("type"@, JsonModel::Text("object"@)),
            ("description"@, JsonModel::Text("Optional: TOML-shaped JSON blob that layers over the manifest's `[config]` table. Follows the same shape the REST endpoint's `config_overrides` accepts."@)),
        ],
    )
}

/// The configuration overrides of a start.
fn overrides_property() -> (r: Json)
    ensures
        r@ == overrides_model(),
{
    object2("type", json_text("object"), "description", json_text("Optional: TOML-shaped JSON blob that layers over the manifest's `[config]` table. Follows the same shape the REST endpoint's `config_overrides` accepts."))
}

/// The value of an argument of a command: one of six types, each with its own shape.
pub open spec fn command_value_model() -> JsonModel {
    object_of(
        seq![
            (
                "oneOf"@,
                JsonModel::List(
                    seq![
                        tagged_model("Bool"@, typed_model("boolean"@)),
                        tagged_model(
                            "Int"@,
                            bare_integer_model(i64::MIN as int, i64::MAX as int),
                        ),
                        tagged_model("Float"@, typed_model("number"@)),
                        tagged_model("String"@, typed_model("string"@)),
                        tagged_model(
                            "Bytes"@,
                            object_of(
                                seq![
                                    ("type"@, JsonModel::Text("array"@)),
                                    ("items"@, bare_integer_model(0, 255)),
                                ],
                            ),
                        ),
                        tagged_model(
                            "Json"@,
                            string_model("Pre-serialised JSON payload as a string."@),
                        ),
                    ],
                ),
            ),
        ],
    )
}

/// The value of an argument of a command.
fn command_value() -> (r: Json)
    ensures
        r@ == command_value_model(),
{
    let bytes = object2("type", json_text("array"), "items", bare_integer(0, 255));
    let mut kinds: Vec<Json> = Vec::new();
    kinds.push(tagged("Bool", typed("boolean")));
    kinds.push(tagged("Int", bare_integer(i64::MIN, i64::MAX)));
    kinds.push(tagged("Float", typed("number")));
    kinds.push(tagged("String", typed("string")));
    kinds.push(tagged("Bytes", bytes));
    kinds.push(tagged("Json", string_property("Pre-serialised JSON payload as a string.")));
    assert(crate::json_value::json_items(kinds@) =~= seq![
        tagged_model("Bool"@, typed_model("boolean"@)),
        tagged_model("Int"@, bare_integer_model(i64::MIN as int, i64::MAX as int)),
        tagged_model("Float"@, typed_model("number"@)),
        tagged_model("String"@, typed_model("string"@)),
        tagged_model(
            "Bytes"@,
            object_of(
                seq![
                    ("type"@, JsonModel::Text("array"@)),
                    ("items"@, bare_integer_model(0, 255)),
                ],
            ),
        ),
        tagged_model("Json"@, string_model("Pre-serialised JSON payload as a string."@)),
    ]);
    object1("oneOf", json_list(kinds))
}

/// The arguments of a command.
pub open spec fn command_args_model() -> JsonModel {
    object_of(
        seq![
            ("type"@, JsonModel::Text("array"@)),
            ("description"@, JsonModel::Text("Optional key/value arguments. Values use the same `{t, v}` tagged shape as the REST endpoint (`Bool | Int | Float | String | Bytes | Json`)."@)),
            (
                "items"@,
                closed_model(
                    seq!["key"@, "value"@],
                    object_of(
                        seq![("key"@, typed_model("string"@)), ("value"@, command_value_model())],
                    ),
                ),
            ),
        ],
    )
}

/// The arguments of a command.
fn command_args() -> (r: Json)
    ensures
        r@ == command_args_model(),
{
    let properties = object2("key", typed("string"), "value", command_value());
    let items = closed_object(&two_names("key", "value"), properties);
    object3(
        "type",
        json_text("array"),
        "description",
        json_text("Optional key/value arguments. Values use the same `{t, v}` tagged shape as the REST endpoint (`Bool | Int | Float | String | Bytes | Json`)."),
        "items",
        items,
    )
}

// ---------------------------------------------------------------------
// Schemas
// ---------------------------------------------------------------------

/// The properties that `device.send_command` takes.
pub open spec fn device_send_command_properties() -> Seq<(Seq<char>, JsonModel)> {
    seq![
        ("device_id"@, string_model("Device id from `oxidhome://devices`."@)),
        ("capability"@, string_model("Capability key the target plugin advertises (e.g. `switch`, `dimmer`)."@)),
        ("action"@, string_model("Action verb the capability's `execute-command` matches on (e.g. `toggle`, `set`)."@)),
        ("args"@, command_args_model()),
    ]
}

/// The properties that `device.send_command` requires.
pub open spec fn device_send_command_required() -> Seq<Seq<char>> {
    seq!["device_id"@, "capability"@, "action"@]
}

/// What `device.send_command` takes.
pub fn device_send_command_schema() -> (r: Json)
    ensures
        r@ == schema_of(ToolKind::DeviceSendCommand),
{
    let mut properties: Vec<(String, Json)> = Vec::new();
    properties.push(("device_id".to_owned(), string_property("Device id from `oxidhome://devices`.")));
    properties.push(("capability".to_owned(), string_property("Capability key the target plugin advertises (e.g. `switch`, `dimmer`).")));
    properties.push(("action".to_owned(), string_property("Action verb the capability's `execute-command` matches on (e.g. `toggle`, `set`).")));
    properties.push(("args".to_owned(), command_args()));
    assert(json_members(properties@) =~= device_send_command_properties());
    let mut required: Vec<String> = Vec::new();
    required.push("device_id".to_owned());
    required.push("capability".to_owned());
    required.push("action".to_owned());
    assert(texts(required@) =~= device_send_command_required());
    closed_object(&required, json_object(properties))
}

/// The properties that `logs.query` takes.
pub open spec fn logs_query_properties() -> Seq<(Seq<char>, JsonModel)> {
    seq![
        ("since"@, string_model("Relative duration: `Ns|Nm|Nh|Nd`. Resolves to `now - since`. e.g. `10m`, `2h`."@)),
        ("until"@, string_model("Relative duration (same grammar as `since`). Resolves to `now - until`."@)),
        ("level"@, level_model()),
        ("instance"@, string_model("Filter by owning instance id."@)),
        ("plugin"@, string_model("Filter by owning plugin id."@)),
        ("device"@, string_model("Filter by device id (for device-scoped log rows)."@)),
        ("target"@, string_model("Exact-match `tracing` target."@)),
        ("target_prefix"@, string_model("Prefix-match on `tracing` target (e.g. `oxidhome_core::runtime`)."@)),
        ("span_path_prefix"@, string_model("Prefix-match on the row's span path (e.g. `plugin.`)."@)),
        ("limit"@, integer_model(1, 100, "Max rows to return (default 100, cap 100)."@)),
    ]
}

/// The properties that `logs.query` requires.
pub open spec fn logs_query_required() -> Seq<Seq<char>> {
    Seq::empty()
}

/// What `logs.query` takes.
pub fn logs_query_schema() -> (r: Json)
    ensures
        r@ == schema_of(ToolKind::LogsQuery),
{
    let mut properties: Vec<(String, Json)> = Vec::new();
    properties.push(("since".to_owned(), string_property("Relative duration: `Ns|Nm|Nh|Nd`. Resolves to `now - since`. e.g. `10m`, `2h`.")));
    properties.push(("until".to_owned(), string_property("Relative duration (same grammar as `since`). Resolves to `now - until`.")));
    properties.push(("level".to_owned(), level_property()));
    properties.push(("instance".to_owned(), string_property("Filter by owning instance id.")));
    properties.push(("plugin".to_owned(), string_property("Filter by owning plugin id.")));
    properties.push(("device".to_owned(), string_property("Filter by device id (for device-scoped log rows).")));
    properties.push(("target".to_owned(), string_property("Exact-match `tracing` target.")));
    properties.push(("target_prefix".to_owned(), string_property("Prefix-match on `tracing` target (e.g. `oxidhome_core::runtime`).")));
    properties.push(("span_path_prefix".to_owned(), string_property("Prefix-match on the row's span path (e.g. `plugin.`).")));
    properties.push(("limit".to_owned(), integer_property(1, 100, "Max rows to return (default 100, cap 100).")));
    assert(json_members(properties@) =~= logs_query_properties());
    optional_object(json_object(properties))
}

/// The properties that `plugins.list` takes.
pub open spec fn plugins_list_properties() -> Seq<(Seq<char>, JsonModel)> {
    Seq::empty()
}

/// The properties that `plugins.list` requires.
pub open spec fn plugins_list_required() -> Seq<Seq<char>> {
    Seq::empty()
}

/// What `plugins.list` takes.
pub fn plugins_list_schema() -> (r: Json)
    ensures
        r@ == schema_of(ToolKind::PluginsList),
{
    let mut properties: Vec<(String, Json)> = Vec::new();
    assert(json_members(properties@) =~= plugins_list_properties());
    optional_object(json_object(properties))
}

/// The properties that `plugins.show` takes.
pub open spec fn plugins_show_properties() -> Seq<(Seq<char>, JsonModel)> {
    seq![
        ("plugin_id"@, filled_string_model("Plugin id (`net.example.foo`) to look up. Must match an installed plugin or a currently-running instance's owning plugin."@)),
    ]
}

/// The properties that `plugins.show` requires.
pub open spec fn plugins_show_required() -> Seq<Seq<char>> {
    seq!["plugin_id"@]
}

/// What `plugins.show` takes.
pub fn plugins_show_schema() -> (r: Json)
    ensures
        r@ == schema_of(ToolKind::PluginsShow),
{
    let mut properties: Vec<(String, Json)> = Vec::new();
    properties.push(("plugin_id".to_owned(), filled_string_property("Plugin id (`net.example.foo`) to look up. Must match an installed plugin or a currently-running instance's owning plugin.")));
    assert(json_members(properties@) =~= plugins_show_properties());
    closed_object(&one_name("plugin_id"), json_object(properties))
}

/// The properties that `plugins.stop` takes.
pub open spec fn plugins_stop_properties() -> Seq<(Seq<char>, JsonModel)> {
    seq![
        ("plugin_id"@, filled_string_model("Installed `plugin_id` whose instances to stop."@)),
        ("instance_id"@, filled_string_model("Optional: stop only this specific instance. If omitted, every supervised instance of `plugin_id` is stopped."@)),
    ]
}

/// The properties that `plugins.stop` requires.
pub open spec fn plugins_stop_required() -> Seq<Seq<char>> {
    seq!["plugin_id"@]
}

/// What `plugins.stop` takes.
pub fn plugins_stop_schema() -> (r: Json)
    ensures
        r@ == schema_of(ToolKind::PluginsStop),
{
    let mut properties: Vec<(String, Json)> = Vec::new();
    properties.push(("plugin_id".to_owned(), filled_string_property("Installed `plugin_id` whose instances to stop.")));
    properties.push(("instance_id".to_owned(), filled_string_property("Optional: stop only this specific instance. If omitted, every supervised instance of `plugin_id` is stopped.")));
    assert(json_members(properties@) =~= plugins_stop_properties());
    closed_object(&one_name("plugin_id"), json_object(properties))
}

/// The properties that `plugins.start` takes.
pub open spec fn plugins_start_properties() -> Seq<(Seq<char>, JsonModel)> {
    seq![
        ("plugin_id"@, filled_string_model("Installed `plugin_id` to start."@)),
        ("instance_id"@, filled_string_model("Optional: instance id to run under. Defaults to `plugin_id`. Must be a safe filesystem segment (no `/`, `..`, absolute paths, or leading dots)."@)),
        ("config_overrides"@, overrides_model()),
    ]
}

/// The properties that `plugins.start` requires.
pub open spec fn plugins_start_required() -> Seq<Seq<char>> {
    seq!["plugin_id"@]
}

/// What `plugins.start` takes.
pub fn plugins_start_schema() -> (r: Json)
    ensures
        r@ == schema_of(ToolKind::PluginsStart),
{
    let mut properties: Vec<(String, Json)> = Vec::new();
    properties.push(("plugin_id".to_owned(), filled_string_property("Installed `plugin_id` to start.")));
    properties.push(("instance_id".to_owned(), filled_string_property("Optional: instance id to run under. Defaults to `plugin_id`. Must be a safe filesystem segment (no `/`, `..`, absolute paths, or leading dots).")));
    properties.push(("config_overrides".to_owned(), overrides_property()));
    assert(json_members(properties@) =~= plugins_start_properties());
    closed_object(&one_name("plugin_id"), json_object(properties))
}

/// The properties that `plugins.install` takes.
pub open spec fn plugins_install_properties() -> Seq<(Seq<char>, JsonModel)> {
    seq![
        ("source_dir"@, filled_string_model("Absolute path (daemon-local) to the staged plugin directory. Must contain a `manifest.toml` naming the canonical `plugin_id`; the tool recursively copies the whole directory into `<state_dir>/plugins/<plugin_id>/`."@)),
    ]
}

/// The properties that `plugins.install` requires.
pub open spec fn plugins_install_required() -> Seq<Seq<char>> {
    seq!["source_dir"@]
}

/// What `plugins.install` takes.
pub fn plugins_install_schema() -> (r: Json)
    ensures
        r@ == schema_of(ToolKind::PluginsInstall),
{
    let mut properties: Vec<(String, Json)> = Vec::new();
    properties.push(("source_dir".to_owned(), filled_string_property("Absolute path (daemon-local) to the staged plugin directory. Must contain a `manifest.toml` naming the canonical `plugin_id`; the tool recursively copies the whole directory into `<state_dir>/plugins/<plugin_id>/`.")));
    assert(json_members(properties@) =~= plugins_install_properties());
    closed_object(&one_name("source_dir"), json_object(properties))
}

/// The properties that `plugins.uninstall` takes.
pub open spec fn plugins_uninstall_properties() -> Seq<(Seq<char>, JsonModel)> {
    seq![
        ("plugin_id"@, filled_string_model("Installed `plugin_id` to uninstall. Refuses if any supervised instance is still running — call `plugins.stop` first."@)),
    ]
}

/// The properties that `plugins.uninstall` requires.
pub open spec fn plugins_uninstall_required() -> Seq<Seq<char>> {
    seq!["plugin_id"@]
}

/// What `plugins.uninstall` takes.
pub fn plugins_uninstall_schema() -> (r: Json)
    ensures
        r@ == schema_of(ToolKind::PluginsUninstall),
{
    let mut properties: Vec<(String, Json)> = Vec::new();
    properties.push(("plugin_id".to_owned(), filled_string_property("Installed `plugin_id` to uninstall. Refuses if any supervised instance is still running — call `plugins.stop` first.")));
    assert(json_members(properties@) =~= plugins_uninstall_properties());
    closed_object(&one_name("plugin_id"), json_object(properties))
}

/// The properties that `events.history` takes.
pub open spec fn events_history_properties() -> Seq<(Seq<char>, JsonModel)> {
    seq![
        ("since"@, string_model("Relative duration: `Ns|Nm|Nh|Nd`. Resolves to `now - since`. e.g. `10m`, `2h`."@)),
        ("until"@, string_model("Relative duration (same grammar as `since`). Resolves to `now - until`."@)),
        ("device"@, string_model("Filter by device id."@)),
        ("instance"@, string_model("Filter by owning instance id."@)),
        ("plugin"@, string_model("Filter by owning plugin id."@)),
        ("topic"@, string_model("Exact-match topic (e.g. `switch`, `button`, `inference`). Mutually exclusive with `topic_prefix` — supply at most one."@)),
        ("topic_prefix"@, string_model("Prefix-match on topic (e.g. `automation.` matches `automation.morning`, `automation.evening`, …). Mutually exclusive with `topic`."@)),
        ("after_id"@, integer_model(0, 0x7fff_ffff_ffff_ffff, "Cursor: return only rows with `id > after_id`. Pairs with tail-client resume so a reconnect after N ms doesn't gap or duplicate rows."@)),
        ("before_id"@, integer_model(0, 0x7fff_ffff_ffff_ffff, "Cursor: return only rows with `id < before_id`. Descending pagination — pass the lowest id from the previous batch to walk backwards."@)),
        ("limit"@, integer_model(1, 100, "Max rows to return (default 100, cap 100)."@)),
    ]
}

/// The properties that `events.history` requires.
pub open spec fn events_history_required() -> Seq<Seq<char>> {
    Seq::empty()
}

/// What `events.history` takes.
pub fn events_history_schema() -> (r: Json)
    ensures
        r@ == schema_of(ToolKind::EventsHistory),
{
    let mut properties: Vec<(String, Json)> = Vec::new();
    properties.push(("since".to_owned(), string_property("Relative duration: `Ns|Nm|Nh|Nd`. Resolves to `now - since`. e.g. `10m`, `2h`.")));
    properties.push(("until".to_owned(), string_property("Relative duration (same grammar as `since`). Resolves to `now - until`.")));
    properties.push(("device".to_owned(), string_property("Filter by device id.")));
    properties.push(("instance".to_owned(), string_property("Filter by owning instance id.")));
    properties.push(("plugin".to_owned(), string_property("Filter by owning plugin id.")));
    properties.push(("topic".to_owned(), string_property("Exact-match topic (e.g. `switch`, `button`, `inference`). Mutually exclusive with `topic_prefix` — supply at most one.")));
    properties.push(("topic_prefix".to_owned(), string_property("Prefix-match on topic (e.g. `automation.` matches `automation.morning`, `automation.evening`, …). Mutually exclusive with `topic`.")));
    properties.push(("after_id".to_owned(), integer_property(0, 0x7fff_ffff_ffff_ffff, "Cursor: return only rows with `id > after_id`. Pairs with tail-client resume so a reconnect after N ms doesn't gap or duplicate rows.")));
    properties.push(("before_id".to_owned(), integer_property(0, 0x7fff_ffff_ffff_ffff, "Cursor: return only rows with `id < before_id`. Descending pagination — pass the lowest id from the previous batch to walk backwards.")));
    properties.push(("limit".to_owned(), integer_property(1, 100, "Max rows to return (default 100, cap 100).")));
    assert(json_members(properties@) =~= events_history_properties());
    optional_object(json_object(properties))
}

/// The properties that a tool takes.
pub open spec fn properties_of(kind: ToolKind) -> Seq<(Seq<char>, JsonModel)> {
    match kind {
        ToolKind::DeviceSendCommand => device_send_command_properties(),
        ToolKind::LogsQuery => logs_query_properties(),
        ToolKind::PluginsList => plugins_list_properties(),
        ToolKind::PluginsShow => plugins_show_properties(),
        ToolKind::PluginsStop => plugins_stop_properties(),
        ToolKind::PluginsStart => plugins_start_properties(),
        ToolKind::PluginsInstall => plugins_install_properties(),
        ToolKind::PluginsUninstall => plugins_uninstall_properties(),
        ToolKind::EventsHistory => events_history_properties(),
    }
}

/// The properties that a tool requires.
pub open spec fn required_of(kind: ToolKind) -> Seq<Seq<char>> {
    match kind {
        ToolKind::DeviceSendCommand => device_send_command_required(),
        ToolKind::LogsQuery => logs_query_required(),
        ToolKind::PluginsList => plugins_list_required(),
        ToolKind::PluginsShow => plugins_show_required(),
        ToolKind::PluginsStop => plugins_stop_required(),
        ToolKind::PluginsStart => plugins_start_required(),
        ToolKind::PluginsInstall => plugins_install_required(),
        ToolKind::PluginsUninstall => plugins_uninstall_required(),
        ToolKind::EventsHistory => events_history_required(),
    }
}

/// What a tool takes: these properties and no others.
pub open spec fn schema_of(kind: ToolKind) -> JsonModel {
    if required_of(kind).len() == 0 {
        optional_model(object_of(properties_of(kind)))
    } else {
        closed_model(required_of(kind), object_of(properties_of(kind)))
    }
}

/// Whether a tool takes a property with a name.
pub open spec fn takes_property(kind: ToolKind, name: Seq<char>) -> bool {
    exists|i: int|
        0 <= i < properties_of(kind).len() && (#[trigger] properties_of(kind)[i]).0 == name
}

/// What a tool requires is among what it takes.
pub proof fn law_required_properties_are_taken(kind: ToolKind, i: int)
    requires
        0 <= i < required_of(kind).len(),
    ensures
        takes_property(kind, required_of(kind)[i]),
{
    assert(properties_of(kind)[i].0 == required_of(kind)[i]);
}

// ---------------------------------------------------------------------
// The catalogue
// ---------------------------------------------------------------------

/// What `device.send_command` does.
pub const DEVICE_SEND_COMMAND_DESCRIPTION: &'static str = "Dispatch a capability command to a device (e.g. switch/toggle, dimmer/set). The owning plugin's `execute-command` handles the request; the response carries the WIT `command-result` (Ok / OkWithState with a state map / Err with a typed WIT error). SENSITIVE: gated on the `devices:command` scope — physical actuation (locks, garage doors, alarms) rides this same path.";

/// What `logs.query` does.
pub const LOGS_QUERY_DESCRIPTION: &'static str = "Historical log query against the durable `LogStore`. Returns a JSON list of `HistoricalLogEvent` rows matching the filters. Read-only; gated on `logs:read`. Same wire shape as `oxidhome://logs` — a client that reads the resource and one that calls this tool see identical row bodies. Durations (`since`, `until`) use `Ns|Nm|Nh|Nd` suffixes (`60s`, `5m`, `2h`, `1d`) and resolve relative to `now`. `level` filters to entries at or above the named level (`Trace|Debug|Info|Warn|Error`). Response size is bounded server-side; `limit` is clamped to 100 rows.";

/// What `plugins.list` does.
pub const PLUGINS_LIST_DESCRIPTION: &'static str = "List all plugins currently known to the host — both installed (via `plugins install`) and running-only (dev-time argv-driven starts with no `plugin_installation` row). Each entry carries `plugin_id`, `installed`, `version` (when installed), and `instance_count`. Read-only; gated on `plugins:list`. Same wire shape as `oxidhome://plugins` — a client that reads the resource and one that calls this tool see identical row bodies.";

/// What `plugins.show` does.
pub const PLUGINS_SHOW_DESCRIPTION: &'static str = "Show detail for a single plugin: `plugin_id`, `installed`, `version`, `singleton`, `content_digest` (SHA-256 of the installed contents), `installation_uuid` (host-minted per-install identity — a reinstall of the same `plugin_id` produces a different UUID), and the list of currently-running instances with their state. `content_digest` + `installation_uuid` are `None` for a dev-time argv-driven start with no installation row. Read-only; gated on `plugins:list`. Same wire shape as `oxidhome://plugins/{plugin_id}`. Returns `INVALID_PARAMS` if `plugin_id` is missing and an application-level error if the plugin is neither installed nor running.";

/// What `plugins.stop` does.
pub const PLUGINS_STOP_DESCRIPTION: &'static str = "Stop one or all supervised instances of an installed plugin. Idempotent — if the plugin has no running instances, the tool returns success with an empty `stopped` list. If `instance_id` is supplied, only that one instance is stopped; otherwise every instance of `plugin_id` is stopped. Waits for the supervisor's shutdown ack + a brief registry-clear poll so a follow-up call sees a consistent post-stop state. SENSITIVE: gated on `plugins:stop` — a plugin driving physical actuation (locks, alarms) rides this same lifecycle.";

/// What `plugins.start` does.
pub const PLUGINS_START_DESCRIPTION: &'static str = "Start a supervised instance of an installed plugin. Returns once the instance reaches `Running` (or fails to). Optional `instance_id` (defaults to `plugin_id`) lets multiple instances of the same plugin coexist. Optional `config_overrides` is a TOML-shaped JSON blob that layers over the manifest's `[config]` table. SENSITIVE: gated on `plugins:start` — starting a plugin activates its declared capabilities (device drivers, services, HTTP listeners), so the same admin surface admin operators consider before enabling a plugin at the CLI.";

/// What `plugins.install` does.
pub const PLUGINS_INSTALL_DESCRIPTION: &'static str = "Install a plugin from a daemon-local staged directory. Reads `<source_dir>/manifest.toml` for the canonical `plugin_id`, then recursively copies `source_dir` into `<state_dir>/plugins/<plugin_id>/`. Does NOT start the plugin — the operator follows up with `plugins.start`. SENSITIVE + DESTRUCTIVE: gated on `plugins:install` — a token holding this scope can effectively load arbitrary `.wasm` onto the host. `source_dir` MUST already exist on the daemon-local filesystem; the MCP endpoint is loopback-only, so this mirrors REST's trust model for the same operation.";

/// What `plugins.uninstall` does.
pub const PLUGINS_UNINSTALL_DESCRIPTION: &'static str = "Uninstall a plugin: remove `<plugins_root>/<plugin_id>/` recursively, purge every per-instance KV row + blob for the plugin, and tombstone the `plugin_installation` registry row. REFUSES if any supervised instance is still running — call `plugins.stop` first. SENSITIVE + DESTRUCTIVE: gated on `plugins:uninstall`; reinstall of the same `plugin_id` starts with an empty per-instance keyspace and a fresh `installation_uuid`.";

/// What `events.history` does.
pub const EVENTS_HISTORY_DESCRIPTION: &'static str = "Historical event query against the durable `EventLog`. Returns a JSON list of `HistoricalEvent` rows matching the filters (state changes, button presses, inference results, custom plugin events). Read-only; gated on `events:read`. Same wire shape as `oxidhome://events` — a client that reads the resource and one that calls this tool see identical row bodies. Durations (`since`, `until`) use `Ns|Nm|Nh|Nd` suffixes (`60s`, `5m`, `2h`, `1d`) and resolve relative to `now`. `topic` matches exactly; `topic_prefix` prefix-matches (mutually exclusive with `topic` — supply at most one). Response size is bounded server-side; `limit` is clamped to 100 rows.";

/// Hints to a planner.
#[derive(Debug, Clone, Copy, PartialEq, Eq, Structural)]
pub struct ToolAnnotations {
    pub read_only: bool,
    pub destructive: bool,
    pub open_world: bool,
}

/// An entry of the catalogue of tools.
#[derive(Debug)]
pub struct Tool {
    pub name: &'static str,
    pub title: &'static str,
    pub description: &'static str,
    pub schema: Json,
    pub annotations: Option<ToolAnnotations>,
}

/// The title of a tool.
pub open spec fn title_of(kind: ToolKind) -> Seq<char> {
    match kind {
        ToolKind::DeviceSendCommand => "Send device command"@,
        ToolKind::LogsQuery => "Query log history"@,
        ToolKind::PluginsList => "List plugins"@,
        ToolKind::PluginsShow => "Show plugin detail"@,
        ToolKind::PluginsStop => "Stop plugin instance(s)"@,
        ToolKind::PluginsStart => "Start plugin instance"@,
        ToolKind::PluginsInstall => "Install plugin"@,
        ToolKind::PluginsUninstall => "Uninstall plugin"@,
        ToolKind::EventsHistory => "Query event history"@,
    }
}

/// What a tool does.
pub open spec fn description_of(kind: ToolKind) -> Seq<char> {
    match kind {
        ToolKind::DeviceSendCommand => DEVICE_SEND_COMMAND_DESCRIPTION@,
        ToolKind::LogsQuery => LOGS_QUERY_DESCRIPTION@,
        ToolKind::PluginsList => PLUGINS_LIST_DESCRIPTION@,
        ToolKind::PluginsShow => PLUGINS_SHOW_DESCRIPTION@,
        ToolKind::PluginsStop => PLUGINS_STOP_DESCRIPTION@,
        ToolKind::PluginsStart => PLUGINS_START_DESCRIPTION@,
        ToolKind::PluginsInstall => PLUGINS_INSTALL_DESCRIPTION@,
        ToolKind::PluginsUninstall => PLUGINS_UNINSTALL_DESCRIPTION@,
        ToolKind::EventsHistory => EVENTS_HISTORY_DESCRIPTION@,
    }
}

/// Whether a tool only reads.
pub open spec fn only_reads(kind: ToolKind) -> bool {
    match kind {
        ToolKind::LogsQuery => true,
        ToolKind::EventsHistory => true,
        ToolKind::PluginsList => true,
        ToolKind::PluginsShow => true,
        _ => false,
    }
}

/// The hints on a tool. The command tool carries none: what it does is up to the device.
pub open spec fn annotations_of(kind: ToolKind) -> Option<ToolAnnotations> {
    if kind == ToolKind::DeviceSendCommand {
        None
    } else {
        Some(
            ToolAnnotations {
                read_only: only_reads(kind),
                destructive: !only_reads(kind),
                open_world: false,
            },
        )
    }
}

/// Whether an entry of the catalogue is that of a tool.
pub open spec fn is_tool(tool: Tool, kind: ToolKind) -> bool {
    &&& tool.name@ == tool_name(kind)
    &&& tool.title@ == title_of(kind)
    &&& tool.description@ == description_of(kind)
    &&& tool.schema@ == schema_of(kind)
    &&& tool.annotations == annotations_of(kind)
}

/// The tools in the order of the catalogue.
pub open spec fn catalogue() -> Seq<ToolKind> {
    seq![
        ToolKind::DeviceSendCommand,
        ToolKind::LogsQuery,
        ToolKind::PluginsList,
        ToolKind::PluginsShow,
        ToolKind::PluginsStop,
        ToolKind::PluginsStart,
        ToolKind::PluginsInstall,
        ToolKind::PluginsUninstall,
        ToolKind::EventsHistory,
    ]
}

/// The hints on a tool.
fn hints(read_only: bool) -> (r: Option<ToolAnnotations>)
    ensures
        r == Some(
            ToolAnnotations { read_only, destructive: !read_only, open_world: false },
        ),
{
    Some(ToolAnnotations { read_only, destructive: !read_only, open_world: false })
}

/// The catalogue of tools. It does not depend on the caller.
pub fn list_tools() -> (r: Vec<Tool>)
    ensures
        r.len() == catalogue().len(),
        forall|i: int| 0 <= i < r.len() ==> is_tool(#[trigger] r@[i], catalogue()[i]),
{
    let mut out: Vec<Tool> = Vec::new();
    out.push(
        Tool {
            name: "device.send_command",
            title: "Send device command",
            description: DEVICE_SEND_COMMAND_DESCRIPTION,
            schema: device_send_command_schema(),
            annotations: None,
        },
    );
    out.push(
        Tool {
            name: "logs.query",
            title: "Query log history",
            description: LOGS_QUERY_DESCRIPTION,
            schema: logs_query_schema(),
            annotations: hints(true),
        },
    );
    out.push(
        Tool {
            name: "plugins.list",
            title: "List plugins",
            description: PLUGINS_LIST_DESCRIPTION,
            schema: plugins_list_schema(),
            annotations: hints(true),
        },
    );
    out.push(
        Tool {
            name: "plugins.show",
            title: "Show plugin detail",
            description: PLUGINS_SHOW_DESCRIPTION,
            schema: plugins_show_schema(),
            annotations: hints(true),
        },
    );
    out.push(
        Tool {
            name: "plugins.stop",
            title: "Stop plugin instance(s)",
            description: PLUGINS_STOP_DESCRIPTION,
            schema: plugins_stop_schema(),
            annotations: hints(false),
        },
    );
    out.push(
        Tool {
            name: "plugins.start",
            title: "Start plugin instance",
            description: PLUGINS_START_DESCRIPTION,
            schema: plugins_start_schema(),
            annotations: hints(false),
        },
    );
    out.push(
        Tool {
            name: "plugins.install",
            title: "Install plugin",
            description: PLUGINS_INSTALL_DESCRIPTION,
            schema: plugins_install_schema(),
            annotations: hints(false),
        },
    );
    out.push(
        Tool {
            name: "plugins.uninstall",
            title: "Uninstall plugin",
            description: PLUGINS_UNINSTALL_DESCRIPTION,
            schema: plugins_uninstall_schema(),
            annotations: hints(false),
        },
    );
    out.push(
        Tool {
            name: "events.history",
            title: "Query event history",
            description: EVENTS_HISTORY_DESCRIPTION,
            schema: events_history_schema(),
            annotations: hints(true),
        },
    );
    out
}

/// Every tool is in the catalogue.
pub proof fn law_catalogue_is_complete(kind: ToolKind)
    ensures
        catalogue().contains(kind),
{
    assert(catalogue()[0] == ToolKind::DeviceSendCommand);
    assert(catalogue()[1] == ToolKind::LogsQuery);
    assert(catalogue()[2] == ToolKind::PluginsList);
    assert(catalogue()[3] == ToolKind::PluginsShow);
    assert(catalogue()[4] == ToolKind::PluginsStop);
    assert(catalogue()[5] == ToolKind::PluginsStart);
    assert(catalogue()[6] == ToolKind::PluginsInstall);
    assert(catalogue()[7] == ToolKind::PluginsUninstall);
    assert(catalogue()[8] == ToolKind::EventsHistory);
}

} // verus!
