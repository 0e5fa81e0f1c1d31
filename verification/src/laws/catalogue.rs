//! What the catalogues say, and that it is so.

use vstd::prelude::*;

use crate::api::mcp::catalogue::{
    annotations_of, catalogue, is_tool, properties_of, required_of, tool_name, Tool, ToolKind,
};
use crate::api::mcp::filters::{events_keys, logs_keys};
use crate::api::mcp::resources::{
    list_resource_templates_models, list_resources_models, ResourceInfo,
};
use crate::json_value::{member_index, member_of, text_list, JsonModel};
use crate::text::opt_str;

verus! {

/// The catalogue has every tool once.
pub proof fn law_every_tool_is_listed_once(kind: ToolKind)
    ensures
        catalogue().len() == 9,
        catalogue().contains(kind),
        forall|i: int, j: int|
            0 <= i < j < catalogue().len() ==> #[trigger] catalogue()[i]
                != #[trigger] catalogue()[j],
{
    let all = catalogue();
    assert(all[0] == ToolKind::DeviceSendCommand && all[1] == ToolKind::LogsQuery && all[2]
        == ToolKind::PluginsList && all[3] == ToolKind::PluginsShow && all[4]
        == ToolKind::PluginsStop && all[5] == ToolKind::PluginsStart && all[6]
        == ToolKind::PluginsInstall && all[7] == ToolKind::PluginsUninstall && all[8]
        == ToolKind::EventsHistory);
}

/// A tool takes an object with its properties and no others, and says which of them it requires
/// where it requires any.
pub proof fn law_tools_take_their_properties_only(tool: Tool, kind: ToolKind)
    requires
        is_tool(tool, kind),
    ensures
        tool.name@ == tool_name(kind),
        tool.annotations == annotations_of(kind),
        member_of(tool.schema@, "type"@) == Some(JsonModel::Text("object"@)),
        member_of(tool.schema@, "additionalProperties"@) == Some(JsonModel::Bool(false)),
        member_of(tool.schema@, "properties"@) == Some(JsonModel::Object(properties_of(kind))),
        required_of(kind).len() > 0 ==> member_of(tool.schema@, "required"@) == Some(
            text_list(required_of(kind)),
        ),
        required_of(kind).len() == 0 ==> member_of(tool.schema@, "required"@) is None,
{
    reveal_strlit("type");
    reveal_strlit("additionalProperties");
    reveal_strlit("properties");
    reveal_strlit("required");
    assert("type"@[0] == 't' && "additionalProperties"@[0] == 'a' && "properties"@[0] == 'p'
        && "required"@[0] == 'r');
    reveal_with_fuel(member_index, 5);
    if let JsonModel::Object(members) = tool.schema@ {
        assert(members.skip(1).skip(1) =~= members.skip(2));
        assert(members.skip(2).skip(1) =~= members.skip(3));
        assert(members.skip(1)[0] == members[1]);
        assert(members.skip(2)[0] == members[2]);
        if members.len() == 4 {
            assert(members.skip(3)[0] == members[3]);
        }
    }
}

/// The properties that each tool takes, by their names.
pub proof fn law_tools_take_these_properties(kind: ToolKind, i: int)
    requires
        0 <= i < properties_of(kind).len(),
    ensures
        kind == ToolKind::PluginsShow || kind == ToolKind::PluginsUninstall ==> properties_of(
            kind,
        )[i].0 == "plugin_id"@,
        kind == ToolKind::PluginsInstall ==> properties_of(kind)[i].0 == "source_dir"@,
        kind == ToolKind::PluginsStop ==> properties_of(kind)[i].0 == "plugin_id"@
            || properties_of(kind)[i].0 == "instance_id"@,
        kind == ToolKind::PluginsStart ==> properties_of(kind)[i].0 == "plugin_id"@
            || properties_of(kind)[i].0 == "instance_id"@ || properties_of(kind)[i].0
            == "config_overrides"@,
        kind == ToolKind::DeviceSendCommand ==> properties_of(kind)[i].0 == "device_id"@
            || properties_of(kind)[i].0 == "capability"@ || properties_of(kind)[i].0 == "action"@
            || properties_of(kind)[i].0 == "args"@,
        kind != ToolKind::PluginsList,
{
}

/// Whether a list of properties has one with a name.
pub open spec fn has_property(properties: Seq<(Seq<char>, JsonModel)>, name: Seq<char>) -> bool {
    exists|i: int| 0 <= i < properties.len() && (#[trigger] properties[i]).0 == name
}

/// The histories are filtered alike by their tool and by their address: by the same names.
pub proof fn law_tools_and_addresses_take_the_same_filters(name: Seq<char>)
    ensures
        has_property(properties_of(ToolKind::EventsHistory), name) <==> events_keys().contains(
            name,
        ),
        has_property(properties_of(ToolKind::LogsQuery), name) <==> logs_keys().contains(
            name,
        ),
{
    let events = properties_of(ToolKind::EventsHistory);
    let names = events_keys();
    assert(events[0].0 == names[6] && events[1].0 == names[9] && events[2].0 == names[2]
        && events[3].0 == names[3] && events[4].0 == names[5] && events[5].0 == names[7]
        && events[6].0 == names[8] && events[7].0 == names[0] && events[8].0 == names[1]
        && events[9].0 == names[4]);
    let logs = properties_of(ToolKind::LogsQuery);
    let kept = logs_keys();
    assert(logs[0].0 == kept[5] && logs[1].0 == kept[9] && logs[2].0 == kept[2] && logs[3].0
        == kept[1] && logs[4].0 == kept[4] && logs[5].0 == kept[0] && logs[6].0 == kept[7]
        && logs[7].0 == kept[8] && logs[8].0 == kept[6] && logs[9].0 == kept[3]);
    if names.contains(name) {
        let k = choose|k: int| 0 <= k < names.len() && names[k] == name;
        let i: int = if k == 6 { 0 } else if k == 9 { 1 } else if k == 2 { 2 } else if k == 3 {
            3
        } else if k == 5 { 4 } else if k == 7 { 5 } else if k == 8 { 6 } else if k == 0 {
            7
        } else if k == 1 { 8 } else { 9 };
        assert(events[i].0 == name);
    }
    if kept.contains(name) {
        let k = choose|k: int| 0 <= k < kept.len() && kept[k] == name;
        let i: int = if k == 5 { 0 } else if k == 9 { 1 } else if k == 2 { 2 } else if k == 1 {
            3
        } else if k == 4 { 4 } else if k == 0 { 5 } else if k == 7 { 6 } else if k == 8 {
            7
        } else if k == 6 { 8 } else { 9 };
        assert(logs[i].0 == name);
    }
}

/// A resource that is listed is found at the address under which it is listed, under its own name,
/// and is JSON.
pub proof fn law_listed_resources_are_found(i: int)
    requires
        0 <= i < list_resources_models().len(),
    ensures
        list_resources_models()[i].uri == "oxidhome://"@ + list_resources_models()[i].name,
        list_resources_models()[i].mime == Some("application/json"@),
        list_resources_models().len() == 5,
        list_resources_models()[0].name == "devices"@,
        list_resources_models()[1].name == "plugins"@,
        list_resources_models()[2].name == "events"@,
        list_resources_models()[3].name == "logs"@,
        list_resources_models()[4].name == "status"@,
{
    reveal_strlit("oxidhome://");
    reveal_strlit("oxidhome://devices");
    reveal_strlit("oxidhome://plugins");
    reveal_strlit("oxidhome://events");
    reveal_strlit("oxidhome://logs");
    reveal_strlit("oxidhome://status");
    reveal_strlit("devices");
    reveal_strlit("plugins");
    reveal_strlit("events");
    reveal_strlit("logs");
    reveal_strlit("status");
    assert("oxidhome://devices"@ =~= "oxidhome://"@ + "devices"@);
    assert("oxidhome://plugins"@ =~= "oxidhome://"@ + "plugins"@);
    assert("oxidhome://events"@ =~= "oxidhome://"@ + "events"@);
    assert("oxidhome://logs"@ =~= "oxidhome://"@ + "logs"@);
    assert("oxidhome://status"@ =~= "oxidhome://"@ + "status"@);
}

/// The families of resources: of devices and of plugins by their ids, in JSON, and of blobs by
/// instance and name, in whatever type they have.
pub proof fn law_families_say_what_names_them()
    ensures
        list_resource_templates_models().len() == 3,
        list_resource_templates_models()[0].uri == "oxidhome://devices/{device_id}"@,
        list_resource_templates_models()[0].mime == Some("application/json"@),
        list_resource_templates_models()[1].uri == "oxidhome://plugins/{plugin_id}"@,
        list_resource_templates_models()[1].mime == Some("application/json"@),
        list_resource_templates_models()[2].uri == "oxidhome://blobs/{instance_id}/{name}"@,
        list_resource_templates_models()[2].mime is None,
{
}

/// What is said of a listed resource is what stands in its entry.
pub proof fn law_entries_say_what_is_there(info: ResourceInfo)
    ensures
        info@.uri == info.uri@,
        info@.name == info.name@,
        info@.title == info.title@,
        info@.description == info.description@,
        info@.mime == opt_str(info.mime),
{
}

} // verus!
