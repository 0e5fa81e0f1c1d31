//! What is listed, started, stopped and removed.

use vstd::prelude::*;

use crate::api::plugins::{
    clear_step_of, installed_ids, is_installed_row, is_plugin_listing, is_plugin_rows,
    is_running_row, is_start_decision, is_uninstall_decision, lifecycle_of_install,
    lifecycle_of_uninstall, lifecycle_reply, occurrences, plugin_runs, schema_reply,
    selected_instances, start_id_of, stopped_of, ClearStep, InstalledPlugin, PluginLifecycleError,
    PluginSchemaError, PluginSummary, RunningInstance, StopAttempt,
};
use crate::api::reply::{BodyModel, FieldModel};
use crate::order::{
    is_stable_sort, law_sorting_keeps_keys_apart, law_sorting_only_moves, text_before, Keyed,
};
use crate::state::{InstallError, UninstallError};
use crate::text::{opt_text, texts};

verus! {

// ---------------------------------------------------------------------
// The listing
// ---------------------------------------------------------------------

/// Whether a text is a given one.
pub open spec fn is_text(text: Seq<char>) -> spec_fn(Seq<char>) -> bool {
    |t: Seq<char>| t == text
}

/// How often a plugin is among the running ones is how many of them it is.
pub proof fn law_running_plugins_are_counted(running: Seq<Seq<char>>, id: Seq<char>)
    ensures
        occurrences(running, id) == running.filter(is_text(id)).len(),
    decreases running.len(),
{
    reveal(Seq::filter);
    if running.len() > 0 {
        law_running_plugins_are_counted(running.drop_last(), id);
    }
}

/// Whether a row of the listing says this of a plugin.
pub open spec fn says(
    row: PluginSummary,
    id: Seq<char>,
    version: Option<Seq<char>>,
    count: nat,
) -> bool {
    &&& row.plugin_id@ == id
    &&& row.installed == (version is Some)
    &&& opt_text(row.version) == version
    &&& row.instance_count == count
}

/// Whether a listing has a row that says this of a plugin.
pub open spec fn is_listed_so(
    out: Seq<PluginSummary>,
    id: Seq<char>,
    version: Option<Seq<char>>,
    count: nat,
) -> bool {
    exists|i: int| 0 <= i < out.len() && #[trigger] says(out[i], id, version, count)
}

/// Every installed plugin is listed with its version and the number of its instances, every plugin
/// that runs without being installed is listed as such, and nothing else is listed. The listing is
/// sorted by the ids.
pub proof fn law_listing_names_every_plugin(
    out: Seq<PluginSummary>,
    installed: Seq<InstalledPlugin>,
    running: Seq<Seq<char>>,
)
    requires
        is_plugin_listing(out, installed, running),
        forall|i: int, j: int|
            0 <= i < j < installed.len() ==> (#[trigger] installed[i]).plugin_id@ != (
            #[trigger] installed[j]).plugin_id@,
    ensures
        forall|i: int|
            0 <= i < installed.len() ==> is_listed_so(
                out,
                (#[trigger] installed[i]).plugin_id@,
                Some(installed[i].version@),
                occurrences(running, installed[i].plugin_id@),
            ),
        forall|id: Seq<char>| #[trigger]
            running.contains(id) && !installed_ids(installed).contains(id) ==> is_listed_so(
                out,
                id,
                None,
                occurrences(running, id),
            ),
        forall|i: int|
            0 <= i < out.len() ==> installed_ids(installed).contains(
                (#[trigger] out[i]).plugin_id@,
            ) || running.contains(out[i].plugin_id@),
        forall|i: int, j: int|
            0 <= i < j < out.len() ==> !text_before(
                (#[trigger] out[j]).plugin_id@,
                (#[trigger] out[i]).plugin_id@,
            ),
{
    let rows = choose|rows: Seq<PluginSummary>| #[trigger]
        is_plugin_rows(rows, installed, running) && is_stable_sort(rows, out);
    let ids = installed_ids(installed);
    assert(ids.len() == installed.len());
    assert forall|i: int| 0 <= i < installed.len() implies is_listed_so(
        out,
        (#[trigger] installed[i]).plugin_id@,
        Some(installed[i].version@),
        occurrences(running, installed[i].plugin_id@),
    ) by {
        let id = installed[i].plugin_id@;
        assert(is_installed_row(rows[i], installed, running, i));
        assert(!ids.take(i).contains(id)) by {
            if ids.take(i).contains(id) {
                let k = choose|k: int| 0 <= k < ids.take(i).len() && ids.take(i)[k] == id;
                assert(ids[k] == installed[k].plugin_id@);
                assert(installed[k].plugin_id@ != installed[i].plugin_id@);
            }
        }
        law_sorting_only_moves(rows, out, rows[i]);
        assert(rows.contains(rows[i]));
        let j = choose|j: int| 0 <= j < out.len() && out[j] == rows[i];
        assert(says(out[j], id, Some(installed[i].version@), occurrences(running, id)));
    }
    assert forall|id: Seq<char>| #[trigger]
        running.contains(id) && !ids.contains(id) implies is_listed_so(
        out,
        id,
        None,
        occurrences(running, id),
    ) by {
        let i = choose|i: int|
            installed.len() <= i < rows.len() && (#[trigger] rows[i]).plugin_id@ == id;
        assert(is_running_row(rows[i], installed, running));
        law_sorting_only_moves(rows, out, rows[i]);
        assert(rows.contains(rows[i]));
        let j = choose|j: int| 0 <= j < out.len() && out[j] == rows[i];
        assert(says(out[j], id, None, occurrences(running, id)));
    }
    assert forall|i: int| 0 <= i < out.len() implies ids.contains((#[trigger] out[i]).plugin_id@)
        || running.contains(out[i].plugin_id@) by {
        law_sorting_only_moves(rows, out, out[i]);
        assert(out.contains(out[i]));
        let k = choose|k: int| 0 <= k < rows.len() && rows[k] == out[i];
        if k < installed.len() {
            assert(is_installed_row(rows[k], installed, running, k));
            assert(ids[k] == installed[k].plugin_id@);
        } else {
            assert(is_running_row(rows[k], installed, running));
        }
    }
    assert forall|i: int, j: int| 0 <= i < j < out.len() implies !text_before(
        (#[trigger] out[j]).plugin_id@,
        (#[trigger] out[i]).plugin_id@,
    ) by {
        law_sorting_only_moves(rows, out, out[i]);
        assert(!text_before(out[j].key_of(), out[i].key_of()));
    }
}

/// No plugin is listed twice.
pub proof fn law_plugins_are_listed_once(
    out: Seq<PluginSummary>,
    installed: Seq<InstalledPlugin>,
    running: Seq<Seq<char>>,
    i: int,
    j: int,
)
    requires
        is_plugin_listing(out, installed, running),
        forall|a: int, b: int|
            0 <= a < b < installed.len() ==> (#[trigger] installed[a]).plugin_id@ != (
            #[trigger] installed[b]).plugin_id@,
        0 <= i < j < out.len(),
    ensures
        out[i].plugin_id@ != out[j].plugin_id@,
{
    let rows = choose|rows: Seq<PluginSummary>| #[trigger]
        is_plugin_rows(rows, installed, running) && is_stable_sort(rows, out);
    assert forall|a: int, b: int| 0 <= a < b < rows.len() implies (#[trigger] rows[a]).key_of() != (
    #[trigger] rows[b]).key_of() by {
        if a < installed.len() {
            assert(is_installed_row(rows[a], installed, running, a));
            if b < installed.len() {
                assert(is_installed_row(rows[b], installed, running, b));
                assert(installed[a].plugin_id@ != installed[b].plugin_id@);
            } else {
                assert(is_running_row(rows[b], installed, running));
                assert(installed_ids(installed)[a] == installed[a].plugin_id@);
                assert(installed_ids(installed).contains(installed[a].plugin_id@));
            }
        }
    }
    law_sorting_keeps_keys_apart(rows, out, i, j);
}

// ---------------------------------------------------------------------
// Starting, stopping and removing
// ---------------------------------------------------------------------

/// Whether an instance of a plugin runs under an id.
pub open spec fn runs_as(
    instances: Seq<RunningInstance>,
    plugin_id: Seq<char>,
    instance_id: Seq<char>,
) -> bool {
    exists|i: int|
        0 <= i < instances.len() && (#[trigger] instances[i]).plugin_id@ == plugin_id
            && instances[i].instance_id@ == instance_id
}

/// What is to be stopped are exactly the running instances of the plugin, or exactly the one that
/// is asked for where it is one of them. No instance of another plugin is stopped.
pub proof fn law_only_the_plugins_instances_are_stopped(
    instances: Seq<RunningInstance>,
    plugin_id: Seq<char>,
    wanted: Option<Seq<char>>,
    id: Seq<char>,
)
    ensures
        selected_instances(instances, plugin_id, wanted).contains(id) <==> runs_as(
            instances,
            plugin_id,
            id,
        ) && (wanted matches Some(want) ==> id == want),
    decreases instances.len(),
{
    if instances.len() > 0 {
        let init = instances.drop_last();
        let last = instances.last();
        let before = selected_instances(init, plugin_id, wanted);
        law_only_the_plugins_instances_are_stopped(init, plugin_id, wanted, id);
        if runs_as(init, plugin_id, id) {
            let i = choose|i: int|
                0 <= i < init.len() && (#[trigger] init[i]).plugin_id@ == plugin_id
                    && init[i].instance_id@ == id;
            assert(instances[i].plugin_id@ == plugin_id);
        }
        if runs_as(instances, plugin_id, id) && !runs_as(init, plugin_id, id) {
            let i = choose|i: int|
                0 <= i < instances.len() && (#[trigger] instances[i]).plugin_id@ == plugin_id
                    && instances[i].instance_id@ == id;
            if i < init.len() {
                assert(init[i].plugin_id@ == plugin_id);
            }
            assert(instances[i] == last);
        }
        let all = selected_instances(instances, plugin_id, wanted);
        if before.contains(id) {
            let k = choose|k: int| 0 <= k < before.len() && before[k] == id;
            assert(all[k] == id);
        }
        if all.contains(id) && !before.contains(id) {
            let k = choose|k: int| 0 <= k < all.len() && all[k] == id;
            if k < before.len() {
                assert(before[k] == id);
            }
            assert(last.instance_id@ == id);
            assert(instances[instances.len() - 1].plugin_id@ == plugin_id);
        }
        if last.plugin_id@ == plugin_id && last.instance_id@ == id && all.len() > before.len() {
            assert(all[before.len() as int] == id);
        }
    }
}

/// An instance is reported as stopped exactly when it took the order to stop.
pub proof fn law_stopped_instances_are_reported(attempts: Seq<StopAttempt>, id: Seq<char>)
    ensures
        stopped_of(attempts).contains(id) <==> exists|i: int|
            0 <= i < attempts.len() && (#[trigger] attempts[i]).stopped && attempts[i].instance_id@
                == id,
    decreases attempts.len(),
{
    if attempts.len() > 0 {
        let init = attempts.drop_last();
        let before = stopped_of(init);
        let all = stopped_of(attempts);
        law_stopped_instances_are_reported(init, id);
        if before.contains(id) {
            let i = choose|i: int|
                0 <= i < init.len() && (#[trigger] init[i]).stopped && init[i].instance_id@ == id;
            assert(attempts[i].stopped);
            let k = choose|k: int| 0 <= k < before.len() && before[k] == id;
            assert(all[k] == id);
        }
        if all.contains(id) && !before.contains(id) {
            let k = choose|k: int| 0 <= k < all.len() && all[k] == id;
            if k < before.len() {
                assert(before[k] == id);
            }
            assert(attempts[attempts.len() - 1].stopped);
        }
        if exists|i: int|
            0 <= i < attempts.len() && (#[trigger] attempts[i]).stopped && attempts[i].instance_id@
                == id {
            let i = choose|i: int|
                0 <= i < attempts.len() && (#[trigger] attempts[i]).stopped
                    && attempts[i].instance_id@ == id;
            if i < init.len() {
                assert(init[i].stopped);
            } else {
                assert(all[before.len() as int] == id);
            }
        }
    }
}

/// A plugin is removed only while none of its instances runs; otherwise each of those is named.
pub proof fn law_plugins_are_removed_when_nothing_runs(
    r: Result<(), PluginLifecycleError>,
    instances: Seq<RunningInstance>,
    plugin_id: Seq<char>,
    id: Seq<char>,
)
    requires
        is_uninstall_decision(r, instances, plugin_id),
    ensures
        r is Ok <==> forall|i: int|
            0 <= i < instances.len() ==> (#[trigger] instances[i]).plugin_id@ != plugin_id,
        r matches Err(err) ==> (err matches PluginLifecycleError::InstancesRunning(ids) && (texts(
            ids@,
        ).contains(id) <==> runs_as(instances, plugin_id, id))),
{
    law_only_the_plugins_instances_are_stopped(instances, plugin_id, None, id);
    if !plugin_runs(instances, plugin_id) {
        assert forall|i: int| 0 <= i < instances.len() implies (#[trigger] instances[i]).plugin_id@
            != plugin_id by {
            if instances[i].plugin_id@ == plugin_id {
                assert(plugin_runs(instances, plugin_id));
            }
        }
    }
}

/// An instance is started under the id that is asked for, or under that of its plugin, and only
/// where that id is safe and the plugin is installed.
pub proof fn law_starts_need_a_safe_id_and_a_plugin(
    r: Result<(), PluginLifecycleError>,
    wanted: Option<Seq<char>>,
    plugin_id: Seq<char>,
    id_is_safe: bool,
    installed: bool,
)
    requires
        is_start_decision(r, start_id_of(wanted, plugin_id), id_is_safe, installed),
    ensures
        r is Ok <==> id_is_safe && installed,
        !id_is_safe ==> (r matches Err(PluginLifecycleError::BadInstanceId(id)) && (wanted matches
            Some(want) ==> id@ == want) && (wanted is None ==> id@ == plugin_id)),
        id_is_safe && !installed ==> r matches Err(PluginLifecycleError::NotFound),
        wanted matches Some(want) ==> start_id_of(wanted, plugin_id) == want,
        wanted is None ==> start_id_of(wanted, plugin_id) == plugin_id,
{
}

/// One waits for an instance to disappear, looking every ten milliseconds, for five seconds.
pub proof fn law_waiting_comes_to_an_end(present: bool, waited_ms: u64)
    ensures
        clear_step_of(present, waited_ms) == ClearStep::Cleared <==> !present,
        clear_step_of(present, waited_ms) == ClearStep::GiveUp <==> present && waited_ms >= 5_000,
        clear_step_of(present, waited_ms) is Wait <==> present && waited_ms < 5_000,
        clear_step_of(present, waited_ms) matches ClearStep::Wait(ms) ==> ms == 10,
{
}

// ---------------------------------------------------------------------
// Refusals
// ---------------------------------------------------------------------

/// What became of an installation is told by the status: a missing source by 404, a plugin that is
/// there already by 409 with its id, a bad manifest by 422 with the reason, a host without a place
/// for plugins by 503, and everything else by 500 without its words.
pub proof fn law_failed_installs_are_answered(err: InstallError)
    ensures
        ({
            let reply = lifecycle_reply(lifecycle_of_install(err));
            &&& reply.denied_scope is None
            &&& match err {
                InstallError::SourceMissing { path } => reply.status == 404 && reply.body
                    == BodyModel::Text(""@),
                InstallError::AlreadyInstalled { plugin_id } => reply.status == 409 && reply.body
                    == BodyModel::Fields(
                    seq![
                        ("error"@, FieldModel::Text("already_installed"@)),
                        ("plugin_id"@, FieldModel::Text(plugin_id@)),
                    ],
                ),
                InstallError::BadManifest { path, reason } => reply.status == 422 && reply.body
                    == BodyModel::Fields(
                    seq![
                        ("error"@, FieldModel::Text("bad_install"@)),
                        ("reason"@, FieldModel::Text(reason@)),
                    ],
                ),
                InstallError::NoPluginsRoot => reply.status == 503 && reply.body
                    == BodyModel::Fields(seq![("error"@, FieldModel::Text("no_plugins_root"@))]),
                InstallError::Io(_) => reply.status == 500 && reply.body == BodyModel::Text(
                    "internal error"@,
                ),
                InstallError::Persistence(_) => reply.status == 500 && reply.body
                    == BodyModel::Text("internal error"@),
            }
        }),
{
}

/// What became of a removal is told by the status in the same way.
pub proof fn law_failed_removals_are_answered(err: UninstallError)
    ensures
        lifecycle_reply(lifecycle_of_uninstall(err)).status == (match err {
            UninstallError::NotInstalled { .. } => 404u16,
            UninstallError::NoPluginsRoot => 503u16,
            UninstallError::Io(_) => 500u16,
            UninstallError::Persistence(_) => 500u16,
        }),
        err is Io || err is Persistence ==> lifecycle_reply(lifecycle_of_uninstall(err)).body
            == BodyModel::Text("internal error"@),
{
}

/// The other refusals: the instances that still run are listed, an unsafe id is told from a start
/// that failed, and a missing scope is answered by 403 without a word.
pub proof fn law_refused_life_cycles_are_answered(err: PluginLifecycleError)
    ensures
        err matches PluginLifecycleError::Scope(denied) ==> lifecycle_reply(err).status == 403
            && lifecycle_reply(err).body == BodyModel::Text(""@) && lifecycle_reply(
            err,
        ).denied_scope == Some(denied.required@),
        err matches PluginLifecycleError::InstancesRunning(ids) ==> lifecycle_reply(err).status
            == 409 && lifecycle_reply(err).body == BodyModel::Fields(
            seq![
                ("error"@, FieldModel::Text("instances_running"@)),
                ("instance_ids"@, FieldModel::List(texts(ids@))),
            ],
        ),
        err is BadInstanceId ==> lifecycle_reply(err).status == 400,
        err matches PluginLifecycleError::Start(reason) ==> lifecycle_reply(err).status == 500
            && lifecycle_reply(err).body == BodyModel::Fields(
            seq![
                ("error"@, FieldModel::Text("start_failed"@)),
                ("reason"@, FieldModel::Text(reason@)),
            ],
        ),
        err is NotFound ==> lifecycle_reply(err).status == 404,
{
}

/// A manifest that is not shown is answered by its cause.
pub proof fn law_refused_manifests_are_answered(err: PluginSchemaError)
    ensures
        schema_reply(err).status == (match err {
            PluginSchemaError::Scope(_) => 403u16,
            PluginSchemaError::NotFound => 404u16,
            PluginSchemaError::Internal => 500u16,
        }),
        err matches PluginSchemaError::Scope(denied) ==> schema_reply(err).denied_scope == Some(
            denied.required@,
        ) && schema_reply(err).body == BodyModel::Text(""@),
        err is Internal ==> schema_reply(err).body == BodyModel::Text("internal error"@),
{
}

} // verus!
