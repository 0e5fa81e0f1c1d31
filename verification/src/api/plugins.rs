//! Plugins: the listing, and the steps of installing, starting, stopping and uninstalling.

use vstd::prelude::*;
use vstd::std_specs::convert::FromSpecImpl;

use crate::api::reply::{
    denied_reply, error_with, fields_reply, one_field, plain, scope_denied, text_reply, ErrorField,
    FieldModel, Reply, ReplyModel,
};
use crate::api::scopes::{require_scope, scope_satisfied, Scope, ScopeDenied, PLUGINS_LIST};
use crate::auth::Actor;
use crate::order::{is_stable_sort, stable_sort, Keyed};
use crate::state::{InstallError, UninstallError};
use crate::text::{debug_text, opt_str, opt_text, quoted, texts};
use crate::text_map::{
    entries_map, entries_unique, lemma_entries_dom, lemma_entries_value, TextMap,
};

verus! {

// ---------------------------------------------------------------------
// The listing
// ---------------------------------------------------------------------

/// A plugin on disk.
#[derive(Debug)]
pub struct InstalledPlugin {
    pub plugin_id: String,
    pub version: String,
}

/// A row of the plugin listing.
#[derive(Debug)]
pub struct PluginSummary {
    pub plugin_id: String,
    /// Whether the plugin is on disk. One that is not runs straight from a developer's build.
    pub installed: bool,
    /// The version on disk.
    pub version: Option<String>,
    /// How many instances of the plugin run.
    pub instance_count: u32,
}

impl Keyed for PluginSummary {
    open spec fn key_of(&self) -> Seq<char> {
        self.plugin_id@
    }

    fn key(&self) -> (r: &str) {
        self.plugin_id.as_str()
    }
}

/// How often a text occurs in a list.
pub open spec fn occurrences(list: Seq<Seq<char>>, text: Seq<char>) -> nat
    decreases list.len(),
{
    if list.len() == 0 {
        0
    } else {
        occurrences(list.drop_last(), text) + (if list.last() == text {
            1nat
        } else {
            0nat
        })
    }
}

/// A text occurs in a list exactly when it is counted there, and no more often than there are
/// elements.
proof fn lemma_occurrences(list: Seq<Seq<char>>, text: Seq<char>)
    ensures
        occurrences(list, text) > 0 <==> list.contains(text),
        occurrences(list, text) <= list.len(),
    decreases list.len(),
{
    if list.len() > 0 {
        let init = list.drop_last();
        lemma_occurrences(init, text);
        if init.contains(text) {
            let i = choose|i: int| 0 <= i < init.len() && init[i] == text;
            assert(list[i] == text);
        }
        if list.contains(text) && list.last() != text {
            let i = choose|i: int| 0 <= i < list.len() && list[i] == text;
            assert(init[i] == text);
        }
        if list.last() == text {
            assert(list[list.len() - 1] == text);
        }
    }
}

/// The ids of the plugins on disk.
pub open spec fn installed_ids(installed: Seq<InstalledPlugin>) -> Seq<Seq<char>> {
    installed.map_values(|p: InstalledPlugin| p.plugin_id@)
}

/// Whether a row is that of the plugin on disk at a place. Its instances are counted once, with
/// the first plugin that has its id.
pub open spec fn is_installed_row(
    row: PluginSummary,
    installed: Seq<InstalledPlugin>,
    running: Seq<Seq<char>>,
    i: int,
) -> bool {
    let id = installed[i].plugin_id@;
    &&& row.plugin_id@ == id
    &&& row.installed
    &&& opt_text(row.version) == Some(installed[i].version@)
    &&& row.instance_count == (if installed_ids(installed).take(i).contains(id) {
        0
    } else {
        occurrences(running, id)
    })
}

/// Whether a row is that of a plugin that runs without being on disk.
pub open spec fn is_running_row(
    row: PluginSummary,
    installed: Seq<InstalledPlugin>,
    running: Seq<Seq<char>>,
) -> bool {
    &&& !row.installed
    &&& row.version is None
    &&& running.contains(row.plugin_id@)
    &&& !installed_ids(installed).contains(row.plugin_id@)
    &&& row.instance_count == occurrences(running, row.plugin_id@)
}

/// Whether rows are those of the listing, before they are sorted: one for each plugin on disk,
/// and then one for each other plugin that runs.
pub open spec fn is_plugin_rows(
    rows: Seq<PluginSummary>,
    installed: Seq<InstalledPlugin>,
    running: Seq<Seq<char>>,
) -> bool {
    &&& rows.len() >= installed.len()
    &&& forall|i: int|
        0 <= i < installed.len() ==> is_installed_row(#[trigger] rows[i], installed, running, i)
    &&& forall|i: int|
        installed.len() <= i < rows.len() ==> is_running_row(#[trigger] rows[i], installed, running)
    &&& forall|i: int, j: int|
        installed.len() <= i < j < rows.len() ==> (#[trigger] rows[i]).plugin_id@ != (
        #[trigger] rows[j]).plugin_id@
    &&& forall|id: Seq<char>|
        running.contains(id) && !installed_ids(installed).contains(id) ==> exists|i: int|
            installed.len() <= i < rows.len() && (#[trigger] rows[i]).plugin_id@ == id
}

/// Whether `out` is the listing of the plugins on disk and of those that run, sorted by id.
pub open spec fn is_plugin_listing(
    out: Seq<PluginSummary>,
    installed: Seq<InstalledPlugin>,
    running: Seq<Seq<char>>,
) -> bool {
    exists|rows: Seq<PluginSummary>| #[trigger]
        is_plugin_rows(rows, installed, running) && is_stable_sort(rows, out)
}

/// Counts the instances of each plugin.
fn count_instances(running: &Vec<String>) -> (r: TextMap<u32>)
    requires
        running.len() <= u32::MAX,
    ensures
        forall|id: Seq<char>|
            r@.dom().contains(id) <==> #[trigger] texts(running@).contains(id),
        forall|id: Seq<char>|
            r@.dom().contains(id) ==> #[trigger] r@[id] == occurrences(texts(running@), id),
{
    let ghost all = texts(running@);
    let mut counts: TextMap<u32> = TextMap::new();
    let mut i: usize = 0;
    assert(all.take(0) =~= Seq::<Seq<char>>::empty());
    while i < running.len()
        invariant
            0 <= i <= running.len() <= u32::MAX,
            all == texts(running@),
            forall|id: Seq<char>|
                counts@.dom().contains(id) <==> occurrences(#[trigger] all.take(i as int), id) > 0,
            forall|id: Seq<char>|
                counts@.dom().contains(id) ==> #[trigger] counts@[id] == occurrences(
                    all.take(i as int),
                    id,
                ),
        decreases running.len() - i,
    {
        let id = running[i].as_str();
        let ghost before = counts@;
        proof {
            assert(all.take(i + 1).drop_last() =~= all.take(i as int));
            assert(all.take(i + 1).last() == id@);
            lemma_occurrences(all.take(i as int), id@);
        }
        let count: u32 = match counts.get(id) {
            Some(n) => *n,
            None => 0,
        };
        assert(count == occurrences(all.take(i as int), id@));
        counts.insert(id.to_owned(), count + 1);
        proof {
            assert forall|k: Seq<char>| counts@.dom().contains(k) <==> occurrences(
                #[trigger] all.take(i + 1),
                k,
            ) > 0 by {
                assert(before.dom().contains(k) <==> occurrences(all.take(i as int), k) > 0);
            }
            assert forall|k: Seq<char>| counts@.dom().contains(k) implies #[trigger] counts@[k]
                == occurrences(all.take(i + 1), k) by {
                if k != id@ {
                    assert(before.dom().contains(k));
                    assert(before[k] == occurrences(all.take(i as int), k));
                }
            }
        }
        i += 1;
    }
    proof {
        assert(all.take(i as int) =~= all);
        assert forall|id: Seq<char>| counts@.dom().contains(id) <==> #[trigger] texts(
            running@,
        ).contains(id) by {
            lemma_occurrences(all, id);
        }
    }
    counts
}

/// Lists the plugins on disk and those that run, sorted by id. `running` holds the plugin id of
/// each instance.
pub fn list_plugins(installed: Vec<InstalledPlugin>, running: &Vec<String>) -> (r: Vec<
    PluginSummary,
>)
    requires
        running.len() <= u32::MAX,
    ensures
        is_plugin_listing(r@, installed@, texts(running@)),
{
    let ghost all = installed@;
    let ghost ids = installed_ids(all);
    let ghost run = texts(running@);
    let mut counts = count_instances(running);
    let mut rest = installed;
    let mut rows: Vec<PluginSummary> = Vec::new();
    let ghost mut done: int = 0;
    assert(all.skip(0) =~= all);
    assert(ids.take(0) =~= Seq::<Seq<char>>::empty());
    while rest.len() > 0
        invariant
            0 <= done <= all.len(),
            rows.len() == done,
            rest@ == all.skip(done),
            ids == installed_ids(all),
            run == texts(running@),
            forall|id: Seq<char>|
                #![trigger counts@.dom().contains(id)]
                counts@.dom().contains(id) <==> run.contains(id) && !ids.take(done).contains(id),
            forall|id: Seq<char>|
                counts@.dom().contains(id) ==> #[trigger] counts@[id] == occurrences(run, id),
            forall|i: int| 0 <= i < done ==> is_installed_row(#[trigger] rows@[i], all, run, i),
        decreases rest.len(),
    {
        let plugin = rest.remove(0);
        let ghost before = counts@;
        let ghost seen = ids.take(done);
        proof {
            assert(plugin == all[done]);
            assert(rest@ =~= all.skip(done + 1));
            assert(ids[done] == plugin.plugin_id@);
            lemma_occurrences(run, plugin.plugin_id@);
        }
        let count: u32 = match counts.remove(plugin.plugin_id.as_str()) {
            Some(n) => n,
            None => 0,
        };
        let row = PluginSummary {
            plugin_id: plugin.plugin_id,
            installed: true,
            version: Some(plugin.version),
            instance_count: count,
        };
        proof {
            let next = ids.take(done + 1);
            assert(next =~= seen.push(ids[done]));
            assert forall|id: Seq<char>| #[trigger] counts@.dom().contains(id) <==> run.contains(id)
                && !next.contains(id) by {
                assert(before.dom().contains(id) <==> run.contains(id) && !seen.contains(id));
                if seen.contains(id) {
                    let k = choose|k: int| 0 <= k < seen.len() && seen[k] == id;
                    assert(next[k] == id);
                }
                if next.contains(id) && id != ids[done] {
                    let k = choose|k: int| 0 <= k < next.len() && next[k] == id;
                    assert(seen[k] == id);
                }
                assert(next[done] == ids[done]);
            }
            assert(is_installed_row(row, all, run, done));
            done = done + 1;
        }
        rows.push(row);
    }
    proof {
        assert(ids.take(done) =~= ids);
    }
    let left = counts.into_entries();
    let ghost n = done;
    let mut leftover = left;
    let ghost extra = leftover@;
    let ghost mut taken: int = 0;
    assert(extra.skip(0) =~= extra);
    while leftover.len() > 0
        invariant
            0 <= taken <= extra.len(),
            n == all.len(),
            rows.len() == n + taken,
            leftover@ == extra.skip(taken),
            entries_unique(extra),
            ids == installed_ids(all),
            forall|id: Seq<char>|
                #![trigger entries_map(extra).dom().contains(id)]
                entries_map(extra).dom().contains(id) <==> run.contains(id) && !ids.contains(id),
            forall|id: Seq<char>|
                entries_map(extra).dom().contains(id) ==> #[trigger] entries_map(extra)[id]
                    == occurrences(run, id),
            forall|i: int| 0 <= i < n ==> is_installed_row(#[trigger] rows@[i], all, run, i),
            forall|i: int|
                n <= i < n + taken ==> is_running_row(#[trigger] rows@[i], all, run)
                    && rows@[i].plugin_id@ == extra[i - n].0@,
        decreases leftover.len(),
    {
        let entry = leftover.remove(0);
        proof {
            assert(entry == extra[taken]);
            assert(leftover@ =~= extra.skip(taken + 1));
            lemma_entries_value(extra, taken);
            assert(entries_map(extra).dom().contains(entry.0@));
        }
        let row = PluginSummary {
            plugin_id: entry.0,
            installed: false,
            version: None,
            instance_count: entry.1,
        };
        proof {
            assert(is_running_row(row, all, run));
            taken = taken + 1;
        }
        rows.push(row);
    }
    proof {
        assert forall|i: int, j: int| n <= i < j < rows@.len() implies (
        #[trigger] rows@[i]).plugin_id@ != (#[trigger] rows@[j]).plugin_id@ by {
            assert(extra[i - n].0@ != extra[j - n].0@);
        }
        assert forall|id: Seq<char>| run.contains(id) && !ids.contains(id) implies exists|i: int|
            n <= i < rows@.len() && (#[trigger] rows@[i]).plugin_id@ == id by {
            assert(entries_map(extra).dom().contains(id));
            lemma_entries_dom(extra, id);
            let k = choose|k: int| 0 <= k < extra.len() && (#[trigger] extra[k]).0@ == id;
            assert(rows@[n + k].plugin_id@ == id);
        }
        assert(is_plugin_rows(rows@, all, run));
    }
    stable_sort(rows)
}

/// The ids of the instances of a plugin, or of the one of them that is asked for.
pub fn instances_of(
    instances: &Vec<RunningInstance>,
    plugin_id: &str,
    instance_id: Option<&str>,
) -> (r: Vec<String>)
    ensures
        texts(r@) == selected_instances(instances@, plugin_id@, opt_str(instance_id)),
{
    let ghost all = instances@;
    let mut out: Vec<String> = Vec::new();
    let mut i: usize = 0;
    assert(all.take(0) =~= Seq::<RunningInstance>::empty());
    assert(texts(out@) =~= Seq::<Seq<char>>::empty());
    while i < instances.len()
        invariant
            0 <= i <= instances.len(),
            all == instances@,
            texts(out@) == selected_instances(
                all.take(i as int),
                plugin_id@,
                opt_str(instance_id),
            ),
        decreases instances.len() - i,
    {
        let instance = &instances[i];
        let wanted = match instance_id {
            Some(want) => instance.instance_id.as_str().eq(want),
            None => true,
        };
        let ghost before = texts(out@);
        proof {
            assert(all.take(i + 1).drop_last() =~= all.take(i as int));
            assert(all.take(i + 1).last() == instance);
        }
        if instance.plugin_id.as_str().eq(plugin_id) && wanted {
            out.push(instance.instance_id.clone());
            assert(texts(out@) =~= before.push(instance.instance_id@));
        }
        i += 1;
    }
    assert(all.take(i as int) =~= all);
    out
}

/// An instance that runs.
#[derive(Debug)]
pub struct RunningInstance {
    pub instance_id: String,
    pub plugin_id: String,
}

/// Whether an instance belongs to a plugin and is the one that is asked for, if one is.
pub open spec fn instance_selected(
    instance: RunningInstance,
    plugin_id: Seq<char>,
    wanted: Option<Seq<char>>,
) -> bool {
    instance.plugin_id@ == plugin_id && (wanted matches Some(want) ==> instance.instance_id@
        == want)
}

/// The ids of the instances of a plugin, or of the one of them that is asked for.
pub open spec fn selected_instances(
    instances: Seq<RunningInstance>,
    plugin_id: Seq<char>,
    wanted: Option<Seq<char>>,
) -> Seq<Seq<char>>
    decreases instances.len(),
{
    if instances.len() == 0 {
        Seq::empty()
    } else {
        let before = selected_instances(instances.drop_last(), plugin_id, wanted);
        if instance_selected(instances.last(), plugin_id, wanted) {
            before.push(instances.last().instance_id@)
        } else {
            before
        }
    }
}

/// Whether an instance of a plugin runs.
pub open spec fn plugin_runs(instances: Seq<RunningInstance>, plugin_id: Seq<char>) -> bool {
    exists|i: int| 0 <= i < instances.len() && (#[trigger] instances[i]).plugin_id@ == plugin_id
}

/// No instance is listed for a plugin exactly when none of its instances runs.
pub proof fn law_listed_instances_run(instances: Seq<RunningInstance>, plugin_id: Seq<char>)
    ensures
        selected_instances(instances, plugin_id, None).len() == 0 <==> !plugin_runs(
            instances,
            plugin_id,
        ),
    decreases instances.len(),
{
    if instances.len() > 0 {
        let init = instances.drop_last();
        law_listed_instances_run(init, plugin_id);
        if plugin_runs(init, plugin_id) {
            let i = choose|i: int|
                0 <= i < init.len() && (#[trigger] init[i]).plugin_id@ == plugin_id;
            assert(instances[i].plugin_id@ == plugin_id);
        }
        if plugin_runs(instances, plugin_id) && instances.last().plugin_id@ != plugin_id {
            let i = choose|i: int|
                0 <= i < instances.len() && (#[trigger] instances[i]).plugin_id@ == plugin_id;
            assert(init[i].plugin_id@ == plugin_id);
        }
        if instances.last().plugin_id@ == plugin_id {
            assert(instances[instances.len() - 1].plugin_id@ == plugin_id);
        }
    }
}

// ---------------------------------------------------------------------
// Errors of the life cycle
// ---------------------------------------------------------------------

/// Why a plugin was not installed, started, stopped or uninstalled.
#[derive(Debug)]
pub enum PluginLifecycleError {
    Scope(ScopeDenied),
    /// The plugin is not installed, or the source to install from is missing.
    NotFound,
    AlreadyInstalled(String),
    /// Instances of the plugin still run.
    InstancesRunning(Vec<String>),
    /// The manifest of the source is not acceptable.
    BadInstall(String),
    /// The instance id cannot be part of a path.
    BadInstanceId(String),
    Internal(String),
    /// The instance did not come up.
    Start(String),
    /// The host keeps no plugins on disk.
    NoPluginsRoot,
}

/// How a failed installation is reported.
pub open spec fn lifecycle_of_install(err: InstallError) -> PluginLifecycleError {
    match err {
        InstallError::NoPluginsRoot => PluginLifecycleError::NoPluginsRoot,
        InstallError::SourceMissing { path } => PluginLifecycleError::NotFound,
        InstallError::AlreadyInstalled { plugin_id } => PluginLifecycleError::AlreadyInstalled(
            plugin_id,
        ),
        InstallError::BadManifest { path, reason } => PluginLifecycleError::BadInstall(reason),
        InstallError::Io(e) => PluginLifecycleError::Internal(e),
        InstallError::Persistence(e) => PluginLifecycleError::Internal(e),
    }
}

impl From<InstallError> for PluginLifecycleError {
    fn from(err: InstallError) -> (r: Self) {
        match err {
            InstallError::NoPluginsRoot => PluginLifecycleError::NoPluginsRoot,
            InstallError::SourceMissing { path: _ } => PluginLifecycleError::NotFound,
            InstallError::AlreadyInstalled { plugin_id } => PluginLifecycleError::AlreadyInstalled(
                plugin_id,
            ),
            InstallError::BadManifest { path: _, reason } => PluginLifecycleError::BadInstall(
                reason,
            ),
            InstallError::Io(e) => PluginLifecycleError::Internal(e),
            InstallError::Persistence(e) => PluginLifecycleError::Internal(e),
        }
    }
}

impl FromSpecImpl<InstallError> for PluginLifecycleError {
    open spec fn obeys_from_spec() -> bool {
        true
    }

    open spec fn from_spec(err: InstallError) -> Self {
        lifecycle_of_install(err)
    }
}

/// How a failed removal is reported.
pub open spec fn lifecycle_of_uninstall(err: UninstallError) -> PluginLifecycleError {
    match err {
        UninstallError::NoPluginsRoot => PluginLifecycleError::NoPluginsRoot,
        UninstallError::NotInstalled { plugin_id } => PluginLifecycleError::NotFound,
        UninstallError::Io(e) => PluginLifecycleError::Internal(e),
        UninstallError::Persistence(e) => PluginLifecycleError::Internal(e),
    }
}

impl From<UninstallError> for PluginLifecycleError {
    fn from(err: UninstallError) -> (r: Self) {
        match err {
            UninstallError::NoPluginsRoot => PluginLifecycleError::NoPluginsRoot,
            UninstallError::NotInstalled { plugin_id: _ } => PluginLifecycleError::NotFound,
            UninstallError::Io(e) => PluginLifecycleError::Internal(e),
            UninstallError::Persistence(e) => PluginLifecycleError::Internal(e),
        }
    }
}

impl FromSpecImpl<UninstallError> for PluginLifecycleError {
    open spec fn obeys_from_spec() -> bool {
        true
    }

    open spec fn from_spec(err: UninstallError) -> Self {
        lifecycle_of_uninstall(err)
    }
}

/// What is said of an instance id that cannot be part of a path.
pub open spec fn unsafe_id_text(id: Seq<char>) -> Seq<char> {
    "instance_id "@ + debug_text(id) + " is unsafe for use as a filesystem segment"@
}

/// Says that an instance id cannot be part of a path.
pub fn unsafe_id_message(id: &str) -> (r: String)
    ensures
        r@ == unsafe_id_text(id@),
{
    let mut out = "instance_id ".to_owned();
    out.append(quoted(id).as_str());
    out.append(" is unsafe for use as a filesystem segment");
    out
}

/// The answer to a request that failed.
pub open spec fn lifecycle_reply(err: PluginLifecycleError) -> ReplyModel {
    match err {
        PluginLifecycleError::Scope(denied) => denied_reply(denied.required@),
        PluginLifecycleError::NotFound => text_reply(404, ""@),
        PluginLifecycleError::AlreadyInstalled(id) => fields_reply(
            409,
            seq![
                ("error"@, FieldModel::Text("already_installed"@)),
                ("plugin_id"@, FieldModel::Text(id@)),
            ],
        ),
        PluginLifecycleError::InstancesRunning(ids) => fields_reply(
            409,
            seq![
                ("error"@, FieldModel::Text("instances_running"@)),
                ("instance_ids"@, FieldModel::List(texts(ids@))),
            ],
        ),
        PluginLifecycleError::BadInstall(reason) => fields_reply(
            422,
            seq![
                ("error"@, FieldModel::Text("bad_install"@)),
                ("reason"@, FieldModel::Text(reason@)),
            ],
        ),
        PluginLifecycleError::BadInstanceId(id) => fields_reply(
            400,
            seq![
                ("error"@, FieldModel::Text("bad_instance_id"@)),
                ("reason"@, FieldModel::Text(unsafe_id_text(id@))),
            ],
        ),
        PluginLifecycleError::Internal(_) => text_reply(500, "internal error"@),
        PluginLifecycleError::Start(reason) => fields_reply(
            500,
            seq![
                ("error"@, FieldModel::Text("start_failed"@)),
                ("reason"@, FieldModel::Text(reason@)),
            ],
        ),
        PluginLifecycleError::NoPluginsRoot => fields_reply(
            503,
            seq![("error"@, FieldModel::Text("no_plugins_root"@))],
        ),
    }
}

impl PluginLifecycleError {
    /// The answer to a request that failed.
    pub fn into_response(self) -> (r: Reply)
        ensures
            r@ == lifecycle_reply(self),
    {
        match self {
            PluginLifecycleError::Scope(denied) => scope_denied(denied),
            PluginLifecycleError::NotFound => plain(404, ""),
            PluginLifecycleError::AlreadyInstalled(id) => error_with(
                409,
                "already_installed",
                "plugin_id",
                ErrorField::Text(id),
            ),
            PluginLifecycleError::InstancesRunning(ids) => error_with(
                409,
                "instances_running",
                "instance_ids",
                ErrorField::List(ids),
            ),
            PluginLifecycleError::BadInstall(reason) => error_with(
                422,
                "bad_install",
                "reason",
                ErrorField::Text(reason),
            ),
            PluginLifecycleError::BadInstanceId(id) => {
                let reason = unsafe_id_message(id.as_str());
                error_with(400, "bad_instance_id", "reason", ErrorField::Text(reason))
            },
            PluginLifecycleError::Internal(_) => plain(500, "internal error"),
            PluginLifecycleError::Start(reason) => error_with(
                500,
                "start_failed",
                "reason",
                ErrorField::Text(reason),
            ),
            PluginLifecycleError::NoPluginsRoot => one_field(503, "error", "no_plugins_root"),
        }
    }
}

// ---------------------------------------------------------------------
// Steps of the life cycle
// ---------------------------------------------------------------------

/// The id under which an instance is started: the one that is asked for, or that of the plugin.
pub open spec fn start_id_of(instance_id: Option<Seq<char>>, plugin_id: Seq<char>) -> Seq<char> {
    match instance_id {
        Some(id) => id,
        None => plugin_id,
    }
}

/// The id of the instance to start: the one that is asked for, or the plugin's own.
pub fn start_instance_id(instance_id: Option<String>, plugin_id: &str) -> (r: String)
    ensures
        r@ == start_id_of(opt_text(instance_id), plugin_id@),
{
    match instance_id {
        Some(id) => id,
        None => plugin_id.to_owned(),
    }
}

/// Whether a decision on a start is the one for an id and a plugin.
pub open spec fn is_start_decision(
    r: Result<(), PluginLifecycleError>,
    instance_id: Seq<char>,
    id_is_safe: bool,
    installed: bool,
) -> bool {
    match r {
        Ok(()) => id_is_safe && installed,
        Err(PluginLifecycleError::BadInstanceId(id)) => !id_is_safe && id@ == instance_id,
        Err(PluginLifecycleError::NotFound) => id_is_safe && !installed,
        Err(_) => false,
    }
}

/// Whether an instance may be started. `id_is_safe` says whether its id can be part of a path;
/// an id that cannot is refused before anything else is looked at.
pub fn check_start(instance_id: &str, id_is_safe: bool, installed: bool) -> (r: Result<
    (),
    PluginLifecycleError,
>)
    ensures
        is_start_decision(r, instance_id@, id_is_safe, installed),
{
    if !id_is_safe {
        return Err(PluginLifecycleError::BadInstanceId(instance_id.to_owned()));
    }
    if !installed {
        return Err(PluginLifecycleError::NotFound);
    }
    Ok(())
}

/// Whether a decision on a removal is the one for a plugin, given the running instances.
pub open spec fn is_uninstall_decision(
    r: Result<(), PluginLifecycleError>,
    instances: Seq<RunningInstance>,
    plugin_id: Seq<char>,
) -> bool {
    match r {
        Ok(()) => !plugin_runs(instances, plugin_id),
        Err(PluginLifecycleError::InstancesRunning(ids)) => plugin_runs(instances, plugin_id)
            && texts(ids@) == selected_instances(instances, plugin_id, None),
        Err(_) => false,
    }
}

/// Whether a plugin may be uninstalled: none of its instances runs.
pub fn check_uninstall(instances: &Vec<RunningInstance>, plugin_id: &str) -> (r: Result<
    (),
    PluginLifecycleError,
>)
    ensures
        is_uninstall_decision(r, instances@, plugin_id@),
{
    let running = instances_of(instances, plugin_id, None);
    proof {
        law_listed_instances_run(instances@, plugin_id@);
        assert(texts(running@).len() == running@.len());
    }
    if running.len() > 0 {
        Err(PluginLifecycleError::InstancesRunning(running))
    } else {
        Ok(())
    }
}

// ---------------------------------------------------------------------
// Stopping
// ---------------------------------------------------------------------

/// An instance that was told to stop.
#[derive(Debug)]
pub struct StopAttempt {
    pub instance_id: String,
    /// Whether the instance took the order.
    pub stopped: bool,
}

/// The instances that took the order, in the order of the attempts.
pub open spec fn stopped_of(attempts: Seq<StopAttempt>) -> Seq<Seq<char>>
    decreases attempts.len(),
{
    if attempts.len() == 0 {
        Seq::empty()
    } else {
        let before = stopped_of(attempts.drop_last());
        if attempts.last().stopped {
            before.push(attempts.last().instance_id@)
        } else {
            before
        }
    }
}

/// The instances that took the order. One that did not is passed over and does not keep the
/// others from being stopped; that none ran is no failure.
pub fn stopped_ids(attempts: &Vec<StopAttempt>) -> (r: Vec<String>)
    ensures
        texts(r@) == stopped_of(attempts@),
{
    let ghost all = attempts@;
    let mut out: Vec<String> = Vec::new();
    let mut i: usize = 0;
    assert(all.take(0) =~= Seq::<StopAttempt>::empty());
    assert(texts(out@) =~= Seq::<Seq<char>>::empty());
    while i < attempts.len()
        invariant
            0 <= i <= attempts.len(),
            all == attempts@,
            texts(out@) == stopped_of(all.take(i as int)),
        decreases attempts.len() - i,
    {
        proof {
            assert(all.take(i + 1).drop_last() =~= all.take(i as int));
            assert(all.take(i + 1).last() == all[i as int]);
        }
        if attempts[i].stopped {
            let ghost before = texts(out@);
            out.push(attempts[i].instance_id.clone());
            assert(texts(out@) =~= before.push(all[i as int].instance_id@));
        }
        i += 1;
    }
    assert(all.take(i as int) =~= all);
    out
}

/// How long to wait for a stopped instance to leave the registry, in milliseconds.
pub const REGISTRY_CLEAR_DEADLINE_MS: u64 = 5_000;

/// How long to wait between two looks at the registry, in milliseconds.
pub const REGISTRY_CLEAR_POLL_MS: u64 = 10;

/// What follows a look at the registry for a stopped instance.
#[derive(Debug, Clone, Copy, PartialEq, Eq, Structural)]
pub enum ClearStep {
    /// The instance has left.
    Cleared,
    /// The instance is still there, and it has been waited for long enough.
    GiveUp,
    /// Look again after this many milliseconds.
    Wait(u64),
}

/// What follows when it was looked whether an instance is still registered.
pub open spec fn clear_step_of(present: bool, waited_ms: u64) -> ClearStep {
    if !present {
        ClearStep::Cleared
    } else if waited_ms >= REGISTRY_CLEAR_DEADLINE_MS {
        ClearStep::GiveUp
    } else {
        ClearStep::Wait(REGISTRY_CLEAR_POLL_MS)
    }
}

/// What follows a look at the registry for a stopped instance. The instance leaves a moment after
/// it ended; a caller that uninstalls at once would otherwise still find it there.
pub fn registry_clear_step(present: bool, waited_ms: u64) -> (r: ClearStep)
    ensures
        r == clear_step_of(present, waited_ms),
{
    if !present {
        ClearStep::Cleared
    } else if waited_ms >= REGISTRY_CLEAR_DEADLINE_MS {
        ClearStep::GiveUp
    } else {
        ClearStep::Wait(REGISTRY_CLEAR_POLL_MS)
    }
}

// ---------------------------------------------------------------------
// The manifest
// ---------------------------------------------------------------------

/// Why the configuration schema of a plugin is not answered.
#[derive(Debug)]
pub enum PluginSchemaError {
    Scope(ScopeDenied),
    NotFound,
    /// The manifest of an installed plugin cannot be read: a fault of the host.
    Internal,
}

/// The answer to a request that failed.
pub open spec fn schema_reply(err: PluginSchemaError) -> ReplyModel {
    match err {
        PluginSchemaError::Scope(denied) => denied_reply(denied.required@),
        PluginSchemaError::NotFound => text_reply(404, ""@),
        PluginSchemaError::Internal => text_reply(500, "internal error"@),
    }
}

impl PluginSchemaError {
    /// The answer to a request that failed.
    pub fn into_response(self) -> (r: Reply)
        ensures
            r@ == schema_reply(self),
    {
        match self {
            PluginSchemaError::Scope(denied) => scope_denied(denied),
            PluginSchemaError::NotFound => plain(404, ""),
            PluginSchemaError::Internal => plain(500, "internal error"),
        }
    }
}

/// Whether a check is the one of a caller who reads the manifest of a plugin.
pub open spec fn is_schema_check(
    r: Result<(), PluginSchemaError>,
    held: Seq<Seq<char>>,
    installed: bool,
) -> bool {
    if !scope_satisfied(PLUGINS_LIST@, held) {
        r matches Err(PluginSchemaError::Scope(denied)) && denied.required@ == PLUGINS_LIST@
    } else if !installed {
        r matches Err(PluginSchemaError::NotFound)
    } else {
        r is Ok
    }
}

/// Whether the manifest of a plugin may be read for a caller. A plugin that runs without being
/// installed has none.
pub fn check_schema(actor: &Actor, installed: bool) -> (r: Result<(), PluginSchemaError>)
    ensures
        is_schema_check(r, actor@.scopes, installed),
{
    if let Err(denied) = require_scope(actor, Scope::new(PLUGINS_LIST)) {
        return Err(PluginSchemaError::Scope(denied));
    }
    if installed {
        Ok(())
    } else {
        Err(PluginSchemaError::NotFound)
    }
}

} // verus!
