//! What holds of the library as a whole.

use crate::actor::{
    begun_script, bindings_script, read_claims, removals_script, run_script, run_start, stop_script,
    volumes_script, ActorHandleView,
};
use crate::capability::{
    lemma_usable_count, usable_count, CapabilityView, Plugin, RunSettings, RunSettingsView,
    VolumeBindingView, FS_CAPABILITY, FS_CONFIG_ROOTDIR, HTTP_CAPABILITY, HTTP_CONFIG_PORT,
    LOG_CAPABILITY,
};
use crate::paths::joined;
use crate::pod::{
    container_obstacle, pod_obstacle, read_image, Container, Pod, PodKeyView, UnrunnableView,
};
use crate::provider::{startup_script, ProviderState, LOG_DIR_NAME, VOLUME_DIR};
use crate::script::{HostAction, HostActionView, HostErrorView, ScriptView};
use crate::text::{debug_text, decimal, texts};
use std::path::PathBuf;
use vstd::prelude::*;

verus! {

/// The volumes whose capability is added to the host, in order.
pub open spec fn added_volumes(actions: Seq<HostActionView>) -> Seq<Seq<char>>
    decreases actions.len(),
{
    if actions.len() == 0 {
        Seq::empty()
    } else {
        match actions.last() {
            HostActionView::AddCapability { plugin: Plugin::FileSystem, binding: Some(volume) } =>
                added_volumes(actions.drop_last()).push(volume),
            _ => added_volumes(actions.drop_last()),
        }
    }
}

/// The volumes whose capability is removed from the host, in order.
pub open spec fn removed_volumes(actions: Seq<HostActionView>) -> Seq<Seq<char>>
    decreases actions.len(),
{
    if actions.len() == 0 {
        Seq::empty()
    } else {
        match actions.last() {
            HostActionView::RemoveCapability { plugin: Plugin::FileSystem, volume } =>
                removed_volumes(actions.drop_last()).push(volume),
            _ => removed_volumes(actions.drop_last()),
        }
    }
}

/// The names of a list of volumes.
pub open spec fn volume_names(volumes: Seq<VolumeBindingView>) -> Seq<Seq<char>> {
    volumes.map_values(|v: VolumeBindingView| v.name)
}

proof fn lemma_volumes_script_adds(volumes: Seq<VolumeBindingView>)
    ensures
        added_volumes(volumes_script(volumes)) == volume_names(volumes),
    decreases volumes.len(),
{
    if volumes.len() > 0 {
        let front = volumes.drop_last();
        lemma_volumes_script_adds(front);
        let before = volumes_script(front);
        let actions = volumes_script(volumes);
        assert(actions.drop_last().drop_last() =~= before);
        assert(added_volumes(actions.drop_last()) == added_volumes(before));
        assert(volume_names(volumes) =~= volume_names(front).push(volumes.last().name));
    } else {
        assert(volume_names(volumes) =~= Seq::empty());
    }
}

proof fn lemma_bindings_add_nothing(
    front: Seq<HostActionView>,
    key: Seq<char>,
    capabilities: Seq<CapabilityView>,
)
    ensures
        added_volumes(front + bindings_script(key, capabilities)) == added_volumes(front),
    decreases capabilities.len(),
{
    let actions = front + bindings_script(key, capabilities);
    if capabilities.len() > 0 {
        lemma_bindings_add_nothing(front, key, capabilities.drop_last());
        assert(actions.drop_last() =~= front + bindings_script(key, capabilities.drop_last()));
    } else {
        assert(actions =~= front);
    }
}

proof fn lemma_stop_removes(key: Seq<char>, volumes: Seq<VolumeBindingView>)
    ensures
        removed_volumes(
            seq![HostActionView::RemoveActor { key }] + removals_script(volumes),
        ) == volume_names(volumes),
    decreases volumes.len(),
{
    let first = seq![HostActionView::RemoveActor { key }];
    let actions = first + removals_script(volumes);
    if volumes.len() > 0 {
        let front = volumes.drop_last();
        lemma_stop_removes(key, front);
        assert(actions.drop_last() =~= first + removals_script(front));
        assert(volume_names(volumes) =~= volume_names(front).push(volumes.last().name));
    } else {
        assert(actions =~= first);
        assert(first.drop_last() =~= Seq::empty());
        assert(removed_volumes(first) == removed_volumes(first.drop_last()));
        assert(volume_names(volumes) =~= Seq::empty());
    }
}

/// Stopping an actor undoes what running it did to the host: the one actor that
/// was added is removed, and the capabilities of the same volumes, in the same
/// order, and nothing else.
pub proof fn law_stop_undoes_run(
    key: Seq<char>,
    claimed: Seq<Seq<char>>,
    settings: RunSettingsView,
)
    requires
        settings.paths_usable(claimed),
    ensures
        ({
            let run = run_start(key, claimed, settings);
            let stop = stop_script(run.handle->0);
            &&& run.handle is Some
            &&& run.script.actions.contains(HostActionView::AddActor { key })
            &&& forall|i: int, j: int|
                0 <= i < j < run.script.actions.len() && (
                #[trigger] run.script.actions[i]) is AddActor ==> !((
                #[trigger] run.script.actions[j]) is AddActor)
            &&& stop.len() == 1 + removed_volumes(stop).len()
            &&& stop.first() == HostActionView::RemoveActor { key }
            &&& removed_volumes(stop) == added_volumes(run.script.actions)
        }),
{
    lemma_run_script_at(key, claimed, settings);
    let run = run_start(key, claimed, settings);
    let fs = claimed.contains(FS_CAPABILITY@);
    let installed = if fs {
        volumes_script(settings.volumes)
    } else {
        Seq::empty()
    };
    let add = HostActionView::AddActor { key };
    let front = installed + seq![add];
    assert(run.script.actions[installed.len() as int] == add);
    lemma_bindings_add_nothing(front, key, settings.capabilities(claimed));
    assert(front.drop_last() =~= installed);
    assert(added_volumes(front) == added_volumes(installed));
    if fs {
        lemma_volumes_script_adds(settings.volumes);
        lemma_stop_removes(key, settings.volumes);
    } else {
        let stop = stop_script(run.handle->0);
        assert(stop =~= seq![HostActionView::RemoveActor { key }]);
        assert(stop.drop_last() =~= Seq::empty());
        assert(removed_volumes(stop) == removed_volumes(stop.drop_last()));
    }
}

/// A handle that was stopped before stops the actor only: every volume is
/// removed at most once.
pub proof fn law_volumes_removed_once(handle: ActorHandleView)
    ensures
        stop_script(ActorHandleView { volumes: Seq::empty(), ..handle }) == seq![
            HostActionView::RemoveActor { key: handle.key },
        ],
{
    assert(stop_script(ActorHandleView { volumes: Seq::empty(), ..handle }) =~= seq![
        HostActionView::RemoveActor { key: handle.key },
    ]);
}

/// The action at one position of [`volumes_script`].
spec fn volume_action(volumes: Seq<VolumeBindingView>, i: int) -> HostActionView {
    let binding = Some(volumes[i / 2].name);
    if i % 2 == 0 {
        HostActionView::Instantiate { plugin: Plugin::FileSystem, binding }
    } else {
        HostActionView::AddCapability { plugin: Plugin::FileSystem, binding }
    }
}

proof fn lemma_volumes_script_at(volumes: Seq<VolumeBindingView>)
    ensures
        volumes_script(volumes).len() == 2 * volumes.len(),
        forall|i: int|
            0 <= i < 2 * volumes.len() ==> #[trigger] volumes_script(volumes)[i] == volume_action(
                volumes,
                i,
            ),
    decreases volumes.len(),
{
    if volumes.len() > 0 {
        let front = volumes.drop_last();
        lemma_volumes_script_at(front);
        assert forall|i: int| 0 <= i < 2 * volumes.len() implies #[trigger] volumes_script(
            volumes,
        )[i] == volume_action(volumes, i) by {
            if i < 2 * front.len() {
                assert(volumes_script(volumes)[i] == volumes_script(front)[i]);
                assert(front[i / 2] == volumes[i / 2]);
            }
        }
    }
}

/// The position at which a run adds the actor.
spec fn actor_position(claimed: Seq<Seq<char>>, settings: RunSettingsView) -> int {
    if claimed.contains(FS_CAPABILITY@) {
        2 * settings.volumes.len() as int
    } else {
        0
    }
}

/// The action at one position of [`run_script`].
spec fn run_action(
    key: Seq<char>,
    claimed: Seq<Seq<char>>,
    settings: RunSettingsView,
    i: int,
) -> HostActionView {
    let n = actor_position(claimed, settings);
    if i < n {
        volume_action(settings.volumes, i)
    } else if i == n {
        HostActionView::AddActor { key }
    } else {
        HostActionView::SetBinding { key, capability: settings.capabilities(claimed)[i - n - 1] }
    }
}

proof fn lemma_run_script_at(key: Seq<char>, claimed: Seq<Seq<char>>, settings: RunSettingsView)
    ensures
        run_script(key, claimed, settings).len() == actor_position(claimed, settings) + 1
            + settings.capabilities(claimed).len(),
        forall|i: int|
            0 <= i < run_script(key, claimed, settings).len() ==> #[trigger] run_script(
                key,
                claimed,
                settings,
            )[i] == run_action(key, claimed, settings, i),
{
    lemma_volumes_script_at(settings.volumes);
    let actions = run_script(key, claimed, settings);
    let n = actor_position(claimed, settings);
    let bound = bindings_script(key, settings.capabilities(claimed));
    assert forall|i: int| 0 <= i < actions.len() implies #[trigger] actions[i] == run_action(
        key,
        claimed,
        settings,
        i,
    ) by {
        if i < n {
            assert(actions[i] == volumes_script(settings.volumes)[i]);
        } else if i > n {
            assert(actions[i] == bound[i - n - 1]);
        }
    }
}

/// The position of the first Filesystem capability among those that are
/// configured.
spec fn volume_position(claimed: Seq<Seq<char>>) -> int {
    (if claimed.contains(LOG_CAPABILITY@) {
        1int
    } else {
        0
    }) + (if claimed.contains(HTTP_CAPABILITY@) {
        1int
    } else {
        0
    })
}

/// Which capability stands at which position.
proof fn lemma_capabilities_at(claimed: Seq<Seq<char>>, settings: RunSettingsView)
    ensures
        ({
            let bound = settings.capabilities(claimed);
            let log = claimed.contains(LOG_CAPABILITY@);
            let http = claimed.contains(HTTP_CAPABILITY@);
            let n = volume_position(claimed);
            &&& bound.len() == n + if claimed.contains(FS_CAPABILITY@) {
                settings.volumes.len()
            } else {
                0
            }
            &&& log ==> bound[0] == settings.log_capability()
            &&& http ==> bound[n - 1] == settings.http_capability()
            &&& forall|j: int|
                n <= j < bound.len() ==> #[trigger] bound[j] == settings.volume_capability(
                    settings.volumes[j - n],
                )
        }),
{
}

/// Whether `actions` registers the capability `capability` before position `end`.
pub open spec fn registered_before(
    actions: Seq<HostActionView>,
    end: int,
    capability: CapabilityView,
) -> bool {
    exists|j: int, plugin: Plugin|
        0 <= j < end && plugin.capability_text() == capability.name && #[trigger] actions[j]
            == (#[trigger] add_capability(plugin, capability.binding))
}

/// The action that adds a capability to the host.
pub open spec fn add_capability(plugin: Plugin, binding: Option<Seq<char>>) -> HostActionView {
    HostActionView::AddCapability { plugin, binding }
}

/// A capability is made available in two parts. Whatever a run configures was
/// registered before, under the same name and binding, by the start of the
/// provider or earlier in the run; and the actor it is configured for was added
/// before.
pub proof fn law_registered_before_configured(
    data_dir: PathBuf,
    key: Seq<char>,
    claimed: Seq<Seq<char>>,
    settings: RunSettingsView,
    i: int,
)
    requires
        0 <= i < run_script(key, claimed, settings).len(),
        run_script(key, claimed, settings)[i] is SetBinding,
    ensures
        ({
            let actions = run_script(key, claimed, settings);
            let capability = actions[i]->capability;
            &&& actions[i] == (HostActionView::SetBinding { key, capability })
            &&& registered_before(
                startup_script(data_dir),
                startup_script(data_dir).len() as int,
                capability,
            ) || registered_before(actions, i, capability)
            &&& actions.take(i).contains(HostActionView::AddActor { key })
        }),
{
    lemma_run_script_at(key, claimed, settings);
    lemma_capabilities_at(claimed, settings);
    let actions = run_script(key, claimed, settings);
    let at = actor_position(claimed, settings);
    assert(actions[i] == run_action(key, claimed, settings, i));
    assert(actions.take(i)[at] == HostActionView::AddActor { key });
    let capability = actions[i]->capability;
    let j = i - at - 1;
    let n = volume_position(claimed);
    if j >= n {
        let k = j - n;
        assert(actions[2 * k + 1] == volume_action(settings.volumes, 2 * k + 1));
        assert(actions[2 * k + 1] == add_capability(Plugin::FileSystem, capability.binding));
    } else if capability == settings.log_capability() {
        assert(startup_script(data_dir)[5] == add_capability(Plugin::Logging, None));
    } else {
        assert(capability == settings.http_capability());
        assert(startup_script(data_dir)[3] == add_capability(Plugin::Http, None));
    }
}

/// Whether `actions` configures `capability` for the actor `key`.
pub open spec fn configures(
    actions: Seq<HostActionView>,
    key: Seq<char>,
    capability: CapabilityView,
) -> bool {
    actions.contains(HostActionView::SetBinding { key, capability })
}

/// The capabilities that an actor claims are configured for it: logging with
/// its log file, HTTP with its port, and the Filesystem once for each volume.
pub proof fn law_claimed_are_configured(
    key: Seq<char>,
    claimed: Seq<Seq<char>>,
    settings: RunSettingsView,
)
    ensures
        ({
            let actions = run_script(key, claimed, settings);
            &&& claimed.contains(LOG_CAPABILITY@) ==> configures(
                actions,
                key,
                settings.log_capability(),
            )
            &&& claimed.contains(HTTP_CAPABILITY@) ==> configures(
                actions,
                key,
                settings.http_capability(),
            )
            &&& claimed.contains(FS_CAPABILITY@) ==> forall|k: int|
                0 <= k < settings.volumes.len() ==> configures(
                    actions,
                    key,
                    settings.volume_capability(#[trigger] settings.volumes[k]),
                )
        }),
{
    lemma_run_script_at(key, claimed, settings);
    lemma_capabilities_at(claimed, settings);
    let actions = run_script(key, claimed, settings);
    let bound = settings.capabilities(claimed);
    let at = actor_position(claimed, settings);
    assert forall|j: int| 0 <= j < bound.len() implies configures(
        actions,
        key,
        #[trigger] bound[j],
    ) by {
        assert(actions[at + 1 + j] == (HostActionView::SetBinding { key, capability: bound[j] }));
    }
    let n = volume_position(claimed);
    if claimed.contains(LOG_CAPABILITY@) {
        assert(configures(actions, key, bound[0]));
    }
    if claimed.contains(HTTP_CAPABILITY@) {
        assert(configures(actions, key, bound[n - 1]));
    }
    if claimed.contains(FS_CAPABILITY@) {
        assert forall|k: int| 0 <= k < settings.volumes.len() implies configures(
            actions,
            key,
            settings.volume_capability(#[trigger] settings.volumes[k]),
        ) by {
            assert(configures(actions, key, bound[n + k]));
        }
    }
}

/// An actor is given no capability that it does not claim.
pub proof fn law_only_claimed_are_configured(
    key: Seq<char>,
    claimed: Seq<Seq<char>>,
    settings: RunSettingsView,
    capability: CapabilityView,
)
    requires
        configures(run_script(key, claimed, settings), key, capability),
    ensures
        claimed.contains(capability.name),
{
    lemma_run_script_at(key, claimed, settings);
    lemma_capabilities_at(claimed, settings);
    let actions = run_script(key, claimed, settings);
    let i = choose|i: int|
        0 <= i < actions.len() && actions[i] == (HostActionView::SetBinding { key, capability });
    assert(actions[i] == run_action(key, claimed, settings, i));
    let j = i - actor_position(claimed, settings) - 1;
    assert(capability == settings.capabilities(claimed)[j]);
    let n = volume_position(claimed);
    if j < n {
        assert(capability == settings.log_capability() || capability == settings.http_capability());
    }
}

/// An actor that does not claim the Filesystem capability leaves the volumes
/// alone, when it is run and when it is stopped.
pub proof fn law_unclaimed_volumes_untouched(
    key: Seq<char>,
    claimed: Seq<Seq<char>>,
    settings: RunSettingsView,
)
    requires
        !claimed.contains(FS_CAPABILITY@),
        settings.paths_usable(claimed),
    ensures
        ({
            let run = run_start(key, claimed, settings);
            &&& run.handle is Some
            &&& run.script.actions.first() == HostActionView::AddActor { key }
            &&& forall|i: int|
                1 <= i < run.script.actions.len() ==> run.script.actions[i] is SetBinding
            &&& stop_script(run.handle->0) == seq![HostActionView::RemoveActor { key }]
        }),
{
    let run = run_start(key, claimed, settings);
    assert(stop_script(run.handle->0) =~= seq![HostActionView::RemoveActor { key }]);
}

/// A run that comes to a path which is not valid Unicode does the beginning of
/// what it would do otherwise, without adding the actor, and ends without a
/// handle.
pub proof fn law_unusable_path_cuts_short(
    key: Seq<char>,
    claimed: Seq<Seq<char>>,
    settings: RunSettingsView,
)
    requires
        !settings.paths_usable(claimed),
    ensures
        ({
            let run = run_start(key, claimed, settings);
            &&& run.handle is None
            &&& run.script.actions.is_prefix_of(run_script(key, claimed, settings))
            &&& !run.script.actions.contains(HostActionView::AddActor { key })
        }),
{
    let begun = begun_script(claimed, settings);
    let actions = run_script(key, claimed, settings);
    lemma_run_script_at(key, claimed, settings);
    lemma_begun_at(claimed, settings);
    assert forall|i: int| 0 <= i < begun.len() implies #[trigger] begun[i] == actions[i] && !(
    begun[i] is AddActor) by {
        assert(begun[i] == volume_action(settings.volumes, i));
        assert(actions[i] == run_action(key, claimed, settings, i));
    }
    assert(begun =~= actions.subrange(0, begun.len() as int));
}

/// The variable that a configured capability sets itself.
pub open spec fn own_variable(
    settings: RunSettingsView,
    capability: CapabilityView,
) -> Seq<char> {
    if capability.name == LOG_CAPABILITY@ {
        settings.log_path_key
    } else if capability.name == HTTP_CAPABILITY@ {
        HTTP_CONFIG_PORT@
    } else {
        FS_CONFIG_ROOTDIR@
    }
}

/// Every capability that is configured keeps the environment of the pod, apart
/// from the one variable that it sets itself.
pub proof fn law_environment_kept(
    claimed: Seq<Seq<char>>,
    settings: RunSettingsView,
    capability: CapabilityView,
    name: Seq<char>,
)
    requires
        settings.capabilities(claimed).contains(capability),
        name != own_variable(settings, capability),
    ensures
        capability.env.contains_key(name) == settings.env.contains_key(name),
        settings.env.contains_key(name) ==> capability.env[name] == settings.env[name],
{
    lemma_capability_names_differ();
}

/// The number that a text of decimal digits stands for.
pub open spec fn decimal_value(digits: Seq<char>) -> int
    decreases digits.len(),
{
    if digits.len() == 0 {
        0
    } else {
        decimal_value(digits.drop_last()) * 10 + (digits.last() as int - '0' as int)
    }
}

/// The port that an actor is told of reads back as the port that it was
/// assigned.
pub proof fn law_port_read_back(port: nat)
    ensures
        decimal_value(decimal(port)) == port,
    decreases port,
{
    let digits = decimal(port);
    if port < 10 {
        assert(digits.drop_last() =~= Seq::empty());
        assert(decimal_value(digits.drop_last()) == 0);
    } else {
        law_port_read_back(port / 10);
        assert(digits.drop_last() =~= decimal(port / 10));
    }
}

/// The state of a script after the outcomes of its next actions, as far as it
/// takes them: `None` for success, or the cause of a failure.
pub open spec fn drive(script: ScriptView, causes: Seq<Option<Seq<char>>>) -> ScriptView
    decreases causes.len(),
{
    if causes.len() == 0 || !script.running() {
        script
    } else {
        drive(script.after(causes.first()), causes.drop_first())
    }
}

proof fn lemma_drive_succeeds(script: ScriptView, causes: Seq<Option<Seq<char>>>)
    requires
        script.failure is None,
        script.done + causes.len() == script.actions.len(),
        forall|i: int| 0 <= i < causes.len() ==> causes[i] is None,
    ensures
        drive(script, causes) == (ScriptView { done: script.actions.len(), ..script }),
    decreases causes.len(),
{
    if causes.len() > 0 {
        lemma_drive_succeeds(script.after(causes.first()), causes.drop_first());
    }
}

/// A script comes to its end without an error once each of its actions has
/// succeeded.
pub proof fn law_success(actions: Seq<HostActionView>, causes: Seq<Option<Seq<char>>>)
    requires
        causes.len() == actions.len(),
        forall|i: int| 0 <= i < causes.len() ==> causes[i] is None,
    ensures
        ({
            let end = drive(ScriptView::start(actions), causes);
            &&& end == (ScriptView { actions, done: actions.len(), failure: None })
            &&& !end.running()
        }),
{
    lemma_drive_succeeds(ScriptView::start(actions), causes);
}

proof fn lemma_drive_fails(script: ScriptView, causes: Seq<Option<Seq<char>>>, at: int)
    requires
        script.failure is None,
        0 <= at < causes.len(),
        script.done + at < script.actions.len(),
        forall|i: int| 0 <= i < at ==> causes[i] is None,
        causes[at] is Some,
    ensures
        drive(script, causes) == (ScriptView {
            done: (script.done + at) as nat,
            failure: causes[at],
            ..script
        }),
    decreases causes.len(),
{
    let next = script.after(causes.first());
    if at > 0 {
        lemma_drive_fails(next, causes.drop_first(), at - 1);
    } else {
        assert(drive(next, causes.drop_first()) == next);
    }
}

/// The first failure ends a script: nothing that comes after changes it, what
/// was done is what came before, and the error names the action that failed.
pub proof fn law_first_failure_ends(
    actions: Seq<HostActionView>,
    causes: Seq<Option<Seq<char>>>,
    at: int,
)
    requires
        0 <= at < causes.len(),
        at < actions.len(),
        forall|i: int| 0 <= i < at ==> causes[i] is None,
        causes[at] is Some,
    ensures
        ({
            let end = drive(ScriptView::start(actions), causes);
            &&& end.done == at
            &&& !end.running()
            &&& end.error().action == actions[at]
            &&& Some(end.error().cause) == causes[at]
        }),
{
    lemma_drive_fails(ScriptView::start(actions), causes, at);
}

/// The directories that a provider uses are created when it starts, before any
/// capability is registered.
pub proof fn law_directories_created<H>(state: ProviderState<H>)
    ensures
        ({
            let actions = startup_script(state.data_dir);
            let logs = joined(state.data_dir, LOG_DIR_NAME@);
            let volumes = joined(state.data_dir, VOLUME_DIR@);
            &&& actions.take(2).contains(HostActionView::CreateDir { path: logs })
            &&& actions.take(2).contains(HostActionView::CreateDir { path: volumes })
            &&& forall|i: int|
                2 <= i < actions.len() ==> (#[trigger] actions[i]) is Instantiate
                    || actions[i] is AddCapability
        }),
{
    let first = startup_script(state.data_dir).take(2);
    assert(first[0] == HostActionView::CreateDir { path: joined(state.data_dir, LOG_DIR_NAME@) });
    assert(first[1] == HostActionView::CreateDir { path: joined(state.data_dir, VOLUME_DIR@) });
}

/// A provider that is started again on the same data directory asks for the same
/// directories, uses the same directories, and comes of the start once each
/// action has succeeded. On disk a start does nothing but create those two.
pub proof fn law_restart_uses_same_directories<H>(
    first: ProviderState<H>,
    again: ProviderState<H>,
    causes: Seq<Option<Seq<char>>>,
)
    requires
        first.data_dir == again.data_dir,
        causes.len() == startup_script(again.data_dir).len(),
        forall|i: int| 0 <= i < causes.len() ==> causes[i] is None,
    ensures
        ({
            let actions = startup_script(again.data_dir);
            let logs = joined(first.data_dir, LOG_DIR_NAME@);
            let volumes = joined(first.data_dir, VOLUME_DIR@);
            let end = drive(ScriptView::start(actions), causes);
            &&& actions == startup_script(first.data_dir)
            &&& joined(again.data_dir, LOG_DIR_NAME@) == logs
            &&& joined(again.data_dir, VOLUME_DIR@) == volumes
            &&& !end.running() && end.failure is None
            &&& forall|i: int|
                0 <= i < actions.len() ==> {
                    ||| (#[trigger] actions[i]) == HostActionView::CreateDir { path: logs }
                    ||| actions[i] == HostActionView::CreateDir { path: volumes }
                    ||| actions[i] is Instantiate
                    ||| actions[i] is AddCapability
                }
        }),
{
    law_success(startup_script(again.data_dir), causes);
}

/// The driver adds the capability that was made last. So whatever a script
/// adds to the host was instantiated by the action right before.
pub open spec fn adds_what_was_made(actions: Seq<HostActionView>) -> bool {
    forall|i: int|
        0 <= i < actions.len() && (#[trigger] actions[i]) is AddCapability ==> {
            &&& i > 0
            &&& actions[i - 1] == HostActionView::Instantiate {
                plugin: actions[i]->AddCapability_plugin,
                binding: actions[i]->AddCapability_binding,
            }
        }
}

proof fn lemma_registration_paired(
    actions: Seq<HostActionView>,
    volumes: Seq<VolumeBindingView>,
    n: int,
)
    requires
        n <= actions.len(),
        forall|i: int| 0 <= i < n ==> #[trigger] actions[i] == volume_action(volumes, i),
        forall|i: int| n <= i < actions.len() ==> !((#[trigger] actions[i]) is AddCapability),
    ensures
        adds_what_was_made(actions),
{
    assert forall|i: int|
        0 <= i < actions.len() && (#[trigger] actions[i]) is AddCapability implies i > 0
        && actions[i - 1] == (HostActionView::Instantiate {
        plugin: actions[i]->AddCapability_plugin,
        binding: actions[i]->AddCapability_binding,
    }) by {
        assert(i < n);
        assert(actions[i] == volume_action(volumes, i));
        assert(i % 2 == 1 && (i - 1) / 2 == i / 2);
        assert(actions[i - 1] == volume_action(volumes, i - 1));
    }
}

/// Neither the start of the provider nor a run, be it cut short or not, adds a
/// capability to the host that was not instantiated right before.
pub proof fn law_instantiated_before_added(
    data_dir: PathBuf,
    key: Seq<char>,
    claimed: Seq<Seq<char>>,
    settings: RunSettingsView,
)
    ensures
        adds_what_was_made(startup_script(data_dir)),
        adds_what_was_made(run_start(key, claimed, settings).script.actions),
{
    let actions = run_start(key, claimed, settings).script.actions;
    if settings.paths_usable(claimed) {
        lemma_run_script_at(key, claimed, settings);
        let n = actor_position(claimed, settings);
        assert forall|i: int| 0 <= i < n implies #[trigger] actions[i] == volume_action(
            settings.volumes,
            i,
        ) by {
            assert(actions[i] == run_action(key, claimed, settings, i));
        }
        assert forall|i: int| n <= i < actions.len() implies !((
        #[trigger] actions[i]) is AddCapability) by {
            assert(actions[i] == run_action(key, claimed, settings, i));
        }
        lemma_registration_paired(actions, settings.volumes, n);
    } else {
        lemma_begun_at(claimed, settings);
        lemma_registration_paired(actions, settings.volumes, actions.len() as int);
    }
}

/// The handle that was kept for a pod is the one that is found for it, and
/// the handles of pods with another namespace or another name stay as they were.
pub proof fn law_handle_found<H>(
    handles: Map<PodKeyView, H>,
    pod: Pod,
    handle: H,
    other: Pod,
)
    ensures
        ({
            let after = handles.insert(pod.key_view(), handle);
            &&& pod.key_view() == (PodKeyView { namespace: pod.namespace@, name: pod.name@ })
            &&& after.contains_key(pod.key_view())
            &&& after[pod.key_view()] == handle
            &&& (other.namespace@ != pod.namespace@ || other.name@ != pod.name@) ==> {
                &&& after.contains_key(other.key_view()) == handles.contains_key(other.key_view())
                &&& after[other.key_view()] == handles[other.key_view()]
            }
        }),
{
}

proof fn lemma_capability_names_differ()
    ensures
        FS_CAPABILITY@ != LOG_CAPABILITY@,
        FS_CAPABILITY@ != HTTP_CAPABILITY@,
        HTTP_CAPABILITY@ != LOG_CAPABILITY@,
{
    reveal_strlit("wascc:blobstore");
    reveal_strlit("wascc:http_server");
    reveal_strlit("wascc:logging");
    assert(FS_CAPABILITY@.len() != LOG_CAPABILITY@.len());
    assert(FS_CAPABILITY@.len() != HTTP_CAPABILITY@.len());
    assert(HTTP_CAPABILITY@.len() != LOG_CAPABILITY@.len());
}

/// A run that is cut short only registers volumes.
proof fn lemma_begun_at(claimed: Seq<Seq<char>>, settings: RunSettingsView)
    ensures
        begun_script(claimed, settings).len() <= 2 * settings.volumes.len(),
        forall|i: int|
            0 <= i < begun_script(claimed, settings).len() ==> #[trigger] begun_script(
                claimed,
                settings,
            )[i] == volume_action(settings.volumes, i),
{
    let begun = begun_script(claimed, settings);
    lemma_usable_count(settings.volumes);
    let front = settings.volumes.take(usable_count(settings.volumes) as int);
    lemma_volumes_script_at(front);
    assert forall|i: int| 0 <= i < begun.len() implies #[trigger] begun[i] == volume_action(
        settings.volumes,
        i,
    ) by {
        assert(begun[i] == volume_action(front, i));
        assert(front[i / 2] == settings.volumes[i / 2]);
    }
}

/// Whatever a run configures is one of the capabilities of its settings, for the
/// actor that is run.
proof fn lemma_configured(
    key: Seq<char>,
    claimed: Seq<Seq<char>>,
    settings: RunSettingsView,
    actor: Seq<char>,
    capability: CapabilityView,
) -> (j: int)
    requires
        run_start(key, claimed, settings).script.actions.contains(
            HostActionView::SetBinding { key: actor, capability },
        ),
    ensures
        settings.paths_usable(claimed),
        actor == key,
        0 <= j < settings.capabilities(claimed).len(),
        capability == settings.capabilities(claimed)[j],
{
    lemma_run_script_at(key, claimed, settings);
    lemma_begun_at(claimed, settings);
    let actions = run_start(key, claimed, settings).script.actions;
    let bind = HostActionView::SetBinding { key: actor, capability };
    let i = choose|i: int| 0 <= i < actions.len() && actions[i] == bind;
    assert(actions[i] == bind);
    if settings.paths_usable(claimed) {
        assert(actions[i] == run_action(key, claimed, settings, i));
    } else {
        assert(actions[i] == volume_action(settings.volumes, i));
    }
    i - actor_position(claimed, settings) - 1
}

/// Where the path of the log file and those of all volumes are valid Unicode, a
/// run goes through, whatever the actor claims: the actor is added, and the run
/// has a handle that knows the actor, all its volumes and all its claims.
pub proof fn law_readable_paths_run_through(
    key: Seq<char>,
    claimed: Seq<Seq<char>>,
    settings: RunSettingsView,
)
    requires
        settings.log_path is Some,
        forall|k: int|
            0 <= k < settings.volumes.len() ==> (#[trigger] settings.volumes[k]).host_path is Some,
    ensures
        ({
            let run = run_start(key, claimed, settings);
            &&& run.script.actions.contains(HostActionView::AddActor { key })
            &&& run.script.done == 0
            &&& run.script.failure is None
            &&& run.handle is Some
            &&& run.handle->0.key == key
            &&& run.handle->0.volumes == settings.volumes
            &&& run.handle->0.capabilities == claimed
        }),
{
    law_unread_paths_do_not_matter(key, claimed, settings);
}

/// A run goes through exactly where the paths that the actor is told of are valid
/// Unicode: that of the log file for an actor that claims logging, and those of
/// the volumes for one that claims the Filesystem. The actor is added exactly
/// then.
pub proof fn law_unread_paths_do_not_matter(
    key: Seq<char>,
    claimed: Seq<Seq<char>>,
    settings: RunSettingsView,
)
    ensures
        ({
            let run = run_start(key, claimed, settings);
            let readable = {
                &&& claimed.contains("wascc:logging"@) ==> settings.log_path is Some
                &&& claimed.contains("wascc:blobstore"@) ==> forall|k: int|
                    0 <= k < settings.volumes.len() ==> (
                    #[trigger] settings.volumes[k]).host_path is Some
            };
            &&& run.handle is Some <==> readable
            &&& run.script.actions.contains(HostActionView::AddActor { key }) <==> readable
        }),
{
    lemma_run_script_at(key, claimed, settings);
    lemma_begun_at(claimed, settings);
    let actions = run_start(key, claimed, settings).script.actions;
    let add = HostActionView::AddActor { key };
    if settings.paths_usable(claimed) {
        assert(actions[actor_position(claimed, settings)] == add);
    } else {
        assert forall|i: int| 0 <= i < actions.len() implies actions[i] != add by {
            assert(actions[i] == volume_action(settings.volumes, i));
        }
    }
}

/// An actor that claims the Filesystem is given each of its volumes: bound under
/// the name of the volume, and rooted at the directory of the volume on the host.
pub proof fn law_volumes_rooted_at_host_paths(
    key: Seq<char>,
    claimed: Seq<Seq<char>>,
    settings: RunSettingsView,
    k: int,
)
    requires
        claimed.contains("wascc:blobstore"@),
        claimed.contains("wascc:logging"@) ==> settings.log_path is Some,
        forall|i: int|
            0 <= i < settings.volumes.len() ==> (#[trigger] settings.volumes[i]).host_path is Some,
        0 <= k < settings.volumes.len(),
    ensures
        exists|capability: CapabilityView|
            {
                &&& #[trigger] run_start(key, claimed, settings).script.actions.contains(
                    HostActionView::SetBinding { key, capability },
                )
                &&& capability.name == "wascc:blobstore"@
                &&& capability.binding == Some(settings.volumes[k].name)
                &&& capability.env.contains_key("ROOT"@)
                &&& Some(capability.env["ROOT"@]) == settings.volumes[k].host_path
            },
{
    lemma_run_script_at(key, claimed, settings);
    lemma_capabilities_at(claimed, settings);
    let actions = run_start(key, claimed, settings).script.actions;
    let j = volume_position(claimed) + k;
    let capability = settings.capabilities(claimed)[j];
    let i = actor_position(claimed, settings) + 1 + j;
    assert(actions[i] == run_action(key, claimed, settings, i));
    assert(actions[i] == (HostActionView::SetBinding { key, capability }));
    assert(actions.contains(HostActionView::SetBinding { key, capability }));
}

/// Every Filesystem capability that is configured is that of a volume: it is
/// bound under the name of the volume and rooted at its directory on the host.
pub proof fn law_filesystem_bindings_are_volumes(
    key: Seq<char>,
    claimed: Seq<Seq<char>>,
    settings: RunSettingsView,
    actor: Seq<char>,
    capability: CapabilityView,
)
    requires
        run_start(key, claimed, settings).script.actions.contains(
            HostActionView::SetBinding { key: actor, capability },
        ),
        capability.name == "wascc:blobstore"@,
    ensures
        actor == key,
        claimed.contains("wascc:blobstore"@),
        capability.env.contains_key("ROOT"@),
        exists|k: int|
            {
                &&& 0 <= k < settings.volumes.len()
                &&& capability.binding == Some((#[trigger] settings.volumes[k]).name)
                &&& Some(capability.env["ROOT"@]) == settings.volumes[k].host_path
            },
{
    let j = lemma_configured(key, claimed, settings, actor, capability);
    lemma_capabilities_at(claimed, settings);
    lemma_capability_names_differ();
    let k = j - volume_position(claimed);
    assert(k >= 0);
    assert(capability == settings.volume_capability(settings.volumes[k]));
    assert(settings.volumes[k].host_path is Some);
}

/// A decimal number as it is written: digits only, and no leading zero.
pub open spec fn plainly_written(digits: Seq<char>) -> bool {
    &&& digits.len() > 0
    &&& forall|i: int|
        0 <= i < digits.len() ==> '0' as int <= (#[trigger] digits[i]) as int <= '9' as int
    &&& digits.len() > 1 ==> digits[0] != '0'
}

proof fn lemma_decimal_plainly_written(n: nat)
    ensures
        plainly_written(decimal(n)),
        n > 0 ==> decimal(n)[0] != '0',
    decreases n,
{
    if n >= 10 {
        lemma_decimal_plainly_written(n / 10);
        let front = decimal(n / 10);
        let digits = decimal(n);
        assert(digits[0] == front[0]);
        assert forall|i: int| 0 <= i < digits.len() implies '0' as int <= (
        #[trigger] digits[i]) as int <= '9' as int by {
            if i < front.len() {
                assert(digits[i] == front[i]);
            }
        }
    }
}

/// Every HTTP capability that is configured is told the port that was assigned
/// to the actor, as a decimal number.
pub proof fn law_http_told_assigned_port(
    key: Seq<char>,
    claimed: Seq<Seq<char>>,
    settings: RunSettingsView,
    actor: Seq<char>,
    capability: CapabilityView,
)
    requires
        run_start(key, claimed, settings).script.actions.contains(
            HostActionView::SetBinding { key: actor, capability },
        ),
        capability.name == "wascc:http_server"@,
    ensures
        actor == key,
        claimed.contains("wascc:http_server"@),
        capability.binding is None,
        capability.env.contains_key("PORT"@),
        decimal_value(capability.env["PORT"@]) == settings.port,
        plainly_written(capability.env["PORT"@]),
{
    let j = lemma_configured(key, claimed, settings, actor, capability);
    lemma_capabilities_at(claimed, settings);
    lemma_capability_names_differ();
    law_port_read_back(settings.port);
    lemma_decimal_plainly_written(settings.port);
    assert(capability == settings.http_capability());
}

/// Two runs that differ in the assigned port alone tell the actor different
/// ports, and nothing else differently.
pub proof fn law_port_decides_port_alone(
    claimed: Seq<Seq<char>>,
    settings: RunSettingsView,
    port: nat,
    j: int,
)
    requires
        port != settings.port,
        0 <= j < settings.capabilities(claimed).len(),
    ensures
        ({
            let other = RunSettingsView { port, ..settings };
            let one = settings.capabilities(claimed)[j];
            let two = other.capabilities(claimed)[j];
            &&& other.capabilities(claimed).len() == settings.capabilities(claimed).len()
            &&& one.name == two.name
            &&& one.binding == two.binding
            &&& one.name == "wascc:http_server"@ ==> one.env["PORT"@] != two.env["PORT"@]
                && one.env.remove("PORT"@) == two.env.remove("PORT"@)
            &&& one.name != "wascc:http_server"@ ==> one.env == two.env
        }),
{
    let other = RunSettingsView { port, ..settings };
    lemma_capabilities_at(claimed, settings);
    lemma_capabilities_at(claimed, other);
    lemma_capability_names_differ();
    law_port_read_back(port);
    law_port_read_back(settings.port);
    let one = settings.capabilities(claimed)[j];
    let two = other.capabilities(claimed)[j];
    if one.name == HTTP_CAPABILITY@ {
        assert(one == settings.http_capability());
        assert(two == other.http_capability());
        assert(one.env.remove("PORT"@) =~= settings.env.remove("PORT"@));
        assert(two.env.remove("PORT"@) =~= settings.env.remove("PORT"@));
    }
}

/// Every logging capability that is configured is told the log file, under the
/// variable that the capability looks for.
pub proof fn law_logging_told_log_file(
    key: Seq<char>,
    claimed: Seq<Seq<char>>,
    settings: RunSettingsView,
    actor: Seq<char>,
    capability: CapabilityView,
)
    requires
        run_start(key, claimed, settings).script.actions.contains(
            HostActionView::SetBinding { key: actor, capability },
        ),
        capability.name == "wascc:logging"@,
    ensures
        actor == key,
        claimed.contains("wascc:logging"@),
        capability.binding is None,
        capability.env.contains_key(settings.log_path_key),
        Some(capability.env[settings.log_path_key]) == settings.log_path,
{
    let j = lemma_configured(key, claimed, settings, actor, capability);
    lemma_capabilities_at(claimed, settings);
    lemma_capability_names_differ();
    assert(capability == settings.log_capability());
}

/// Nothing is configured but logging, HTTP and the Filesystem, only what is
/// claimed, and beside its own variable each has the environment of the pod.
pub proof fn law_configured_environment(
    key: Seq<char>,
    claimed: Seq<Seq<char>>,
    settings: RunSettingsView,
    actor: Seq<char>,
    capability: CapabilityView,
)
    requires
        run_start(key, claimed, settings).script.actions.contains(
            HostActionView::SetBinding { key: actor, capability },
        ),
    ensures
        actor == key,
        claimed.contains(capability.name),
        ({
            ||| capability.name == "wascc:logging"@ && capability.env.remove(settings.log_path_key)
                == settings.env.remove(settings.log_path_key)
            ||| capability.name == "wascc:http_server"@ && capability.env.remove("PORT"@)
                == settings.env.remove("PORT"@)
            ||| capability.name == "wascc:blobstore"@ && capability.env.remove("ROOT"@)
                == settings.env.remove("ROOT"@)
        }),
{
    let j = lemma_configured(key, claimed, settings, actor, capability);
    lemma_capabilities_at(claimed, settings);
    let n = volume_position(claimed);
    if j >= n {
        assert(capability.env.remove("ROOT"@) =~= settings.env.remove("ROOT"@));
    } else if capability == settings.log_capability() {
        assert(capability.env.remove(settings.log_path_key) =~= settings.env.remove(
            settings.log_path_key,
        ));
    } else {
        assert(capability == settings.http_capability());
        assert(capability.env.remove("PORT"@) =~= settings.env.remove("PORT"@));
    }
}

/// What a run does, step by step. Each volume is instantiated and added in turn;
/// the actor is added; logging is configured, then HTTP, then each volume in
/// turn. There are no other steps.
pub proof fn law_run_in_order(
    key: Seq<char>,
    claimed: Seq<Seq<char>>,
    settings: RunSettingsView,
)
    requires
        claimed.contains("wascc:logging"@) ==> settings.log_path is Some,
        claimed.contains("wascc:blobstore"@) ==> forall|k: int|
            0 <= k < settings.volumes.len() ==> (#[trigger] settings.volumes[k]).host_path is Some,
    ensures
        ({
            let actions = run_start(key, claimed, settings).script.actions;
            let mounted: int = if claimed.contains("wascc:blobstore"@) {
                settings.volumes.len() as int
            } else {
                0
            };
            let at = 2 * mounted;
            let log: int = if claimed.contains("wascc:logging"@) {
                1
            } else {
                0
            };
            let http: int = if claimed.contains("wascc:http_server"@) {
                1
            } else {
                0
            };
            &&& actions.len() == at + 1 + log + http + mounted
            &&& forall|k: int|
                0 <= k < mounted ==> {
                    let name = (#[trigger] settings.volumes[k]).name;
                    &&& actions[2 * k] == (HostActionView::Instantiate {
                        plugin: Plugin::FileSystem,
                        binding: Some(name),
                    })
                    &&& actions[2 * k + 1] == (HostActionView::AddCapability {
                        plugin: Plugin::FileSystem,
                        binding: Some(name),
                    })
                    &&& actions[at + 1 + log + http + k] is SetBinding
                    &&& actions[at + 1 + log + http + k]->capability.name == "wascc:blobstore"@
                    &&& actions[at + 1 + log + http + k]->capability.binding == Some(name)
                }
            &&& actions[at] == HostActionView::AddActor { key }
            &&& log == 1 ==> {
                &&& actions[at + 1] is SetBinding
                &&& actions[at + 1]->capability.name == "wascc:logging"@
            }
            &&& http == 1 ==> {
                &&& actions[at + 1 + log] is SetBinding
                &&& actions[at + 1 + log]->capability.name == "wascc:http_server"@
            }
        }),
{
    lemma_run_script_at(key, claimed, settings);
    lemma_capabilities_at(claimed, settings);
    let actions = run_start(key, claimed, settings).script.actions;
    let mounted: int = if claimed.contains(FS_CAPABILITY@) {
        settings.volumes.len() as int
    } else {
        0
    };
    let at = 2 * mounted;
    let n = volume_position(claimed);
    assert(at == actor_position(claimed, settings));
    assert forall|k: int| 0 <= k < mounted implies {
        let name = (#[trigger] settings.volumes[k]).name;
        &&& actions[2 * k] == (HostActionView::Instantiate {
            plugin: Plugin::FileSystem,
            binding: Some(name),
        })
        &&& actions[2 * k + 1] == (HostActionView::AddCapability {
            plugin: Plugin::FileSystem,
            binding: Some(name),
        })
        &&& actions[at + 1 + n + k] is SetBinding
        &&& actions[at + 1 + n + k]->capability.name == FS_CAPABILITY@
        &&& actions[at + 1 + n + k]->capability.binding == Some(name)
    } by {
        assert(actions[2 * k] == volume_action(settings.volumes, 2 * k));
        assert(actions[2 * k + 1] == volume_action(settings.volumes, 2 * k + 1));
        assert(actions[at + 1 + n + k] == run_action(key, claimed, settings, at + 1 + n + k));
        assert(settings.capabilities(claimed)[n + k] == settings.volume_capability(
            settings.volumes[k],
        ));
    }
    assert(actions[at] == run_action(key, claimed, settings, at));
    if claimed.contains(LOG_CAPABILITY@) {
        assert(actions[at + 1] == run_action(key, claimed, settings, at + 1));
    }
    if claimed.contains(HTTP_CAPABILITY@) {
        assert(actions[at + n] == run_action(key, claimed, settings, at + n));
    }
}

/// A run of an actor that claims logging does nothing at all where the path of
/// the log file is not valid Unicode.
pub proof fn law_unreadable_log_path_stops_at_once(
    key: Seq<char>,
    claimed: Seq<Seq<char>>,
    settings: RunSettingsView,
)
    requires
        claimed.contains("wascc:logging"@),
        settings.log_path is None,
    ensures
        run_start(key, claimed, settings).handle is None,
        run_start(key, claimed, settings).script.actions.len() == 0,
{
}

/// A run of an actor that claims the Filesystem registers the volumes before the
/// first whose path is not valid Unicode, and does nothing more.
pub proof fn law_unreadable_volume_path_stops_there(
    key: Seq<char>,
    claimed: Seq<Seq<char>>,
    settings: RunSettingsView,
    bad: int,
)
    requires
        claimed.contains("wascc:blobstore"@),
        claimed.contains("wascc:logging"@) ==> settings.log_path is Some,
        0 <= bad < settings.volumes.len(),
        settings.volumes[bad].host_path is None,
        forall|k: int| 0 <= k < bad ==> (#[trigger] settings.volumes[k]).host_path is Some,
    ensures
        ({
            let run = run_start(key, claimed, settings);
            &&& run.handle is None
            &&& run.script.actions.len() == 2 * bad
            &&& forall|k: int|
                0 <= k < bad ==> {
                    let name = (#[trigger] settings.volumes[k]).name;
                    &&& run.script.actions[2 * k] == (HostActionView::Instantiate {
                        plugin: Plugin::FileSystem,
                        binding: Some(name),
                    })
                    &&& run.script.actions[2 * k + 1] == (HostActionView::AddCapability {
                        plugin: Plugin::FileSystem,
                        binding: Some(name),
                    })
                }
        }),
{
    let volumes = settings.volumes;
    lemma_usable_count(volumes);
    let n = usable_count(volumes) as int;
    if n < bad {
        assert(volumes[n].host_path is Some);
    }
    if bad < n {
        assert(volumes[bad].host_path is Some);
    }
    lemma_volumes_script_at(volumes.take(n));
    lemma_begun_at(claimed, settings);
    let begun = begun_script(claimed, settings);
    assert forall|k: int| 0 <= k < bad implies {
        let name = (#[trigger] volumes[k]).name;
        &&& begun[2 * k] == (HostActionView::Instantiate {
            plugin: Plugin::FileSystem,
            binding: Some(name),
        })
        &&& begun[2 * k + 1] == (HostActionView::AddCapability {
            plugin: Plugin::FileSystem,
            binding: Some(name),
        })
    } by {
        assert(begun[2 * k] == volume_action(volumes, 2 * k));
        assert(begun[2 * k + 1] == volume_action(volumes, 2 * k + 1));
    }
}

/// What stopping an actor does, step by step: the actor is removed and then, for
/// an actor that claims the Filesystem, each of its volumes in turn. There are no
/// other steps.
pub proof fn law_stop_in_order(handle: ActorHandleView)
    ensures
        ({
            let actions = stop_script(handle);
            &&& actions[0] == HostActionView::RemoveActor { key: handle.key }
            &&& !handle.capabilities.contains("wascc:blobstore"@) ==> actions.len() == 1
            &&& handle.capabilities.contains("wascc:blobstore"@) ==> {
                &&& actions.len() == 1 + handle.volumes.len()
                &&& forall|k: int|
                    0 <= k < handle.volumes.len() ==> actions[1 + k] == (
                    HostActionView::RemoveCapability {
                        plugin: Plugin::FileSystem,
                        volume: (#[trigger] handle.volumes[k]).name,
                    })
            }
        }),
{
}

/// What starting the provider does, step by step: the two directories are
/// created, HTTP is instantiated and added, and so is logging. There are no other
/// steps.
pub proof fn law_start_in_order(data_dir: PathBuf)
    ensures
        ({
            let actions = startup_script(data_dir);
            &&& actions.len() == 6
            &&& actions[0] == HostActionView::CreateDir { path: joined(data_dir, "wasmcloud-logs"@) }
            &&& actions[1] == HostActionView::CreateDir { path: joined(data_dir, "volumes"@) }
            &&& actions[2] == (HostActionView::Instantiate { plugin: Plugin::Http, binding: None })
            &&& actions[3] == (HostActionView::AddCapability { plugin: Plugin::Http, binding: None })
            &&& actions[4] == (HostActionView::Instantiate {
                plugin: Plugin::Logging,
                binding: None,
            })
            &&& actions[5] == (HostActionView::AddCapability {
                plugin: Plugin::Logging,
                binding: None,
            })
        }),
{
}

/// A pod is refused exactly where it has init containers, however many, and the
/// refusal names the pod.
pub proof fn law_init_containers_refused(pod: Pod)
    ensures
        pod_obstacle(pod) is None <==> pod.init_containers@.len() == 0,
        pod_obstacle(pod) matches Some(reason) ==> reason == (UnrunnableView::InitContainers {
            pod: pod.name@,
        }),
{
}

/// A container is refused for its args exactly where it has any, however many,
/// and whatever its image reads as; the refusal names the container.
pub proof fn law_container_args_refused(
    container: Container,
    image: Option<Result<Seq<char>, Seq<char>>>,
)
    ensures
        container.args is Some && container.args->0@.len() > 0 <==> container_obstacle(
            container,
            image,
        ) == Some(UnrunnableView::ContainerArgs { container: container.name@ }),
        container_obstacle(container, image) is None ==> container.args is None
            || container.args->0@.len() == 0,
{
}

/// A container without args is accepted exactly where it names no image, or its
/// image reads as a reference that does not start like that of kube-proxy. Else
/// it is refused for the cause for which the image could not be read, or as
/// kube-proxy.
pub proof fn law_image_decides(
    container: Container,
    image: Option<Result<Seq<char>, Seq<char>>>,
)
    requires
        container.args is None || container.args->0@.len() == 0,
    ensures
        match image {
            None => container_obstacle(container, image) is None,
            Some(Err(cause)) => container_obstacle(container, image) == Some(
                UnrunnableView::InvalidImage { cause },
            ),
            Some(Ok(whole)) => if "k8s.gcr.io/kube-proxy"@.is_prefix_of(whole) {
                container_obstacle(container, image) == Some(UnrunnableView::KubeProxy)
            } else {
                container_obstacle(container, image) is None
            },
        },
{
}

/// Whatever its kind, the message of a failed action ends with the cause, and the
/// message of a failed removal of a volume quotes the name of the volume.
pub proof fn law_messages_tell_the_cause(error: HostErrorView)
    ensures
        ({
            let text = error.message_text();
            let front = text.len() - error.cause.len();
            &&& front >= 0
            &&& text.skip(front) == error.cause
            &&& text.take(front) == match error.action {
                HostActionView::CreateDir { .. } => Seq::empty(),
                HostActionView::Instantiate { plugin: Plugin::Http, .. } =>
                    "Failed to instantiate "@ + "HTTP"@ + " capability: "@,
                HostActionView::Instantiate { plugin: Plugin::Logging, .. } =>
                    "Failed to instantiate "@ + "log"@ + " capability: "@,
                HostActionView::Instantiate { plugin: Plugin::FileSystem, .. } =>
                    "Failed to instantiate "@ + "File System"@ + " capability: "@,
                HostActionView::AddCapability { plugin: Plugin::Http, .. } => "Failed to add "@
                    + "HTTP"@ + " capability: "@,
                HostActionView::AddCapability { plugin: Plugin::Logging, .. } => "Failed to add "@
                    + "log"@ + " capability: "@,
                HostActionView::AddCapability { plugin: Plugin::FileSystem, .. } => "Failed to add "@
                    + "File System"@ + " capability: "@,
                HostActionView::AddActor { .. } => "Error adding actor: "@,
                HostActionView::SetBinding { .. } => "Error configuring capabilities for module: "@,
                HostActionView::RemoveActor { .. } => "unable to remove actor: "@,
                HostActionView::RemoveCapability { volume, .. } => "unable to remove volume "@
                    + debug_text(volume) + " capability: "@,
            }
        }),
{
    let text = error.message_text();
    let front = text.len() - error.cause.len();
    assert(text.skip(front) =~= error.cause);
    assert(text =~= text.take(front) + error.cause);
}

/// The message of a refusal names what is refused, or is the cause for which the
/// image could not be read.
pub proof fn law_refusals_name_what_is_refused(name: Seq<char>)
    ensures
        ({
            let pod = (UnrunnableView::InitContainers { pod: name }).message_text();
            let container = (UnrunnableView::ContainerArgs { container: name }).message_text();
            let tail = ": spec specifies init containers which are not supported on wasmCloud"@;
            let args_tail = ": spec specifies container args which are not supported on wasmCloud"@;
            let n = "Cannot run "@.len() as int;
            &&& pod.take(n) == "Cannot run "@
            &&& pod.subrange(n, n + name.len()) == name
            &&& pod.skip(n + name.len()) == tail
            &&& container.take(n) == "Cannot run "@
            &&& container.subrange(n, n + name.len()) == name
            &&& container.skip(n + name.len()) == args_tail
            &&& (UnrunnableView::InvalidImage { cause: name }).message_text() == name
            &&& (UnrunnableView::KubeProxy).message_text() == "Cannot run kube-proxy"@
        }),
{
    let n = "Cannot run "@.len() as int;
    let pod = (UnrunnableView::InitContainers { pod: name }).message_text();
    let container = (UnrunnableView::ContainerArgs { container: name }).message_text();
    assert(pod.take(n) =~= "Cannot run "@);
    assert(pod.subrange(n, n + name.len()) =~= name);
    assert(pod.skip(n + name.len())
        =~= ": spec specifies init containers which are not supported on wasmCloud"@);
    assert(container.take(n) =~= "Cannot run "@);
    assert(container.subrange(n, n + name.len()) =~= name);
    assert(container.skip(n + name.len())
        =~= ": spec specifies container args which are not supported on wasmCloud"@);
}

/// The model of a run's settings tells all of them: every volume with its name
/// and its path, and every claim.
pub proof fn law_models_leave_nothing_out(settings: RunSettings, claimed: Vec<String>)
    ensures
        settings@.env == settings.env@,
        settings@.port == settings.port,
        settings@.log_path_key == settings.log_path_key@,
        settings@.log_path is Some <==> settings.log_path is Some,
        settings.log_path is Some ==> settings@.log_path->0 == settings.log_path->0@,
        settings@.volumes.len() == settings.volumes@.len(),
        forall|k: int|
            0 <= k < settings.volumes@.len() ==> {
                let volume = #[trigger] settings.volumes@[k];
                let model = settings@.volumes[k];
                &&& model.name == volume.name@
                &&& model.host_path is Some <==> volume.host_path is Some
                &&& volume.host_path is Some ==> model.host_path->0 == volume.host_path->0@
            },
        texts(claimed@).len() == claimed@.len(),
        forall|k: int| 0 <= k < claimed@.len() ==> texts(claimed@)[k] == (#[trigger] claimed@[k])@,
{
}

/// The model of an action tells what the driver reads in the action itself.
pub proof fn law_action_models_leave_nothing_out(action: HostAction)
    ensures
        match action {
            HostAction::CreateDir { path } => action@ == (HostActionView::CreateDir { path }),
            HostAction::Instantiate { plugin, binding } => {
                &&& action@ is Instantiate
                &&& action@->Instantiate_plugin == plugin
                &&& action@->Instantiate_binding is Some <==> binding is Some
                &&& binding is Some ==> action@->Instantiate_binding->0 == binding->0@
            },
            HostAction::AddCapability { plugin, binding } => {
                &&& action@ is AddCapability
                &&& action@->AddCapability_plugin == plugin
                &&& action@->AddCapability_binding is Some <==> binding is Some
                &&& binding is Some ==> action@->AddCapability_binding->0 == binding->0@
            },
            HostAction::AddActor { key } => action@ == (HostActionView::AddActor { key: key@ }),
            HostAction::SetBinding { key, capability } => {
                &&& action@ is SetBinding
                &&& action@->SetBinding_key == key@
                &&& action@->capability.name == capability.name@
                &&& action@->capability.env == capability.env@
                &&& action@->capability.binding is Some <==> capability.binding is Some
                &&& capability.binding is Some ==> action@->capability.binding->0
                    == capability.binding->0@
            },
            HostAction::RemoveActor { key } => action@ == (HostActionView::RemoveActor {
                key: key@,
            }),
            HostAction::RemoveCapability { plugin, volume } => action@ == (
            HostActionView::RemoveCapability { plugin, volume: volume@ }),
        },
{
}

/// What is read in a module is taken as it is read: the key, and every claim, or
/// the cause for which nothing could be read. So is what is read of an image.
pub proof fn law_read_as_it_stands(
    actor: wascc_host::Actor,
    key: String,
    claimed: Vec<String>,
    cause: String,
)
    ensures
        read_claims(Ok((actor, key, claimed))) matches Ok((k, c)) && k == key@ && c.len()
            == claimed@.len() && forall|i: int|
            0 <= i < claimed@.len() ==> c[i] == (#[trigger] claimed@[i])@,
        read_claims(Err(cause)) == Err::<(Seq<char>, Seq<Seq<char>>), Seq<char>>(cause@),
        read_image(Ok(key)) == Ok::<Seq<char>, Seq<char>>(key@),
        read_image(Err(cause)) == Err::<Seq<char>, Seq<char>>(cause@),
{
}

} // verus!
