//! Actors: loading a signed module, running it, and stopping it again.

use crate::capability::{
    capabilities_for, capability_views, count_usable, usable_count, volume_views, Capability, CapabilityView, Plugin,
    RunSettings, RunSettingsView, VolumeBinding, VolumeBindingView, FS_CAPABILITY, LOG_CAPABILITY,
};
use crate::script::{
    action_views, install_script, outcome_cause, push_install, HostAction, HostActionView,
    HostError, Script, ScriptView,
};
use crate::text::{contains_text, join, texts};
use vstd::prelude::*;

verus! {

/// An actor module that has been read by the wasmCloud host library.
#[verifier::external_type_specification]
#[verifier::external_body]
pub struct ExActor(wascc_host::Actor);

/// What the host library reads in the bytes of a signed module: the public key
/// of the actor and the capabilities that it claims, or the text of an error.
pub uninterp spec fn module_claims(module: Seq<u8>) -> Result<
    (Seq<char>, Seq<Seq<char>>),
    Seq<char>,
>;

/// The bytes of the module that an actor was read from, which it keeps and
/// which the host runs.
pub uninterp spec fn actor_bytes(actor: wascc_host::Actor) -> Seq<u8>;

/// The claims in the outcome of reading a module.
pub open spec fn read_claims(
    read: Result<(wascc_host::Actor, String, Vec<String>), String>,
) -> Result<(Seq<char>, Seq<Seq<char>>), Seq<char>> {
    match read {
        Ok((_, key, claimed)) => Ok((key@, texts(claimed@))),
        Err(cause) => Err(cause@),
    }
}

/// Reads a module with `wascc_host::Actor::from_slice`, and takes the public
/// key and the claimed capabilities out of the actor with its accessors
/// `public_key` and `capabilities`. Both, or the text of the error, are a
/// function of the bytes alone: the embedded token is decoded and the hash of
/// the module is compared with the one in the token, and neither the clock nor
/// the signature is looked at. The actor keeps a copy of the bytes.
#[verifier::external_body]
fn read_module(data: &[u8]) -> (read: Result<(wascc_host::Actor, String, Vec<String>), String>)
    ensures
        read_claims(read) == module_claims(data@),
        read matches Ok((actor, _, _)) ==> actor_bytes(actor) == data@,
{
    match wascc_host::Actor::from_slice(data) {
        Ok(actor) => {
            let key = actor.public_key();
            let claimed = actor.capabilities();
            Ok((actor, key, claimed))
        },
        Err(error) => Err(error.to_string()),
    }
}

/// An actor that is ready to be run.
pub struct LoadedActor {
    /// What is handed to the host.
    pub module: wascc_host::Actor,
    /// The public key of the actor.
    pub key: String,
    /// The capabilities that the actor claims.
    pub capabilities: Vec<String>,
}

/// A module that could not be loaded.
pub struct LoadError {
    /// What the host library said.
    pub cause: String,
}

impl LoadError {
    /// The message of the error.
    pub fn message(&self) -> (text: String)
        ensures
            text@ == "Error loading WASM: "@ + self.cause@,
    {
        join("Error loading WASM: ", self.cause.as_str())
    }
}

/// Loads an actor from the bytes of a signed module.
pub fn load_actor(data: &[u8]) -> (loaded: Result<LoadedActor, LoadError>)
    ensures
        match loaded {
            Ok(actor) => {
                &&& module_claims(data@) == Ok::<(Seq<char>, Seq<Seq<char>>), Seq<char>>(
                    (actor.key@, texts(actor.capabilities@)),
                )
                &&& actor_bytes(actor.module) == data@
            },
            Err(error) => module_claims(data@) == Err::<(Seq<char>, Seq<Seq<char>>), Seq<char>>(
                error.cause@,
            ),
        },
{
    match read_module(data) {
        Ok((module, key, capabilities)) => Ok(LoadedActor { module, key, capabilities }),
        Err(cause) => Err(LoadError { cause }),
    }
}

/// Registers one Filesystem capability for each volume, in order.
pub open spec fn volumes_script(volumes: Seq<VolumeBindingView>) -> Seq<HostActionView>
    decreases volumes.len(),
{
    if volumes.len() == 0 {
        Seq::empty()
    } else {
        volumes_script(volumes.drop_last()) + install_script(
            Plugin::FileSystem,
            Some(volumes.last().name),
        )
    }
}

/// Configures capabilities for an actor, in order.
pub open spec fn bindings_script(key: Seq<char>, capabilities: Seq<CapabilityView>) -> Seq<
    HostActionView,
> {
    capabilities.map_values(
        |c: CapabilityView| HostActionView::SetBinding { key, capability: c },
    )
}

/// What running an actor takes: the volumes are registered where the actor
/// claims the Filesystem capability, the actor is added, and the capabilities
/// that it claims are configured for it.
pub open spec fn run_script(
    key: Seq<char>,
    claimed: Seq<Seq<char>>,
    settings: RunSettingsView,
) -> Seq<HostActionView> {
    (if claimed.contains(FS_CAPABILITY@) {
        volumes_script(settings.volumes)
    } else {
        Seq::empty()
    }) + seq![HostActionView::AddActor { key }] + bindings_script(
        key,
        settings.capabilities(claimed),
    )
}

/// What is done of a run that comes to a path which is not valid Unicode. The
/// path of the log file is looked at before anything is done, and that of a
/// volume right before the volume is registered.
pub open spec fn begun_script(
    claimed: Seq<Seq<char>>,
    settings: RunSettingsView,
) -> Seq<HostActionView> {
    if claimed.contains(LOG_CAPABILITY@) && settings.log_path is None {
        Seq::empty()
    } else {
        volumes_script(settings.volumes.take(usable_count(settings.volumes) as int))
    }
}

/// Removes the capability of each volume, in order.
pub open spec fn removals_script(volumes: Seq<VolumeBindingView>) -> Seq<HostActionView> {
    volumes.map_values(
        |v: VolumeBindingView|
            HostActionView::RemoveCapability { plugin: Plugin::FileSystem, volume: v.name },
    )
}

/// What stopping an actor takes: the actor is removed and, where it claims the
/// Filesystem capability, so is the capability of each of its volumes.
pub open spec fn stop_script(handle: ActorHandleView) -> Seq<HostActionView> {
    seq![HostActionView::RemoveActor { key: handle.key }] + (if handle.capabilities.contains(
        FS_CAPABILITY@,
    ) {
        removals_script(handle.volumes)
    } else {
        Seq::empty()
    })
}

/// A handle for stopping a running actor.
pub struct ActorHandle {
    /// The public key of the actor that will be stopped.
    pub key: String,
    volumes: Vec<VolumeBinding>,
    capabilities: Vec<String>,
}

/// The model of an [`ActorHandle`].
pub struct ActorHandleView {
    pub key: Seq<char>,
    pub volumes: Seq<VolumeBindingView>,
    pub capabilities: Seq<Seq<char>>,
}

impl View for ActorHandle {
    type V = ActorHandleView;

    closed spec fn view(&self) -> ActorHandleView {
        ActorHandleView {
            key: self.key@,
            volumes: volume_views(self.volumes@),
            capabilities: texts(self.capabilities@),
        }
    }
}

impl ActorHandle {
    /// The public key of the actor that will be stopped.
    pub fn actor_key(&self) -> (key: &str)
        ensures
            key@ == self@.key,
    {
        self.key.as_str()
    }

    /// Starts stopping the actor. The volumes leave the handle: they are
    /// removed once, whatever comes of it.
    pub fn stop(&mut self) -> (script: Script)
        ensures
            script@ == ScriptView::start(stop_script(old(self)@)),
            final(self)@ == (ActorHandleView { volumes: Seq::empty(), ..old(self)@ }),
    {
        let ghost handle = self@;
        let mut volumes: Vec<VolumeBinding> = Vec::new();
        std::mem::swap(&mut volumes, &mut self.volumes);
        let mut actions: Vec<HostAction> = Vec::new();
        actions.push(HostAction::RemoveActor { key: self.key.clone() });
        let ghost removed = removals_script(handle.volumes);
        let ghost first = seq![HostActionView::RemoveActor { key: handle.key }];
        assert(action_views(actions@) =~= first);
        if contains_text(&self.capabilities, FS_CAPABILITY) {
            assert(action_views(actions@) =~= first + removed.take(0));
            for volume in it: volumes
                invariant
                    it.seq() == volumes@,
                    handle.volumes == volume_views(volumes@),
                    removed == removals_script(handle.volumes),
                    action_views(actions@) == first + removed.take(it.index()),
            {
                let ghost before = action_views(actions@);
                assert(handle.volumes[it.index()] == volume@);
                actions.push(
                    HostAction::RemoveCapability {
                        plugin: Plugin::FileSystem,
                        volume: volume.name,
                    },
                );
                assert(action_views(actions@) =~= before.push(removed[it.index()]));
                assert(action_views(actions@) =~= first + removed.take(it.index() + 1));
            }
            assert(removed.take(removed.len() as int) =~= removed);
        }
        assert(action_views(actions@) =~= stop_script(handle));
        assert(volume_views(self.volumes@) =~= Seq::empty());
        Script::start(actions)
    }
}

/// An actor that is being run.
pub struct ActorRun {
    script: Script,
    handle: Option<ActorHandle>,
}

/// The model of an [`ActorRun`].
pub struct ActorRunView {
    pub script: ScriptView,
    /// The handle that a successful run ends with; `None` where the run comes to
    /// a path that is not valid Unicode.
    pub handle: Option<ActorHandleView>,
}

/// The model of an optional handle.
pub open spec fn opt_handle(handle: Option<ActorHandle>) -> Option<ActorHandleView> {
    match handle {
        Some(h) => Some(h@),
        None => None,
    }
}

impl View for ActorRun {
    type V = ActorRunView;

    closed spec fn view(&self) -> ActorRunView {
        ActorRunView { script: self.script@, handle: opt_handle(self.handle) }
    }
}

/// The actions that register the first `count` volumes.
fn volume_actions(volumes: &Vec<VolumeBinding>, count: usize) -> (actions: Vec<HostAction>)
    requires
        count <= volumes@.len(),
    ensures
        action_views(actions@) == volumes_script(volume_views(volumes@).take(count as int)),
{
    let ghost models = volume_views(volumes@);
    let mut actions: Vec<HostAction> = Vec::new();
    let mut i: usize = 0;
    assert(action_views(actions@) =~= volumes_script(models.take(0)));
    while i < count
        invariant
            i <= count <= volumes.len(),
            models == volume_views(volumes@),
            action_views(actions@) == volumes_script(models.take(i as int)),
        decreases count - i,
    {
        push_install(&mut actions, Plugin::FileSystem, Some(volumes[i].name.clone()));
        i = i + 1;
        assert(models.take(i as int).drop_last() =~= models.take(i - 1));
    }
    actions
}

/// A run of which nothing was performed yet.
pub open spec fn run_start(
    key: Seq<char>,
    claimed: Seq<Seq<char>>,
    settings: RunSettingsView,
) -> ActorRunView {
    if settings.paths_usable(claimed) {
        ActorRunView {
            script: ScriptView::start(run_script(key, claimed, settings)),
            handle: Some(ActorHandleView { key, volumes: settings.volumes, capabilities: claimed }),
        }
    } else {
        ActorRunView {
            script: ScriptView::start(begun_script(claimed, settings)),
            handle: None,
        }
    }
}

/// The actions of a run whose paths are all valid Unicode.
fn run_actions(key: &String, claimed: &Vec<String>, settings: &RunSettings) -> (actions: Vec<
    HostAction,
>)
    requires
        settings@.paths_usable(texts(claimed@)),
    ensures
        action_views(actions@) == run_script(key@, texts(claimed@), settings@),
{
    let ghost model = settings@;
    let ghost claims = texts(claimed@);
    let capabilities = capabilities_for(claimed, settings);
    let mut actions: Vec<HostAction> = if contains_text(claimed, FS_CAPABILITY) {
        assert(model.volumes.take(model.volumes.len() as int) =~= model.volumes);
        volume_actions(&settings.volumes, settings.volumes.len())
    } else {
        Vec::new()
    };
    let ghost installed = if claims.contains(FS_CAPABILITY@) {
        volumes_script(model.volumes)
    } else {
        Seq::empty()
    };
    assert(action_views(actions@) =~= installed);
    actions.push(HostAction::AddActor { key: key.clone() });
    let ghost first = installed + seq![HostActionView::AddActor { key: key@ }];
    let ghost bound = bindings_script(key@, model.capabilities(claims));
    assert(action_views(actions@) =~= first + bound.take(0));
    for capability in it: capabilities
        invariant
            it.seq() == capabilities@,
            model.capabilities(claims) == capability_views(capabilities@),
            bound == bindings_script(key@, model.capabilities(claims)),
            action_views(actions@) == first + bound.take(it.index()),
    {
        let ghost before = action_views(actions@);
        assert(model.capabilities(claims)[it.index()] == capability@);
        actions.push(HostAction::SetBinding { key: key.clone(), capability });
        assert(action_views(actions@) =~= before.push(bound[it.index()]));
        assert(action_views(actions@) =~= first + bound.take(it.index() + 1));
    }
    assert(bound.take(bound.len() as int) =~= bound);
    actions
}

/// Runs the actor with the given public key and claims.
pub fn run_loaded(key: String, claimed: Vec<String>, settings: RunSettings) -> (run: ActorRun)
    ensures
        run@ == run_start(key@, texts(claimed@), settings@),
{
    if settings.paths_usable(&claimed) {
        let actions = run_actions(&key, &claimed, &settings);
        let handle = ActorHandle { key, volumes: settings.volumes, capabilities: claimed };
        ActorRun { script: Script::start(actions), handle: Some(handle) }
    } else if contains_text(&claimed, LOG_CAPABILITY) && settings.log_path.is_none() {
        let actions: Vec<HostAction> = Vec::new();
        assert(action_views(actions@) =~= Seq::empty());
        ActorRun { script: Script::start(actions), handle: None }
    } else {
        let count = count_usable(&settings.volumes);
        let actions = volume_actions(&settings.volumes, count);
        ActorRun { script: Script::start(actions), handle: None }
    }
}

/// Runs the given WASM data as a wasmCloud actor.
///
/// The capabilities that the actor claims will be configured for it. HTTP and
/// logging must have been registered with the host before, as the start of
/// the provider does.
///
/// The run comes with the actor that is to be added to the host: the one that
/// was read from `data`.
pub fn wasmcloud_run(data: &[u8], settings: RunSettings) -> (started: Result<
    (wascc_host::Actor, ActorRun),
    LoadError,
>)
    ensures
        match module_claims(data@) {
            Ok((key, claimed)) => {
                &&& started matches Ok((actor, run))
                &&& actor_bytes(actor) == data@
                &&& run@ == run_start(key, claimed, settings@)
            },
            Err(cause) => started matches Err(error) && error.cause@ == cause,
        },
{
    match load_actor(data) {
        Ok(actor) => Ok((actor.module, run_loaded(actor.key, actor.capabilities, settings))),
        Err(error) => Err(error),
    }
}

impl ActorRun {
    /// The action to perform next; `None` where all succeeded or one failed.
    pub fn next(&self) -> (action: Option<&HostAction>)
        ensures
            self@.script.well_formed(),
            match action {
                Some(a) => self@.script.running() && a@
                    == self@.script.actions[self@.script.done as int],
                None => !self@.script.running(),
            },
            action is Some <==> self@.script.failure is None && self@.script.done
                < self@.script.actions.len(),
    {
        self.script.next()
    }

    /// Takes note of the outcome of the next action.
    pub fn report(&mut self, outcome: Result<(), String>)
        requires
            old(self)@.script.running(),
        ensures
            final(self)@ == (ActorRunView {
                script: old(self)@.script.after(outcome_cause(outcome)),
                ..old(self)@
            }),
            final(self)@.script.actions == old(self)@.script.actions,
            match outcome {
                Ok(_) => {
                    &&& final(self)@.script.done == old(self)@.script.done + 1
                    &&& final(self)@.script.failure is None
                },
                Err(cause) => {
                    &&& final(self)@.script.done == old(self)@.script.done
                    &&& final(self)@.script.failure == Some(cause@)
                },
            },
    {
        self.script.report(outcome);
    }

    /// The handle of the running actor, or the error of the action that failed.
    /// There is no handle (`Ok(None)`) where nothing failed but the run came to a
    /// path that is not valid Unicode.
    pub fn finish(self) -> (result: Result<Option<ActorHandle>, HostError>)
        requires
            !self@.script.running(),
        ensures
            result matches Ok(handle) ==> opt_handle(handle) == self@.handle,
            match result {
                Ok(Some(handle)) => self@.script.failure is None && self@.handle == Some(handle@),
                Ok(None) => self@.script.failure is None && self@.handle is None,
                Err(error) => {
                    &&& self@.script.failure == Some(error.cause@)
                    &&& error.action@ == self@.script.actions[self@.script.done as int]
                    &&& error@ == self@.script.error()
                },
            },
    {
        match self.script.finish() {
            Ok(_) => Ok(self.handle),
            Err(error) => Err(error),
        }
    }
}

} // verus!
