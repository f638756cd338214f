//! The provider: how it starts, what it keeps, and how it describes its node.

use crate::capability::Plugin;
use crate::handles::HandleTable;
use crate::paths::{join_path, joined};
use crate::pod::{PodKey, PodKeyView};
use crate::script::{
    action_views, install_script, push_install, HostAction, HostActionView, HostError, Script,
    ScriptView,
};
use std::collections::BTreeMap;
use std::path::PathBuf;
use vstd::prelude::*;

verus! {

/// The architecture that the pod targets.
pub const TARGET_WASM32_WASMCLOUD: &'static str = "wasm32-wasmcloud";

/// The root directory of wasmCloud logs.
pub const LOG_DIR_NAME: &'static str = "wasmcloud-logs";

/// The root directory of wasmCloud volumes.
pub const VOLUME_DIR: &'static str = "volumes";

/// The architecture that the node reports.
pub const NODE_ARCHITECTURE: &'static str = "wasm-wasi";

/// The key of the taints that keep other workloads off the node.
pub const ARCH_TAINT_KEY: &'static str = "kubernetes.io/arch";

/// Provider-level state shared between all pods.
#[verifier::reject_recursive_types(H)]
pub struct ProviderState<H> {
    /// The handles of the pods that run.
    pub handles: HandleTable<H>,
    /// The directory that everything on disk lies under.
    pub data_dir: PathBuf,
    /// The ports in use, and the pod that each was assigned to.
    pub port_map: BTreeMap<u16, PodKey>,
}

impl<H> ProviderState<H> {
    /// The directory of the volumes.
    pub fn volume_path(&self) -> (path: PathBuf)
        ensures
            path == joined(self.data_dir, VOLUME_DIR@),
    {
        join_path(&self.data_dir, VOLUME_DIR)
    }

    /// The directory of the logs.
    pub fn log_path(&self) -> (path: PathBuf)
        ensures
            path == joined(self.data_dir, LOG_DIR_NAME@),
    {
        join_path(&self.data_dir, LOG_DIR_NAME)
    }
}

/// Executes WASM binaries on a wasmCloud host, loading the primary container
/// as an actor.
#[verifier::reject_recursive_types(H)]
pub struct WasmCloudProvider<H> {
    pub shared: ProviderState<H>,
}

/// What starting the provider takes: the directories are created, and the HTTP
/// and Logging capabilities are registered with the host.
pub open spec fn startup_script(data_dir: PathBuf) -> Seq<HostActionView> {
    seq![
        HostActionView::CreateDir { path: joined(data_dir, LOG_DIR_NAME@) },
        HostActionView::CreateDir { path: joined(data_dir, VOLUME_DIR@) },
    ] + install_script(Plugin::Http, None) + install_script(Plugin::Logging, None)
}

/// Starts starting a provider that uses the given data directory.
pub fn startup(data_dir: &PathBuf) -> (script: Script)
    ensures
        script@ == ScriptView::start(startup_script(*data_dir)),
{
    let mut actions: Vec<HostAction> = Vec::new();
    actions.push(HostAction::CreateDir { path: join_path(data_dir, LOG_DIR_NAME) });
    actions.push(HostAction::CreateDir { path: join_path(data_dir, VOLUME_DIR) });
    push_install(&mut actions, Plugin::Http, None);
    push_install(&mut actions, Plugin::Logging, None);
    assert(action_views(actions@) =~= startup_script(*data_dir));
    Script::start(actions)
}

impl<H> WasmCloudProvider<H> {
    /// The provider that comes of a startup: one that uses the same data
    /// directory and has no pods yet, or the error of the action that failed.
    pub fn new(startup: Script, data_dir: PathBuf) -> (provider: Result<Self, HostError>)
        requires
            startup@.actions == startup_script(data_dir),
            !startup@.running(),
        ensures
            match provider {
                Ok(p) => {
                    &&& startup@.failure is None
                    &&& p.shared.data_dir == data_dir
                    &&& p.shared.handles@ == Map::<PodKeyView, H>::empty()
                    &&& p.shared.port_map@ == Map::<u16, PodKey>::empty()
                },
                Err(error) => startup@.failure is Some && error@ == startup@.error(),
            },
    {
        match startup.finish() {
            Ok(_) => Ok(
                WasmCloudProvider {
                    shared: ProviderState {
                        handles: HandleTable::new(),
                        data_dir,
                        port_map: BTreeMap::new(),
                    },
                },
            ),
            Err(error) => Err(error),
        }
    }
}

/// A taint of the node.
pub struct Taint {
    pub effect: &'static str,
    pub key: &'static str,
    pub value: &'static str,
}

/// The model of a [`Taint`].
pub struct TaintView {
    pub effect: Seq<char>,
    pub key: Seq<char>,
    pub value: Seq<char>,
}

impl View for Taint {
    type V = TaintView;

    open spec fn view(&self) -> TaintView {
        TaintView { effect: self.effect@, key: self.key@, value: self.value@ }
    }
}

/// How the node presents itself to the cluster.
pub struct NodeDescription {
    pub architecture: &'static str,
    pub taints: Vec<Taint>,
}

/// The taint that keeps out what does not target wasmCloud.
pub open spec fn arch_taint(effect: Seq<char>) -> TaintView {
    TaintView { effect, key: ARCH_TAINT_KEY@, value: TARGET_WASM32_WASMCLOUD@ }
}

/// Describes the node: pods that do not tolerate its architecture are neither
/// scheduled on it nor left running on it.
pub fn node() -> (description: NodeDescription)
    ensures
        description.architecture@ == NODE_ARCHITECTURE@,
        description.taints@.map_values(|t: Taint| t@) == seq![
            arch_taint("NoSchedule"@),
            arch_taint("NoExecute"@),
        ],
{
    let mut taints: Vec<Taint> = Vec::new();
    taints.push(
        Taint { effect: "NoSchedule", key: ARCH_TAINT_KEY, value: TARGET_WASM32_WASMCLOUD },
    );
    taints.push(
        Taint { effect: "NoExecute", key: ARCH_TAINT_KEY, value: TARGET_WASM32_WASMCLOUD },
    );
    assert(taints@.map_values(|t: Taint| t@) =~= seq![
        arch_taint("NoSchedule"@),
        arch_taint("NoExecute"@),
    ]);
    NodeDescription { architecture: NODE_ARCHITECTURE, taints }
}

} // verus!
