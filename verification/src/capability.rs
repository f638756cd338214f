//! Capabilities: what an actor claims, and what it is bound to.
//!
//! A capability is made available to an actor in two parts: it is registered
//! with the host, and it is configured for the actor.

use crate::environment::EnvVars;
use crate::text::{contains_text, decimal, decimal_text, opt_text, texts};
use vstd::prelude::*;

verus! {

/// The name of the Filesystem capability.
pub const FS_CAPABILITY: &'static str = "wascc:blobstore";

/// The name of the HTTP capability.
pub const HTTP_CAPABILITY: &'static str = "wascc:http_server";

/// The name of the Logging capability.
pub const LOG_CAPABILITY: &'static str = "wascc:logging";

/// The key used to define the root directory of the Filesystem capability.
pub const FS_CONFIG_ROOTDIR: &'static str = "ROOT";

/// The key used to define the port of the HTTP capability.
pub const HTTP_CONFIG_PORT: &'static str = "PORT";

/// The native capability providers that the host is given.
#[derive(Clone, Copy, Debug, PartialEq, Eq, Structural)]
pub enum Plugin {
    Http,
    Logging,
    FileSystem,
}

impl Plugin {
    /// The name of the capability that the plugin provides.
    pub open spec fn capability_text(self) -> Seq<char> {
        match self {
            Plugin::Http => HTTP_CAPABILITY@,
            Plugin::Logging => LOG_CAPABILITY@,
            Plugin::FileSystem => FS_CAPABILITY@,
        }
    }

    /// What error messages call the plugin.
    pub open spec fn label_text(self) -> Seq<char> {
        match self {
            Plugin::Http => "HTTP"@,
            Plugin::Logging => "log"@,
            Plugin::FileSystem => "File System"@,
        }
    }

    /// The name of the capability that the plugin provides.
    pub fn capability(&self) -> (name: &'static str)
        ensures
            name@ == self.capability_text(),
    {
        match self {
            Plugin::Http => HTTP_CAPABILITY,
            Plugin::Logging => LOG_CAPABILITY,
            Plugin::FileSystem => FS_CAPABILITY,
        }
    }

    /// What error messages call the plugin.
    pub fn label(&self) -> (label: &'static str)
        ensures
            label@ == self.label_text(),
    {
        match self {
            Plugin::Http => "HTTP",
            Plugin::Logging => "log",
            Plugin::FileSystem => "File System",
        }
    }
}

/// A volume of a pod and where it lies on this node.
pub struct VolumeBinding {
    pub name: String,
    /// The path as text; `None` where the path is not valid Unicode.
    pub host_path: Option<String>,
}

/// The model of a [`VolumeBinding`].
pub struct VolumeBindingView {
    pub name: Seq<char>,
    pub host_path: Option<Seq<char>>,
}

impl View for VolumeBinding {
    type V = VolumeBindingView;

    open spec fn view(&self) -> VolumeBindingView {
        VolumeBindingView { name: self.name@, host_path: opt_text(self.host_path) }
    }
}

/// The models of a list of volumes.
pub open spec fn volume_views(volumes: Seq<VolumeBinding>) -> Seq<VolumeBindingView> {
    volumes.map_values(|v: VolumeBinding| v@)
}

/// How many volumes come before the first whose path is not valid Unicode.
pub open spec fn usable_count(volumes: Seq<VolumeBindingView>) -> nat
    decreases volumes.len(),
{
    if volumes.len() == 0 {
        0
    } else {
        let n = usable_count(volumes.drop_last());
        if n == volumes.len() - 1 && volumes.last().host_path is Some {
            n + 1
        } else {
            n
        }
    }
}

/// The paths before that count are valid Unicode, and the path at it, if there
/// is one, is not.
pub proof fn lemma_usable_count(volumes: Seq<VolumeBindingView>)
    ensures
        usable_count(volumes) <= volumes.len(),
        forall|i: int|
            0 <= i < usable_count(volumes) ==> (#[trigger] volumes[i]).host_path is Some,
        usable_count(volumes) < volumes.len() ==> volumes[usable_count(
            volumes,
        ) as int].host_path is None,
    decreases volumes.len(),
{
    if volumes.len() > 0 {
        let front = volumes.drop_last();
        lemma_usable_count(front);
        assert forall|i: int| 0 <= i < usable_count(volumes) implies (
        #[trigger] volumes[i]).host_path is Some by {
            if i < front.len() {
                assert(front[i] == volumes[i]);
            }
        }
    }
}

/// Counts the volumes before the first whose path is not valid Unicode.
pub fn count_usable(volumes: &Vec<VolumeBinding>) -> (count: usize)
    ensures
        count == usable_count(volume_views(volumes@)),
        count <= volumes@.len(),
{
    let ghost models = volume_views(volumes@);
    let mut i: usize = 0;
    while i < volumes.len() && volumes[i].host_path.is_some()
        invariant
            i <= volumes.len(),
            models == volume_views(volumes@),
            forall|j: int| 0 <= j < i ==> (#[trigger] models[j]).host_path is Some,
        decreases volumes.len() - i,
    {
        assert(models[i as int].host_path is Some);
        i = i + 1;
    }
    proof {
        lemma_usable_count(models);
        let n = usable_count(models) as int;
        if n < i {
            assert(models[n].host_path is None);
        }
        if i < n {
            assert(models[i as int].host_path is Some);
        }
    }
    i
}

/// A capability as it is configured for one actor.
pub struct Capability {
    pub name: &'static str,
    pub binding: Option<String>,
    pub env: EnvVars,
}

/// The model of a [`Capability`].
pub struct CapabilityView {
    pub name: Seq<char>,
    pub binding: Option<Seq<char>>,
    pub env: Map<Seq<char>, Seq<char>>,
}

impl View for Capability {
    type V = CapabilityView;

    open spec fn view(&self) -> CapabilityView {
        CapabilityView { name: self.name@, binding: opt_text(self.binding), env: self.env@ }
    }
}

/// The models of a list of capabilities.
pub open spec fn capability_views(capabilities: Seq<Capability>) -> Seq<CapabilityView> {
    capabilities.map_values(|c: Capability| c@)
}

/// What one actor is run with.
pub struct RunSettings {
    /// The environment that the pod gives the actor.
    pub env: EnvVars,
    /// The volumes that are mounted for it.
    pub volumes: Vec<VolumeBinding>,
    /// The variable that tells the Logging capability its log file.
    pub log_path_key: String,
    /// The path of the log file as text; `None` where it is not valid Unicode.
    pub log_path: Option<String>,
    /// The port that the HTTP capability listens on.
    pub port: u16,
}

/// The model of [`RunSettings`].
pub struct RunSettingsView {
    pub env: Map<Seq<char>, Seq<char>>,
    pub volumes: Seq<VolumeBindingView>,
    pub log_path_key: Seq<char>,
    pub log_path: Option<Seq<char>>,
    pub port: nat,
}

impl View for RunSettings {
    type V = RunSettingsView;

    open spec fn view(&self) -> RunSettingsView {
        RunSettingsView {
            env: self.env@,
            volumes: volume_views(self.volumes@),
            log_path_key: self.log_path_key@,
            log_path: opt_text(self.log_path),
            port: self.port as nat,
        }
    }
}

impl RunSettingsView {
    /// Every path that an actor with these claims is told of is valid Unicode.
    pub open spec fn paths_usable(self, claimed: Seq<Seq<char>>) -> bool {
        &&& claimed.contains(LOG_CAPABILITY@) ==> self.log_path is Some
        &&& claimed.contains(FS_CAPABILITY@) ==> forall|i: int|
            0 <= i < self.volumes.len() ==> (#[trigger] self.volumes[i]).host_path is Some
    }

    /// The Logging capability: the pod's environment and the log file.
    pub open spec fn log_capability(self) -> CapabilityView {
        CapabilityView {
            name: LOG_CAPABILITY@,
            binding: None,
            env: self.env.insert(self.log_path_key, self.log_path->0),
        }
    }

    /// The HTTP capability: the pod's environment and the port in decimal.
    pub open spec fn http_capability(self) -> CapabilityView {
        CapabilityView {
            name: HTTP_CAPABILITY@,
            binding: None,
            env: self.env.insert(HTTP_CONFIG_PORT@, decimal(self.port)),
        }
    }

    /// The Filesystem capability of one volume: the pod's environment and the
    /// directory of the volume, bound under the name of the volume.
    pub open spec fn volume_capability(self, volume: VolumeBindingView) -> CapabilityView {
        CapabilityView {
            name: FS_CAPABILITY@,
            binding: Some(volume.name),
            env: self.env.insert(FS_CONFIG_ROOTDIR@, volume.host_path->0),
        }
    }

    /// The capabilities that an actor with these claims is configured with:
    /// logging first, then HTTP, then one for each volume.
    pub open spec fn capabilities(self, claimed: Seq<Seq<char>>) -> Seq<CapabilityView> {
        (if claimed.contains(LOG_CAPABILITY@) {
            seq![self.log_capability()]
        } else {
            Seq::empty()
        }) + (if claimed.contains(HTTP_CAPABILITY@) {
            seq![self.http_capability()]
        } else {
            Seq::empty()
        }) + (if claimed.contains(FS_CAPABILITY@) {
            self.volumes.map_values(|v: VolumeBindingView| self.volume_capability(v))
        } else {
            Seq::empty()
        })
    }
}

impl RunSettings {
    /// Whether every path that an actor with these claims is told of is valid
    /// Unicode.
    pub fn paths_usable(&self, claimed: &Vec<String>) -> (yes: bool)
        ensures
            yes == self@.paths_usable(texts(claimed@)),
            yes <==> {
                &&& texts(claimed@).contains(LOG_CAPABILITY@) ==> self.log_path is Some
                &&& texts(claimed@).contains(FS_CAPABILITY@) ==> forall|i: int|
                    0 <= i < self.volumes@.len() ==> (
                    #[trigger] self.volumes@[i]).host_path is Some
            },
    {
        let ghost claims = texts(claimed@);
        if contains_text(claimed, LOG_CAPABILITY) && self.log_path.is_none() {
            return false;
        }
        if contains_text(claimed, FS_CAPABILITY) {
            let mut i: usize = 0;
            while i < self.volumes.len()
                invariant
                    i <= self.volumes.len(),
                    claims == texts(claimed@),
                    claims.contains(FS_CAPABILITY@),
                    forall|j: int|
                        0 <= j < i ==> (#[trigger] self@.volumes[j]).host_path is Some,
                    forall|j: int|
                        0 <= j < i ==> (#[trigger] self.volumes@[j]).host_path is Some,
                decreases self.volumes.len() - i,
            {
                if self.volumes[i].host_path.is_none() {
                    assert(self@.volumes[i as int].host_path is None);
                    assert(!self@.paths_usable(claims));
                    return false;
                }
                i = i + 1;
            }
        }
        true
    }
}

fn copy_text(text: &Option<String>) -> (copy: String)
    requires
        text is Some,
    ensures
        Some(copy@) == opt_text(*text),
{
    match text {
        Some(t) => t.clone(),
        None => String::new(),
    }
}

/// The capabilities that an actor with the claims `claimed` is configured with.
pub fn capabilities_for(claimed: &Vec<String>, settings: &RunSettings) -> (capabilities: Vec<
    Capability,
>)
    requires
        settings@.paths_usable(texts(claimed@)),
    ensures
        capability_views(capabilities@) == settings@.capabilities(texts(claimed@)),
        capabilities@.len() == settings@.capabilities(texts(claimed@)).len(),
        forall|i: int|
            0 <= i < capabilities@.len() ==> (#[trigger] capabilities@[i])@
                == settings@.capabilities(texts(claimed@))[i],
{
    let ghost claims = texts(claimed@);
    let ghost model = settings@;
    let mut capabilities: Vec<Capability> = Vec::new();
    let ghost mut expected: Seq<CapabilityView> = Seq::empty();
    if contains_text(claimed, LOG_CAPABILITY) {
        let env = settings.env.with(settings.log_path_key.as_str(), copy_text(&settings.log_path));
        capabilities.push(Capability { name: LOG_CAPABILITY, binding: None, env });
        proof {
            expected = expected + seq![model.log_capability()];
        }
    }
    assert(capability_views(capabilities@) =~= expected);
    if contains_text(claimed, HTTP_CAPABILITY) {
        let env = settings.env.with(HTTP_CONFIG_PORT, decimal_text(settings.port));
        capabilities.push(Capability { name: HTTP_CAPABILITY, binding: None, env });
        proof {
            expected = expected + seq![model.http_capability()];
        }
    }
    assert(capability_views(capabilities@) =~= expected);
    if contains_text(claimed, FS_CAPABILITY) {
        let ghost bound = model.volumes.map_values(
            |v: VolumeBindingView| model.volume_capability(v),
        );
        let mut i: usize = 0;
        assert(capability_views(capabilities@) =~= expected + bound.take(0));
        while i < settings.volumes.len()
            invariant
                i <= settings.volumes.len(),
                model == settings@,
                claims.contains(FS_CAPABILITY@),
                model.paths_usable(claims),
                bound == model.volumes.map_values(
                    |v: VolumeBindingView| model.volume_capability(v),
                ),
                capability_views(capabilities@) == expected + bound.take(i as int),
            decreases settings.volumes.len() - i,
        {
            let volume = &settings.volumes[i];
            assert(model.volumes[i as int] == volume@);
            let env = settings.env.with(FS_CONFIG_ROOTDIR, copy_text(&volume.host_path));
            let ghost before = capabilities@;
            capabilities.push(
                Capability { name: FS_CAPABILITY, binding: Some(volume.name.clone()), env },
            );
            i = i + 1;
            assert(capability_views(capabilities@) =~= capability_views(before).push(
                model.volume_capability(volume@),
            ));
            assert(capability_views(capabilities@) =~= expected + bound.take(i as int));
        }
        assert(bound.take(i as int) =~= bound);
        proof {
            expected = expected + bound;
        }
    }
    assert(expected =~= model.capabilities(claims));
    assert forall|i: int| 0 <= i < capabilities@.len() implies (#[trigger] capabilities@[i])@
        == model.capabilities(claims)[i] by {
        assert(capability_views(capabilities@)[i] == capabilities@[i]@);
    }
    capabilities
}

} // verus!
