//! Pods and containers: how they are named, and which of them can be run.

use crate::table::Key;
use crate::text::{has_prefix, join};
use vstd::prelude::*;
use vstd::string::*;

verus! {

/// Images whose reference starts so are never run.
pub const KUBE_PROXY_IMAGE: &'static str = "k8s.gcr.io/kube-proxy";

/// A container of a pod.
pub struct Container {
    pub name: String,
    pub args: Option<Vec<String>>,
    pub image: Option<String>,
}

/// A pod.
pub struct Pod {
    pub namespace: String,
    pub name: String,
    pub init_containers: Vec<Container>,
}

/// What a handle to a pod is stored under.
pub struct PodKey {
    pub namespace: String,
    pub name: String,
}

/// The model of a [`PodKey`].
pub struct PodKeyView {
    pub namespace: Seq<char>,
    pub name: Seq<char>,
}

impl View for PodKey {
    type V = PodKeyView;

    open spec fn view(&self) -> PodKeyView {
        PodKeyView { namespace: self.namespace@, name: self.name@ }
    }
}

impl Key for PodKey {
    fn same(&self, other: &Self) -> (yes: bool) {
        self.namespace == other.namespace && self.name == other.name
    }
}

impl PodKey {
    /// The key of the pod with this name in this namespace.
    pub fn new(namespace: &str, name: &str) -> (key: Self)
        ensures
            key@ == (PodKeyView { namespace: namespace@, name: name@ }),
            key.namespace@ == namespace@,
            key.name@ == name@,
    {
        PodKey { namespace: namespace.to_owned(), name: name.to_owned() }
    }
}

impl Pod {
    /// The model of the key of this pod.
    pub open spec fn key_view(self) -> PodKeyView {
        PodKeyView { namespace: self.namespace@, name: self.name@ }
    }

    /// The key of this pod.
    pub fn key(&self) -> (key: PodKey)
        ensures
            key@ == self.key_view(),
            key.namespace@ == self.namespace@,
            key.name@ == self.name@,
    {
        PodKey::new(self.namespace.as_str(), self.name.as_str())
    }
}

/// Why a pod or a container cannot be run.
pub enum Unrunnable {
    InitContainers { pod: String },
    ContainerArgs { container: String },
    InvalidImage { cause: String },
    KubeProxy,
}

/// The model of [`Unrunnable`].
pub enum UnrunnableView {
    InitContainers { pod: Seq<char> },
    ContainerArgs { container: Seq<char> },
    InvalidImage { cause: Seq<char> },
    KubeProxy,
}

impl View for Unrunnable {
    type V = UnrunnableView;

    open spec fn view(&self) -> UnrunnableView {
        match *self {
            Unrunnable::InitContainers { pod } => UnrunnableView::InitContainers { pod: pod@ },
            Unrunnable::ContainerArgs { container } => UnrunnableView::ContainerArgs {
                container: container@,
            },
            Unrunnable::InvalidImage { cause } => UnrunnableView::InvalidImage { cause: cause@ },
            Unrunnable::KubeProxy => UnrunnableView::KubeProxy,
        }
    }
}

impl UnrunnableView {
    /// The message of the error.
    pub open spec fn message_text(self) -> Seq<char> {
        match self {
            UnrunnableView::InitContainers { pod } => "Cannot run "@ + pod
                + ": spec specifies init containers which are not supported on wasmCloud"@,
            UnrunnableView::ContainerArgs { container } => "Cannot run "@ + container
                + ": spec specifies container args which are not supported on wasmCloud"@,
            UnrunnableView::InvalidImage { cause } => cause,
            UnrunnableView::KubeProxy => "Cannot run kube-proxy"@,
        }
    }
}

impl Unrunnable {
    /// The message of the error.
    pub fn message(&self) -> (text: String)
        ensures
            text@ == self@.message_text(),
    {
        match self {
            Unrunnable::InitContainers { pod } => join("Cannot run ", pod.as_str()).concat(
                ": spec specifies init containers which are not supported on wasmCloud",
            ),
            Unrunnable::ContainerArgs { container } => join("Cannot run ", container.as_str())
                .concat(": spec specifies container args which are not supported on wasmCloud"),
            Unrunnable::InvalidImage { cause } => cause.clone(),
            Unrunnable::KubeProxy => "Cannot run kube-proxy".to_owned(),
        }
    }
}

/// What stands against running, if anything.
pub open spec fn obstacle_of(outcome: Result<(), Unrunnable>) -> Option<UnrunnableView> {
    match outcome {
        Ok(_) => None,
        Err(reason) => Some(reason@),
    }
}

/// What stands against running a pod: init containers are not supported.
pub open spec fn pod_obstacle(pod: Pod) -> Option<UnrunnableView> {
    if pod.init_containers@.len() > 0 {
        Some(UnrunnableView::InitContainers { pod: pod.name@ })
    } else {
        None
    }
}

/// Whether a container is given arguments.
pub open spec fn given_args(container: Container) -> bool {
    container.args is Some && container.args->0@.len() > 0
}

/// What stands against running a container whose image, if it names one, reads
/// as `image`: the whole reference, or the text of an error.
pub open spec fn container_obstacle(
    container: Container,
    image: Option<Result<Seq<char>, Seq<char>>>,
) -> Option<UnrunnableView> {
    if given_args(container) {
        Some(UnrunnableView::ContainerArgs { container: container.name@ })
    } else {
        match image {
            Some(Err(cause)) => Some(UnrunnableView::InvalidImage { cause }),
            Some(Ok(whole)) if KUBE_PROXY_IMAGE@.is_prefix_of(whole) => Some(
                UnrunnableView::KubeProxy,
            ),
            _ => None,
        }
    }
}

/// Whether a container is given arguments.
pub fn has_args(container: &Container) -> (yes: bool)
    ensures
        yes == given_args(*container),
        yes == (container.args is Some && container.args->0@.len() > 0),
{
    match &container.args {
        None => false,
        Some(args) => args.len() > 0,
    }
}

/// Validates that a pod can be run here.
pub fn validate_pod_runnable(pod: &Pod) -> (outcome: Result<(), Unrunnable>)
    ensures
        obstacle_of(outcome) == pod_obstacle(*pod),
        outcome is Ok <==> pod.init_containers@.len() == 0,
        outcome matches Err(reason) ==> {
            &&& reason matches Unrunnable::InitContainers { pod: name }
            &&& name@ == pod.name@
        },
{
    if pod.init_containers.len() > 0 {
        return Err(Unrunnable::InitContainers { pod: pod.name.clone() });
    }
    Ok(())
}

/// The whole reference that an image name reads as, or the text of an error.
pub uninterp spec fn image_whole(image: Seq<char>) -> Result<Seq<char>, Seq<char>>;

/// The model of an image that was read.
pub open spec fn read_image(read: Result<String, String>) -> Result<Seq<char>, Seq<char>> {
    match read {
        Ok(whole) => Ok(whole@),
        Err(cause) => Err(cause@),
    }
}

/// Reads an image name with `oci_distribution::Reference::try_from` and gives
/// its `whole` reference, or the text of the error. Both are a function of the
/// name alone. A reference is put together again from the parts that the name
/// was split into, so a name that is accepted is its own whole reference.
#[verifier::external_body]
fn image_reference(image: &str) -> (read: Result<String, String>)
    ensures
        read_image(read) == image_whole(image@),
        read matches Ok(whole) ==> whole@ == image@,
{
    match oci_distribution::Reference::try_from(image.to_owned()) {
        Ok(reference) => Ok(reference.whole()),
        Err(error) => Err(error.to_string()),
    }
}

/// The model of the image of a container, if it names one.
pub open spec fn container_image(container: Container) -> Option<Result<Seq<char>, Seq<char>>> {
    match container.image {
        Some(image) => Some(image_whole(image@)),
        None => None,
    }
}

/// The model of an image that was read, if there is one.
pub open spec fn opt_image(image: Option<Result<String, String>>) -> Option<
    Result<Seq<char>, Seq<char>>,
> {
    match image {
        Some(read) => Some(read_image(read)),
        None => None,
    }
}

/// Validates that a container can be run here, given what its image reads as.
pub fn judge_container(container: &Container, image: Option<Result<String, String>>) -> (outcome:
    Result<(), Unrunnable>)
    ensures
        obstacle_of(outcome) == container_obstacle(*container, opt_image(image)),
        match outcome {
            Ok(_) => {
                &&& container.args is None || container.args->0@.len() == 0
                &&& image is Some ==> {
                    &&& image->0 matches Ok(whole)
                    &&& !KUBE_PROXY_IMAGE@.is_prefix_of(whole@)
                }
            },
            Err(Unrunnable::ContainerArgs { container: name }) => {
                &&& container.args is Some && container.args->0@.len() > 0
                &&& name@ == container.name@
            },
            Err(Unrunnable::InvalidImage { cause }) => {
                &&& container.args is None || container.args->0@.len() == 0
                &&& image matches Some(Err(said)) && said@ == cause@
            },
            Err(Unrunnable::KubeProxy) => {
                &&& container.args is None || container.args->0@.len() == 0
                &&& image matches Some(Ok(whole)) && KUBE_PROXY_IMAGE@.is_prefix_of(whole@)
            },
            Err(Unrunnable::InitContainers { .. }) => false,
        },
{
    if has_args(container) {
        return Err(Unrunnable::ContainerArgs { container: container.name.clone() });
    }
    match image {
        Some(Ok(whole)) => {
            if has_prefix(whole.as_str(), KUBE_PROXY_IMAGE) {
                return Err(Unrunnable::KubeProxy);
            }
            Ok(())
        },
        Some(Err(cause)) => Err(Unrunnable::InvalidImage { cause }),
        None => Ok(()),
    }
}

/// Validates that a container can be run here.
pub fn validate_container_runnable(container: &Container) -> (outcome: Result<(), Unrunnable>)
    ensures
        obstacle_of(outcome) == container_obstacle(*container, container_image(*container)),
        // Neither kube-proxy nor a container with arguments is ever run.
        outcome is Ok ==> !given_args(*container),
        outcome is Ok && container.image is Some ==> !KUBE_PROXY_IMAGE@.is_prefix_of(
            container.image->0@,
        ),
        // Nothing but an image of kube-proxy is refused as kube-proxy.
        outcome matches Err(Unrunnable::KubeProxy) ==> container.image is Some
            && KUBE_PROXY_IMAGE@.is_prefix_of(container.image->0@),
        match outcome {
            Ok(_) => {
                &&& container.args is None || container.args->0@.len() == 0
                &&& container.image is Some ==> {
                    &&& image_whole(container.image->0@) is Ok
                    &&& !KUBE_PROXY_IMAGE@.is_prefix_of(container.image->0@)
                }
            },
            Err(Unrunnable::ContainerArgs { container: name }) => {
                &&& container.args is Some && container.args->0@.len() > 0
                &&& name@ == container.name@
            },
            Err(Unrunnable::InvalidImage { cause }) => {
                &&& container.args is None || container.args->0@.len() == 0
                &&& container.image is Some
                &&& image_whole(container.image->0@) == Err::<Seq<char>, Seq<char>>(cause@)
            },
            Err(Unrunnable::KubeProxy) => {
                &&& container.args is None || container.args->0@.len() == 0
                &&& container.image is Some
                &&& image_whole(container.image->0@) is Ok
                &&& KUBE_PROXY_IMAGE@.is_prefix_of(container.image->0@)
            },
            Err(Unrunnable::InitContainers { .. }) => false,
        },
{
    let image = match &container.image {
        Some(name) => Some(image_reference(name.as_str())),
        None => None,
    };
    judge_container(container, image)
}

} // verus!
