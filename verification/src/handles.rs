//! The handles of the pods that run on this node.

use crate::pod::{Pod, PodKey, PodKeyView};
use crate::table::Table;
use vstd::prelude::*;

verus! {

/// The pod whose logs were asked for is not running here.
pub struct PodNotFound {
    pub pod_name: String,
}

/// One handle for each pod, of whatever type the driver uses.
#[verifier::reject_recursive_types(H)]
pub struct HandleTable<H> {
    handles: Table<PodKey, H>,
}

impl<H> View for HandleTable<H> {
    type V = Map<PodKeyView, H>;

    closed spec fn view(&self) -> Map<PodKeyView, H> {
        self.handles@
    }
}

impl<H> HandleTable<H> {
    /// No handles.
    pub fn new() -> (table: Self)
        ensures
            table@ == Map::<PodKeyView, H>::empty(),
    {
        HandleTable { handles: Table::new() }
    }

    /// Keeps the handle of a pod, in place of one that it had before.
    pub fn insert(&mut self, key: PodKey, handle: H)
        ensures
            final(self)@ == old(self)@.insert(key@, handle),
    {
        self.handles.insert(key, handle);
    }

    /// The handle to stop in order to stop a pod. There is nothing to stop for
    /// a pod without a handle. What becomes of the handle is kept.
    pub fn stop_target(&mut self, pod: &Pod) -> (handle: Option<&mut H>)
        ensures
            match handle {
                Some(h) => {
                    &&& old(self)@.contains_key(pod.key_view())
                    &&& *h == old(self)@[pod.key_view()]
                    &&& final(self)@ == old(self)@.insert(pod.key_view(), *final(h))
                },
                None => !old(self)@.contains_key(pod.key_view()) && final(self)@ == old(self)@,
            },
    {
        self.handles.get_mut(&pod.key())
    }

    /// The handle to read the logs of a pod from. What becomes of the handle is
    /// kept.
    pub fn log_source(&mut self, namespace: &str, pod_name: &str) -> (handle: Result<
        &mut H,
        PodNotFound,
    >)
        ensures
            ({
                let key = PodKeyView { namespace: namespace@, name: pod_name@ };
                match handle {
                    Ok(h) => {
                        &&& old(self)@.contains_key(key)
                        &&& *h == old(self)@[key]
                        &&& final(self)@ == old(self)@.insert(key, *final(h))
                    },
                    Err(error) => {
                        &&& !old(self)@.contains_key(key)
                        &&& error.pod_name@ == pod_name@
                        &&& final(self)@ == old(self)@
                    },
                }
            }),
    {
        match self.handles.get_mut(&PodKey::new(namespace, pod_name)) {
            Some(handle) => Ok(handle),
            None => Err(PodNotFound { pod_name: pod_name.to_owned() }),
        }
    }
}

} // verus!
