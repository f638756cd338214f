//! The decision core of a Kubernetes node agent that runs wasmCloud actors.
//!
//! Everything here is computed from plain values, apart from two kinds of
//! outside values that are carried along: an actor that the wasmCloud host
//! library has read, and paths on this node. What has to happen on the wasmCloud
//! host or on disk is described by a [`script::Script`], which a driver performs
//! one action at a time, reporting the outcome of each.

pub mod actor;
pub mod capability;
pub mod environment;
pub mod handles;
pub mod laws;
pub mod paths;
pub mod pod;
pub mod provider;
pub mod script;
pub mod table;
pub mod text;
