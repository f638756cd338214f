//! Scripts: what has to be done on the wasmCloud host and on disk, in order.
//!
//! A driver asks a [`Script`] for its next action, performs it, and reports
//! the outcome. The first failure ends the script: the actions after it are
//! never handed out, and the error names the action that failed.

use crate::capability::{Capability, CapabilityView, Plugin};
use crate::text::{debug_quoted, debug_text, join, opt_text};
use std::path::PathBuf;
use vstd::prelude::*;
use vstd::string::*;

verus! {

/// One action on the host or on disk.
pub enum HostAction {
    /// Create a directory with its parents, where they do not exist yet.
    CreateDir { path: PathBuf },
    /// Make a native capability from a new instance of the plugin.
    Instantiate { plugin: Plugin, binding: Option<String> },
    /// Add the capability that was made last to the host.
    AddCapability { plugin: Plugin, binding: Option<String> },
    /// Add the loaded actor to the host.
    AddActor { key: String },
    /// Configure a capability for the actor.
    SetBinding { key: String, capability: Capability },
    /// Remove the actor from the host. The cause of a failure is the debug text
    /// of the host's error.
    RemoveActor { key: String },
    /// Remove the capability that is bound to a volume from the host. The cause
    /// of a failure is the debug text of the host's error.
    RemoveCapability { plugin: Plugin, volume: String },
}

/// The model of a [`HostAction`].
pub enum HostActionView {
    CreateDir { path: PathBuf },
    Instantiate { plugin: Plugin, binding: Option<Seq<char>> },
    AddCapability { plugin: Plugin, binding: Option<Seq<char>> },
    AddActor { key: Seq<char> },
    SetBinding { key: Seq<char>, capability: CapabilityView },
    RemoveActor { key: Seq<char> },
    RemoveCapability { plugin: Plugin, volume: Seq<char> },
}

impl View for HostAction {
    type V = HostActionView;

    open spec fn view(&self) -> HostActionView {
        match *self {
            HostAction::CreateDir { path } => HostActionView::CreateDir { path },
            HostAction::Instantiate { plugin, binding } => HostActionView::Instantiate {
                plugin,
                binding: opt_text(binding),
            },
            HostAction::AddCapability { plugin, binding } => HostActionView::AddCapability {
                plugin,
                binding: opt_text(binding),
            },
            HostAction::AddActor { key } => HostActionView::AddActor { key: key@ },
            HostAction::SetBinding { key, capability } => HostActionView::SetBinding {
                key: key@,
                capability: capability@,
            },
            HostAction::RemoveActor { key } => HostActionView::RemoveActor { key: key@ },
            HostAction::RemoveCapability { plugin, volume } => HostActionView::RemoveCapability {
                plugin,
                volume: volume@,
            },
        }
    }
}

/// The models of a list of actions.
pub open spec fn action_views(actions: Seq<HostAction>) -> Seq<HostActionView> {
    actions.map_values(|a: HostAction| a@)
}

/// Registers a capability: the plugin is instantiated, then added to the host.
pub open spec fn install_script(plugin: Plugin, binding: Option<Seq<char>>) -> Seq<HostActionView> {
    seq![
        HostActionView::Instantiate { plugin, binding },
        HostActionView::AddCapability { plugin, binding },
    ]
}

/// Appends the two actions that register a capability.
pub(crate) fn push_install(actions: &mut Vec<HostAction>, plugin: Plugin, binding: Option<String>)
    ensures
        action_views(final(actions)@) == action_views(old(actions)@) + install_script(
            plugin,
            opt_text(binding),
        ),
{
    let copy = match &binding {
        Some(name) => Some(name.clone()),
        None => None,
    };
    actions.push(HostAction::Instantiate { plugin, binding: copy });
    actions.push(HostAction::AddCapability { plugin, binding });
    assert(action_views(actions@) =~= action_views(old(actions)@) + install_script(
        plugin,
        opt_text(binding),
    ));
}

/// An action that failed.
pub struct HostError {
    pub action: HostAction,
    /// What the host or the file system said: the debug text of the host's
    /// error where the action removes something, and the display text of the
    /// error where it does anything else.
    pub cause: String,
}

/// The model of a [`HostError`].
pub struct HostErrorView {
    pub action: HostActionView,
    pub cause: Seq<char>,
}

impl View for HostError {
    type V = HostErrorView;

    open spec fn view(&self) -> HostErrorView {
        HostErrorView { action: self.action@, cause: self.cause@ }
    }
}

impl HostErrorView {
    /// The message of the error.
    pub open spec fn message_text(self) -> Seq<char> {
        match self.action {
            HostActionView::CreateDir { .. } => self.cause,
            HostActionView::Instantiate { plugin, .. } => "Failed to instantiate "@
                + plugin.label_text() + " capability: "@ + self.cause,
            HostActionView::AddCapability { plugin, .. } => "Failed to add "@ + plugin.label_text()
                + " capability: "@ + self.cause,
            HostActionView::AddActor { .. } => "Error adding actor: "@ + self.cause,
            HostActionView::SetBinding { .. } => "Error configuring capabilities for module: "@
                + self.cause,
            HostActionView::RemoveActor { .. } => "unable to remove actor: "@ + self.cause,
            HostActionView::RemoveCapability { volume, .. } => "unable to remove volume "@
                + debug_text(volume) + " capability: "@ + self.cause,
        }
    }
}

impl HostError {
    /// The message of the error.
    pub fn message(&self) -> (text: String)
        ensures
            text@ == self@.message_text(),
    {
        match &self.action {
            HostAction::CreateDir { .. } => self.cause.clone(),
            HostAction::Instantiate { plugin, .. } => join("Failed to instantiate ", plugin.label())
                .concat(" capability: ").concat(self.cause.as_str()),
            HostAction::AddCapability { plugin, .. } => join("Failed to add ", plugin.label())
                .concat(" capability: ").concat(self.cause.as_str()),
            HostAction::AddActor { .. } => join("Error adding actor: ", self.cause.as_str()),
            HostAction::SetBinding { .. } => join(
                "Error configuring capabilities for module: ",
                self.cause.as_str(),
            ),
            HostAction::RemoveActor { .. } => join("unable to remove actor: ", self.cause.as_str()),
            HostAction::RemoveCapability { volume, .. } => join(
                "unable to remove volume ",
                debug_quoted(volume.as_str()).as_str(),
            ).concat(" capability: ").concat(self.cause.as_str()),
        }
    }
}

/// The cause in the outcome of an action, if it failed.
pub open spec fn outcome_cause(outcome: Result<(), String>) -> Option<Seq<char>> {
    match outcome {
        Ok(_) => None,
        Err(cause) => Some(cause@),
    }
}

/// The model of a [`Script`].
pub struct ScriptView {
    pub actions: Seq<HostActionView>,
    /// How many actions have succeeded.
    pub done: nat,
    /// The cause for which the action after those failed.
    pub failure: Option<Seq<char>>,
}

impl ScriptView {
    /// A script of which nothing was performed yet.
    pub open spec fn start(actions: Seq<HostActionView>) -> ScriptView {
        ScriptView { actions, done: 0, failure: None }
    }

    /// The states that a script can be in.
    pub open spec fn well_formed(self) -> bool {
        &&& self.done <= self.actions.len()
        &&& self.failure is Some ==> self.done < self.actions.len()
    }

    /// Whether there is an action to perform.
    pub open spec fn running(self) -> bool {
        self.failure is None && self.done < self.actions.len()
    }

    /// The state after the outcome of the next action.
    pub open spec fn after(self, cause: Option<Seq<char>>) -> ScriptView {
        match cause {
            None => ScriptView { done: self.done + 1, ..self },
            Some(_) => ScriptView { failure: cause, ..self },
        }
    }

    /// The error of a script that failed.
    pub open spec fn error(self) -> HostErrorView {
        HostErrorView { action: self.actions[self.done as int], cause: self.failure->0 }
    }
}

/// Actions to perform in order, and how far that has come.
pub struct Script {
    actions: Vec<HostAction>,
    done: usize,
    failure: Option<String>,
}

impl View for Script {
    type V = ScriptView;

    closed spec fn view(&self) -> ScriptView {
        ScriptView {
            actions: action_views(self.actions@),
            done: self.done as nat,
            failure: opt_text(self.failure),
        }
    }
}

impl Script {
    #[verifier::type_invariant]
    spec fn inv(self) -> bool {
        self@.well_formed()
    }

    /// A script of which nothing was performed yet.
    pub fn start(actions: Vec<HostAction>) -> (script: Self)
        ensures
            script@ == ScriptView::start(action_views(actions@)),
            script@.actions.len() == actions@.len(),
            forall|i: int| 0 <= i < actions@.len() ==> script@.actions[i] == #[trigger] actions@[i]@,
            script@.done == 0,
            script@.failure is None,
    {
        Script { actions, done: 0, failure: None }
    }

    /// The action to perform next; `None` where all succeeded or one failed.
    pub fn next(&self) -> (action: Option<&HostAction>)
        ensures
            self@.well_formed(),
            match action {
                Some(a) => self@.running() && a@ == self@.actions[self@.done as int],
                None => !self@.running(),
            },
            action is Some <==> self@.failure is None && self@.done < self@.actions.len(),
    {
        proof {
            use_type_invariant(self);
        }
        if self.failure.is_none() && self.done < self.actions.len() {
            Some(&self.actions[self.done])
        } else {
            None
        }
    }

    /// Takes note of the outcome of the next action, the cause of a failure as
    /// [`HostError::cause`] has it.
    pub fn report(&mut self, outcome: Result<(), String>)
        requires
            old(self)@.running(),
        ensures
            final(self)@ == old(self)@.after(outcome_cause(outcome)),
            final(self)@.actions == old(self)@.actions,
            match outcome {
                Ok(_) => final(self)@.done == old(self)@.done + 1 && final(self)@.failure is None,
                Err(cause) => final(self)@.done == old(self)@.done && final(self)@.failure == Some(
                    cause@,
                ),
            },
    {
        match outcome {
            Ok(_) => {
                assert(self.done < self.actions.len());
                self.done = self.done + 1;
            },
            Err(cause) => {
                self.failure = Some(cause);
            },
        }
    }

    /// The result of a script that has come to its end.
    pub fn finish(self) -> (result: Result<(), HostError>)
        requires
            !self@.running(),
        ensures
            self@.well_formed(),
            match result {
                Ok(_) => self@.failure is None && self@.done == self@.actions.len(),
                Err(error) => {
                    &&& self@.failure == Some(error.cause@)
                    &&& error.action@ == self@.actions[self@.done as int]
                    &&& error@ == self@.error()
                },
            },
    {
        proof {
            use_type_invariant(&self);
        }
        let mut actions = self.actions;
        match self.failure {
            None => Ok(()),
            Some(cause) => Err(HostError { action: actions.remove(self.done), cause }),
        }
    }
}

} // verus!
