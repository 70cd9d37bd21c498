//! The errors that registration and resolution report.
use crate::trusted::error_text;
use pyo3::{PyErr, Python};
use vstd::prelude::*;
use vstd::string::*;

verus! {

/// Why a container operation failed.  Every error carries the identity of the
/// type it concerns, and the name of that type for messages; none is retried
/// or swallowed by the container.
#[derive(Debug)]
pub enum ContainerError {
    /// Resolution was asked for a type that has no provider.
    DependencyNotRegistered { identity: usize, name: String },
    /// A provider was turned away before it was stored.
    ProviderRegistrationFailed { identity: usize, name: String, reason: String },
    /// A provider was offered for a type that already has one.
    DuplicateRegistration { identity: usize, name: String },
    /// The class or factory raised while it built the value; `cause` is the
    /// exception it raised, handed on as it came.
    ConstructionFailed { identity: usize, name: String, cause: PyErr },
}

impl ContainerError {
    /// The identity of the type the error concerns.
    pub open spec fn spec_identity(&self) -> usize {
        match *self {
            ContainerError::DependencyNotRegistered { identity, .. } => identity,
            ContainerError::ProviderRegistrationFailed { identity, .. } => identity,
            ContainerError::DuplicateRegistration { identity, .. } => identity,
            ContainerError::ConstructionFailed { identity, .. } => identity,
        }
    }

    /// The name of the type the error concerns.
    pub open spec fn spec_name(&self) -> Seq<char> {
        match *self {
            ContainerError::DependencyNotRegistered { name, .. } => name@,
            ContainerError::ProviderRegistrationFailed { name, .. } => name@,
            ContainerError::DuplicateRegistration { name, .. } => name@,
            ContainerError::ConstructionFailed { name, .. } => name@,
        }
    }

    /// The text in front of the details in [`ContainerError::message`].
    pub open spec fn spec_prefix(&self) -> Seq<char> {
        match *self {
            ContainerError::DependencyNotRegistered { .. } => "Dependency not registered: "@,
            ContainerError::ProviderRegistrationFailed { .. } => "Provider registration failed: "@,
            ContainerError::DuplicateRegistration { .. } => "Duplicate provider registration: "@,
            ContainerError::ConstructionFailed { .. } => "Python error: "@,
        }
    }

    /// The one-line description of the error, where `rendered` is the text
    /// that stands for the cause of a failed construction.  The other errors
    /// make no use of `rendered`.
    pub open spec fn spec_message(&self, rendered: Seq<char>) -> Seq<char> {
        match *self {
            ContainerError::ProviderRegistrationFailed { name, reason, .. } => self.spec_prefix()
                + name@ + " - "@ + reason@,
            ContainerError::ConstructionFailed { .. } => self.spec_prefix() + rendered,
            _ => self.spec_prefix() + self.spec_name(),
        }
    }

    /// The identity of the type the error concerns.
    pub fn identity(&self) -> (identity: usize)
        ensures
            identity == self.spec_identity(),
    {
        match self {
            ContainerError::DependencyNotRegistered { identity, .. } => *identity,
            ContainerError::ProviderRegistrationFailed { identity, .. } => *identity,
            ContainerError::DuplicateRegistration { identity, .. } => *identity,
            ContainerError::ConstructionFailed { identity, .. } => *identity,
        }
    }

    /// The name of the type the error concerns.
    pub fn name(&self) -> (label: &String)
        ensures
            label@ == self.spec_name(),
    {
        match self {
            ContainerError::DependencyNotRegistered { name, .. } => name,
            ContainerError::ProviderRegistrationFailed { name, .. } => name,
            ContainerError::DuplicateRegistration { name, .. } => name,
            ContainerError::ConstructionFailed { name, .. } => name,
        }
    }

    /// A one-line description of the error.  For a failed construction the
    /// description ends with the interpreter's rendering of the exception,
    /// which is not known before it is asked for; the other errors are
    /// described exactly.
    pub fn message(&self, py: Python<'_>) -> (text: String)
        ensures
            self !is ConstructionFailed ==> text@ == self.spec_message(Seq::empty()),
            self is ConstructionFailed ==> self.spec_prefix().is_prefix_of(text@),
    {
        match self {
            ContainerError::ConstructionFailed { cause, .. } => {
                let rendered = error_text(cause, py);
                self.message_with(rendered.as_str())
            },
            _ => self.message_with(""),
        }
    }

    /// The description of the error, given the rendering of its cause.
    pub fn message_with(&self, rendered: &str) -> (text: String)
        ensures
            text@ == self.spec_message(rendered@),
    {
        match self {
            ContainerError::DependencyNotRegistered { name, .. } => {
                String::from_str("Dependency not registered: ").concat(name.as_str())
            },
            ContainerError::ProviderRegistrationFailed { name, reason, .. } => {
                let mut text = String::from_str("Provider registration failed: ");
                text.append(name.as_str());
                text.append(" - ");
                text.append(reason.as_str());
                text
            },
            ContainerError::DuplicateRegistration { name, .. } => {
                String::from_str("Duplicate provider registration: ").concat(name.as_str())
            },
            ContainerError::ConstructionFailed { .. } => {
                String::from_str("Python error: ").concat(rendered)
            },
        }
    }
}

} // verus!
