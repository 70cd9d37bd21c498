//! A dependency-injection container for Python objects.
//!
//! A [`RustContainer`] is a registry that maps the identity of a Python type
//! (a [`TypeKey`]) to a [`Provider`], and a resolver that produces the value of
//! a type on demand.  The registry keeps the key of every registration, so a
//! registered type object lives as long as the container.  On resolution a
//! registered instance is handed out as it is, and a class or a factory is
//! called anew.  Failures are reported as [`ContainerError`] values.
//!
//! The container is modelled by a [`ContainerState`]: every operation states
//! what it does to that model and what it returns, and the module [`laws`]
//! proves what follows for operations taken together.  The calls into the
//! interpreter go through the declarations of the module [`trusted`], which
//! are believed, not proved.
//!
//! A container is not synchronised.  Registration borrows it exclusively, so
//! that looking for an earlier registration and storing the new one cannot be
//! separated; to share a container between threads, keep it behind a lock,
//! take [`RustContainer::lookup`] under the lock and run
//! [`Provider::provide`] after the lock is given back.
pub mod container;
pub mod error;
pub mod key;
pub mod laws;
pub mod provider;
pub mod state;
pub mod trusted;

pub use container::RustContainer;
pub use error::ContainerError;
pub use key::TypeKey;
pub use provider::Provider;
pub use state::{ContainerState, Registration};
