//! Sets up trusted publishing for the packages of a workspace.
//!
//! For every publishable package the registry should know the package and
//! hold a binding that lets a workflow of a repository publish it. This
//! library is the part of that work that decides: which packages count,
//! where the index keeps them, what the registry's answers mean, what is
//! left to configure, and in which order things are asked for.
//!
//! It reads no file and sends no request. [`run::Run`] says what to do next
//! and takes in what came of it; its caller does the asking. Every function
//! is verified against a contract over the plain content of its arguments:
//! the characters of a string, the items of a list.
//!
//! * [`package`]: the packages of the workspace and which of them are
//!   published.
//! * [`shard`]: the path of a package in the registry's index.
//! * [`registry`]: the addresses of the registry and the meaning of its
//!   answers.
//! * [`skeleton`]: the placeholder that reserves a name.
//! * [`binding`]: bindings, and what is left to configure.
//! * [`cache`]: the bindings known to be configured.
//! * [`model`] and [`run`]: the run as a state machine, and its executable
//!   form.
//! * [`config`], [`remote`], [`workflow`]: what a run is told before it
//!   starts.
//! * [`text`]: strings and their characters.
pub mod text;
pub mod cache;
pub mod package;
pub mod binding;
pub mod registry;
pub mod shard;
pub mod skeleton;
pub mod model;
pub mod run;
pub mod remote;
pub mod workflow;
pub mod config;
