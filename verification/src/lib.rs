//! Lifecycle management for short-lived Kubernetes clusters.
//!
//! Clusters are provisioned through one of two backends (a local
//! container-based runtime or a managed cloud Kubernetes API) and tracked
//! in a local directory-per-cluster registry. This crate holds the core
//! logic: the registry model and its lifecycle mutations, the per-backend
//! request and document builders, the credential encoding, and the
//! reconciliation ("clean") algorithm. The surrounding binary performs the
//! actual filesystem, process and network effects and drives these
//! functions.

pub mod cloud;
pub mod creds;
pub mod errors;
pub mod local;
pub mod reconcile;
pub mod registry;
pub mod text;
