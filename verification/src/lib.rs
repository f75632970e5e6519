//! Health watching for the pods of one application release.
//!
//! The crate holds the decisions of a release watcher as functions on plain
//! values: finding the release a pod belongs to, flattening a pod's status,
//! driving a resumable watch session, and deciding which observations are
//! worth an alert. Talking to the cluster and to the desktop is left to the
//! caller.

pub mod status;
pub mod resolve;
pub mod notifier;
pub mod watch;
pub mod pipeline;
