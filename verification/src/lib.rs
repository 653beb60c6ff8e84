//! Verified core of a Kubernetes operator that manages Sonarr instances and
//! their configuration through custom resources.
//!
//! The library holds the resource model, the rules that turn a custom resource
//! into the objects and Sonarr API payloads the operator applies, and the
//! reconciliation decisions. I/O (the Kubernetes and Sonarr clients) is done
//! by the program built around it.

pub mod api;
pub mod controllers;
pub mod crd;
pub mod crdgen;
pub mod crds;
pub mod error;
pub mod meta;
pub mod string_map;
pub mod text;
pub mod workload;
