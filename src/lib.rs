//! Reconciles `ServiceUser` and `Group` cluster resources into an LLDAP
//! directory. The library holds the controller's decisions, each with a
//! contract; the binary around it performs the cluster and HTTP calls.

pub mod controller;
pub mod events;
pub mod group;
pub mod laws;
pub mod lldap;
pub mod membership;
pub mod naming;
pub mod queries;
pub mod registration;
pub mod resources;
pub mod secret;
pub mod service_user;
