use vstd::prelude::*;

pub mod text;
pub mod named_map;
pub mod model;
pub mod labels;
pub mod checks;
pub mod control;
pub mod artifacts;
pub mod validate;
pub mod machine_checks;
pub mod config;
pub mod cluster_checks;
pub mod views;
pub mod contracts;
pub mod placement;
pub mod summary;
pub mod registration;
pub mod config_checks;
pub mod pvm;
pub mod services;
pub mod sample;
pub mod hosted_state;
pub mod fleet;
pub mod routing;
pub mod registry;
pub mod serve;
pub mod transfer;
pub mod localize;
pub mod route;
pub mod requests;
pub mod listing;
pub mod service_stop;
pub mod service_status;
pub mod machine_requests;
pub mod laws;

verus! {
}
