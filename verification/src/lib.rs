//! Verified decisions of a high-availability Rhiza node: who may stop it and
//! by when, what each shutdown may claim, how startup prepares local state,
//! how a live successor takes over, and what the owner publishes meanwhile.
pub mod accept;
pub mod activation;
pub mod binding;
pub mod cancellation;
pub mod config;
pub mod error;
pub mod evidence;
pub mod ingress;
pub mod live_prestage;
pub mod live_successor;
pub mod live_successor_laws;
pub mod local_files;
pub mod log;
pub mod marker_write;
pub mod node;
pub mod open;
pub mod open_laws;
pub mod open_node;
pub mod owner;
pub mod preparation;
pub mod prepare;
pub mod prepare_laws;
pub mod prestage;
pub mod readiness;
pub mod readiness_laws;
pub mod recorder;
pub mod rejoin;
pub mod scope;
pub mod staging;
pub mod starting;
pub mod startup;
pub mod status;
pub mod successor;
pub mod successor_child;
pub mod successor_child_laws;
pub mod successor_prepare;
pub mod supervise;
pub mod supervise_laws;
pub mod task;
pub mod text;
pub mod token;
