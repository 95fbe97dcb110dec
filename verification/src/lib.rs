//! CS-Foundry core logic: the decisions, parsers and naming rules that the
//! control plane and the node agent apply, stated and proved with Verus.

pub mod text;
pub mod order;
pub mod numparse;
pub mod versions;
pub mod agent_layout;
pub mod crypto;
pub mod json;
pub mod ticket;
pub mod host;
pub mod access;
pub mod assignments;
pub mod workload_fsm;
pub mod node;
pub mod vm;
pub mod gateway_auth;
pub mod accounts;
pub mod two_factor;
pub mod resources;
pub mod docker_config;
pub mod groups;
pub mod proxy;
pub mod api_types;
pub mod router;
pub mod cluster;
pub mod releases;
pub mod rollout;
pub mod settings;
pub mod ssh_keys;
pub mod seed;
pub mod marketplace;
pub mod flake_update;
pub mod failover;
