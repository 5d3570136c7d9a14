//! ClawOps fleet-operations library: protocol types, input validation,
//! health and auto-heal decisions, failover planning, incident triage,
//! cost helpers, node-side stores and metrics export, with contracts
//! checked by Verus.

pub mod text;
pub mod sources;
pub mod proto;
pub mod auth;
pub mod api_keys;
pub mod health;
pub mod observe;
pub mod persist;
pub mod gf_proto;
pub mod gf_audit;
pub mod gf_metrics;
pub mod gf_health;
pub mod gf_failover;
pub mod ledger;
pub mod metrics;
pub mod provision;
pub mod audit;
pub mod audit_chain;
pub mod secrets;
pub mod node;
pub mod rolling_push;
pub mod gf_node;
pub mod triage;
pub mod safety;
pub mod words;
pub mod commander;
pub mod secrets_cmd;
pub mod identity;
pub mod briefer;
pub mod auth_cmd;
pub mod gateway;
pub mod health_cmd;
pub mod commands;
pub mod gf_handlers;
