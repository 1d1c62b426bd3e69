//! Verified core of the rivetr deployment platform API.
pub mod ai;
pub mod ai_features;
pub mod alerts;
pub mod api_tokens;
pub mod apps;
pub mod audit;
pub mod auth;
pub mod authz;
pub mod basic_auth;
pub mod build_servers;
pub mod bulk;
pub mod ca_certificates;
pub mod clock;
pub mod clone;
pub mod cloudflare_tunnels;
pub mod community_templates;
pub mod costs;
pub mod crypto;
pub mod database_backups;
pub mod database_extensions;
pub mod database_links;
pub mod databases;
pub mod deployments;
pub mod destinations;
pub mod domains;
pub mod env_vars;
pub mod error;
pub mod freeze;
pub mod ids;
pub mod matching;
pub mod numbers;
pub mod restart;
pub mod text;
pub mod unicode;
