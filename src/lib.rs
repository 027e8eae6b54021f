//! Dynamic-DNS record management: a provider-agnostic record model, opaque
//! record identifiers, and the request planning and pagination logic of the
//! Cloudflare and Route53 adapters.
pub mod auth;
pub mod cloudflare;
pub mod domain;
pub mod error;
pub mod id;
pub mod orchestrator;
pub mod provider;
pub mod record;
pub mod route53;
pub mod text;
