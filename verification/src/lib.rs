//! LocaRay's tunnel logic: the lifecycle state machine of a Cloudflare Quick Tunnel
//! session, the validation of the public URL the tunnel reports, the bounded and
//! redacted diagnostics, the discovery of local development services, and the rules
//! of the local compatibility route, each with its specification.
use vstd::prelude::*;

pub mod commands;
pub mod compatibility;
pub mod diagnostics;
pub mod machine_laws;
pub mod patterns;
pub mod services;
pub mod session;
pub mod settings;
pub mod state;
pub mod text;
pub mod tunnel;
pub mod url_parser;

verus! {

} // verus!
