//! What is read out of a request before an entry point runs: who calls,
//! and under which session.

pub mod router_client;
pub mod user_session;
