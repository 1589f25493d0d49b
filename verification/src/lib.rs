//! Control-plane logic for a router: the interface model built from the
//! kernel's link and wireless views, the rules for changing link state and
//! wireless mode, caller identification and the operator session.

pub mod addr;
pub mod api;
pub mod error;
pub mod extractor;
pub mod service;
