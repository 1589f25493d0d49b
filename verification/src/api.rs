//! What each entry point of the control plane decides, apart from how the
//! request arrives and how the answer leaves.

pub mod auth_status;
pub mod login;
pub mod logout;
pub mod net;
