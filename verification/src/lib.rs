//! The trust boundary of an agent-centric application runtime: call
//! authorization, host capabilities, entry validation and the request
//! envelope, each with a machine-checked contract.

pub mod app_info;
pub mod app_interface;
pub mod authorize;
pub mod bytes;
pub mod call;
pub mod host_fn;
pub mod integrity;
pub mod payload;
pub mod validation;
