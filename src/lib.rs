//! Relays a CMS publish event into batches of outbound emails: webhook
//! signature checks, admin-API tokens, page accumulation and batch dispatch.

pub mod config;
pub mod digest;
pub mod email;
pub mod dispatch;
pub mod flow;
pub mod ghost;
pub mod hexcode;
pub mod pagination;
pub mod signature;
pub mod token;
